//! The human verification gate: what is asked of the oracle, and how its two answers and the
//! current time are combined into one verdict.
//!
//! Nothing here reaches an oracle. Whoever uses this module puts the query to the oracle and
//! hands in what came of it.

use vstd::prelude::*;
use crate::account::AccountId;
use crate::error::OracleFailure;

verus! {

/// A point in time, in milliseconds.
pub type Timestamp = u64;

/// How long a verification stays valid: 24 hours, in milliseconds.
pub const FRESHNESS_WINDOW_MS: u64 = 86_400_000;

/// What the oracle knows of an account's last successful verification.
#[derive(Clone, Copy, Debug, PartialEq, Eq, Structural)]
pub struct VerificationRecord {
    /// When the account was last verified.
    pub timestamp: Timestamp,
}

/// The two questions that are put to the oracle about one account: when it was last
/// verified, and whether it counts as human at the given threshold.
#[derive(Clone, Copy, Debug, PartialEq, Eq)]
pub struct OracleQuery {
    /// The oracle that is asked.
    pub oracle: AccountId,
    /// The account that is asked about.
    pub account: AccountId,
    /// The percentage of correct answers that the account must have reached.
    pub threshold: u8,
}

/// What came of the two questions of an `OracleQuery`.
#[derive(Clone, Copy, Debug, PartialEq, Eq)]
pub struct OracleReply {
    /// The record of the last verification, or why there is none.
    pub last_correct_verification: Result<VerificationRecord, OracleFailure>,
    /// Whether the account counts as human, or why that is not known.
    pub is_human_user: Result<bool, OracleFailure>,
}

/// A verification is fresh while less than the freshness window has passed since.
pub open spec fn fresh(now: Timestamp, record: VerificationRecord) -> bool {
    now - record.timestamp < FRESHNESS_WINDOW_MS
}

/// The verdict on an account: human and freshly verified. There is no verdict where
/// either answer is missing; of two failures the one of the first question is reported.
pub open spec fn verdict_of(now: Timestamp, reply: OracleReply) -> Result<bool, OracleFailure> {
    match (reply.last_correct_verification, reply.is_human_user) {
        (Err(failure), _) => Err(failure),
        (Ok(_), Err(failure)) => Err(failure),
        (Ok(record), Ok(human)) => Ok(human && fresh(now, record)),
    }
}

/// Whether the verification that `record` tells of is still fresh at `now`.
pub fn is_fresh(now: Timestamp, record: &VerificationRecord) -> (r: bool)
    ensures
        r == fresh(now, *record),
{
    record.timestamp > now || now - record.timestamp < FRESHNESS_WINDOW_MS
}

/// Combines the oracle's answers into the verdict on the account.
pub fn verdict(now: Timestamp, reply: &OracleReply) -> (r: Result<bool, OracleFailure>)
    ensures
        r == verdict_of(now, *reply),
{
    match reply.last_correct_verification {
        Err(failure) => Err(failure),
        Ok(record) => match reply.is_human_user {
            Err(failure) => Err(failure),
            Ok(human) => {
                let fresh_enough = is_fresh(now, &record);
                Ok(human && fresh_enough)
            },
        },
    }
}

} // verus!
