//! What can go wrong.

use vstd::prelude::*;

verus! {

/// Why the oracle gave no answer.
#[derive(Clone, Copy, Debug, PartialEq, Eq, Structural)]
pub enum OracleFailure {
    /// The oracle could not be reached.
    Unreachable,
    /// The oracle refused the query.
    Reverted,
    /// The oracle's answer could not be read.
    Malformed,
}

/// Error types.
#[derive(Clone, Copy, Debug, PartialEq, Eq, Structural)]
pub enum Error {
    /// Returned if not enough balance to fulfill a request is available.
    InsufficientBalance,
    /// Returned if the oracle gave no answer; nothing was changed.
    OracleFailure(OracleFailure),
}

} // verus!
