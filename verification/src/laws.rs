//! What holds of the contract whatever is asked of it, stated over the contract as a
//! mathematical value and proved.

use vstd::prelude::*;
use crate::account::AccountId;
use crate::balances::{
    lemma_moved_balances, lemma_moved_sum, lemma_sum_empty, lemma_sum_insert, sum_of, Balance,
};
use crate::event::Transfer;
use crate::state::DappState;
use crate::error::{Error, OracleFailure};
use crate::gate::{verdict_of, OracleReply, Timestamp, VerificationRecord, FRESHNESS_WINDOW_MS};

verus! {

/// One call that may change the balances.
pub enum Call {
    /// A transfer of `value` from `from` to `to`.
    Transfer { from: AccountId, to: AccountId, value: Balance },
    /// A call of the faucet for `accountid`, at time `now` and with the oracle's `reply`.
    Faucet { accountid: AccountId, now: Timestamp, reply: OracleReply },
}

impl Call {
    /// Whether the call names `account` as the one to take from or to give to.
    pub open spec fn names(self, account: AccountId) -> bool {
        match self {
            Call::Transfer { from, to, .. } => account == from || account == to,
            Call::Faucet { accountid, .. } => account == accountid,
        }
    }
}

/// The contract after one call.
pub open spec fn after(state: DappState, call: Call) -> DappState {
    match call {
        Call::Transfer { from, to, value } => state.transfer(from, to, value),
        Call::Faucet { accountid, now, reply } => state.faucet(accountid, now, reply),
    }
}

/// The contract after a sequence of calls, made in order.
pub open spec fn after_all(state: DappState, calls: Seq<Call>) -> DappState
    decreases calls.len(),
{
    if calls.len() == 0 {
        state
    } else {
        after(after_all(state, calls.drop_last()), calls.last())
    }
}

/// A newly deployed contract holds exactly the initial supply, all of it with the deployer.
pub proof fn lemma_init_conserved(
    caller: AccountId,
    initial_supply: Balance,
    faucet_amount: Balance,
    prosopo_account: AccountId,
    human_threshold: u8,
)
    ensures
        DappState::init(
            caller,
            initial_supply,
            faucet_amount,
            prosopo_account,
            human_threshold,
        ).conserved(),
        DappState::init(
            caller,
            initial_supply,
            faucet_amount,
            prosopo_account,
            human_threshold,
        ).balance_of(caller) == initial_supply,
{
    lemma_sum_empty();
    lemma_sum_insert(Map::empty(), caller, initial_supply as nat);
}

/// No call creates or destroys value, or changes anything but the balances.
pub proof fn lemma_call_conserves(state: DappState, call: Call)
    requires
        state.conserved(),
    ensures
        after(state, call).conserved(),
        after(state, call) == (DappState { balances: after(state, call).balances, ..state }),
{
    match call {
        Call::Transfer { from, to, value } => {
            if value <= state.balance_of(from) {
                lemma_moved_sum(state.balances, from, to, value as nat);
            }
        },
        Call::Faucet { accountid, now, reply } => {
            if state.faucet_amount <= state.balance_of(state.token_holder) {
                lemma_moved_sum(
                    state.balances,
                    state.token_holder,
                    accountid,
                    state.faucet_amount as nat,
                );
            }
        },
    }
}

/// Whatever transfers and faucet calls are made, and in whatever order, the balances add
/// up to the total supply, which stays what it was.
pub proof fn lemma_supply_conserved(state: DappState, calls: Seq<Call>)
    requires
        state.conserved(),
    ensures
        after_all(state, calls).conserved(),
        after_all(state, calls) == (DappState {
            balances: after_all(state, calls).balances,
            ..state
        }),
    decreases calls.len(),
{
    if calls.len() > 0 {
        lemma_supply_conserved(state, calls.drop_last());
        lemma_call_conserves(after_all(state, calls.drop_last()), calls.last());
    }
}

/// After any transfers and faucet calls on a newly deployed contract, the balances add up
/// to the initial supply.
pub proof fn lemma_sum_is_initial_supply(
    caller: AccountId,
    initial_supply: Balance,
    faucet_amount: Balance,
    prosopo_account: AccountId,
    human_threshold: u8,
    calls: Seq<Call>,
)
    ensures
        sum_of(
            after_all(
                DappState::init(
                    caller,
                    initial_supply,
                    faucet_amount,
                    prosopo_account,
                    human_threshold,
                ),
                calls,
            ).balances,
        ) == initial_supply,
{
    let deployed = DappState::init(
        caller,
        initial_supply,
        faucet_amount,
        prosopo_account,
        human_threshold,
    );
    lemma_init_conserved(caller, initial_supply, faucet_amount, prosopo_account, human_threshold);
    lemma_supply_conserved(deployed, calls);
}

/// A transfer of more than the sender holds is refused with `InsufficientBalance` and
/// leaves the contract as it was, the balances of sender and receiver among the rest.
pub proof fn lemma_overdrawn_transfer_changes_nothing(
    state: DappState,
    from: AccountId,
    to: AccountId,
    value: Balance,
)
    requires
        value > state.balance_of(from),
    ensures
        state.transfer_outcome(from, to, value) == Err::<Transfer, Error>(
            Error::InsufficientBalance,
        ),
        state.transfer(from, to, value) == state,
        state.transfer(from, to, value).balance_of(from) == state.balance_of(from),
        state.transfer(from, to, value).balance_of(to) == state.balance_of(to),
{
}

/// A transfer from an account to itself succeeds and changes nothing where the account
/// holds the value, and is refused with `InsufficientBalance` where it does not.
pub proof fn lemma_self_transfer(state: DappState, account: AccountId, value: Balance)
    ensures
        value <= state.balance_of(account) ==> state.transfer_outcome(account, account, value)
            is Ok,
        value > state.balance_of(account) ==> state.transfer_outcome(account, account, value)
            == Err::<Transfer, Error>(Error::InsufficientBalance),
        state.transfer(account, account, value) == state,
        state.transfer(account, account, value).balance_of(account) == state.balance_of(account),
{
}

/// A transfer that succeeds between two different accounts moves exactly `value`: the
/// sender has that much less, the receiver that much more, and no one else is affected.
pub proof fn lemma_transfer_moves_value(
    state: DappState,
    from: AccountId,
    to: AccountId,
    value: Balance,
    other: AccountId,
)
    requires
        value <= state.balance_of(from),
        from != to,
    ensures
        state.transfer(from, to, value).balance_of(from) == state.balance_of(from) - value,
        state.transfer(from, to, value).balance_of(to) == state.balance_of(to) + value,
        other != from && other != to ==> state.transfer(from, to, value).balance_of(other)
            == state.balance_of(other),
{
    lemma_moved_balances(state.balances, from, to, value as nat, other);
}

/// A call changes the balance of no account but the ones it names and, for the faucet,
/// the token holder.
pub proof fn lemma_call_leaves_others(state: DappState, call: Call, account: AccountId)
    requires
        !call.names(account),
        account != state.token_holder,
    ensures
        after(state, call).balance_of(account) == state.balance_of(account),
{
    match call {
        Call::Transfer { from, to, value } => {
            if value <= state.balance_of(from) {
                lemma_moved_balances(state.balances, from, to, value as nat, account);
            }
        },
        Call::Faucet { accountid, now, reply } => {
            if state.faucet_amount <= state.balance_of(state.token_holder) {
                lemma_moved_balances(
                    state.balances,
                    state.token_holder,
                    accountid,
                    state.faucet_amount as nat,
                    account,
                );
            }
        },
    }
}

/// An account other than the deployer that no call has named holds nothing.
pub proof fn lemma_untouched_account_holds_nothing(
    caller: AccountId,
    initial_supply: Balance,
    faucet_amount: Balance,
    prosopo_account: AccountId,
    human_threshold: u8,
    calls: Seq<Call>,
    account: AccountId,
)
    requires
        account != caller,
        forall|i: int| 0 <= i < calls.len() ==> !calls[i].names(account),
    ensures
        after_all(
            DappState::init(caller, initial_supply, faucet_amount, prosopo_account, human_threshold),
            calls,
        ).balance_of(account) == 0,
    decreases calls.len(),
{
    let deployed = DappState::init(
        caller,
        initial_supply,
        faucet_amount,
        prosopo_account,
        human_threshold,
    );
    if calls.len() > 0 {
        lemma_untouched_account_holds_nothing(
            caller,
            initial_supply,
            faucet_amount,
            prosopo_account,
            human_threshold,
            calls.drop_last(),
            account,
        );
        lemma_init_conserved(
            caller,
            initial_supply,
            faucet_amount,
            prosopo_account,
            human_threshold,
        );
        lemma_supply_conserved(deployed, calls.drop_last());
        lemma_call_leaves_others(after_all(deployed, calls.drop_last()), calls.last(), account);
    }
}

/// The verdict is that an account is human exactly when the oracle says so and less than
/// 24 hours have passed since the account was last verified.
pub proof fn lemma_human_iff_verified_and_fresh(
    now: Timestamp,
    record: VerificationRecord,
    is_human_user: bool,
)
    ensures
        verdict_of(
            now,
            OracleReply { last_correct_verification: Ok(record), is_human_user: Ok(is_human_user) },
        ) == Ok::<bool, OracleFailure>(
            is_human_user && now - record.timestamp < FRESHNESS_WINDOW_MS,
        ),
        FRESHNESS_WINDOW_MS == 86_400_000,
{
}

/// Where the account is not human or its verification is no longer fresh, the faucet
/// reports no event and no error, and changes nothing.
pub proof fn lemma_faucet_skips_unverified(
    state: DappState,
    accountid: AccountId,
    now: Timestamp,
    record: VerificationRecord,
    is_human_user: bool,
)
    requires
        !is_human_user || now - record.timestamp >= FRESHNESS_WINDOW_MS,
    ensures
        state.faucet_outcome(
            accountid,
            now,
            OracleReply { last_correct_verification: Ok(record), is_human_user: Ok(is_human_user) },
        ) == Ok::<Option<Transfer>, Error>(None),
        state.faucet(
            accountid,
            now,
            OracleReply { last_correct_verification: Ok(record), is_human_user: Ok(is_human_user) },
        ) == state,
{
}

/// Where the account is human but the token holder holds less than the faucet amount, the
/// faucet reports `InsufficientBalance` and changes nothing.
pub proof fn lemma_faucet_fails_on_empty_reserve(
    state: DappState,
    accountid: AccountId,
    now: Timestamp,
    reply: OracleReply,
)
    requires
        verdict_of(now, reply) == Ok::<bool, OracleFailure>(true),
        state.faucet_amount > state.balance_of(state.token_holder),
    ensures
        state.faucet_outcome(accountid, now, reply) == Err::<Option<Transfer>, Error>(
            Error::InsufficientBalance,
        ),
        state.faucet(accountid, now, reply) == state,
{
}

/// Where an answer of the oracle is missing there is no verdict, and the faucet reports the
/// failure and changes nothing.
pub proof fn lemma_oracle_failure_aborts(
    state: DappState,
    accountid: AccountId,
    now: Timestamp,
    reply: OracleReply,
)
    requires
        reply.last_correct_verification is Err || reply.is_human_user is Err,
    ensures
        verdict_of(now, reply) is Err,
        state.faucet_outcome(accountid, now, reply) matches Err(Error::OracleFailure(_)),
        state.faucet(accountid, now, reply) == state,
{
}

} // verus!
