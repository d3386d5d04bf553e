//! The token contract: a ledger whose whole supply starts with the deployer, direct
//! transfers between accounts, and a faucet that pays a fixed amount out of the deployer's
//! reserve to accounts that the oracle has verified as human.

use vstd::prelude::*;
use crate::account::AccountId;
use crate::balances::Balance;
use crate::error::{Error, OracleFailure};
use crate::event::Transfer;
use crate::gate::{verdict, verdict_of, OracleQuery, OracleReply, Timestamp, FRESHNESS_WINDOW_MS};
use crate::ledger::Ledger;
use crate::state::DappState;

verus! {

/// The token contract.
pub struct Dapp {
    /// Total token supply and the mapping from owner to number of owned token.
    ledger: Ledger,
    /// Amount of tokens to drip feed via the faucet function
    faucet_amount: Balance,
    /// Token holder who initially receives all tokens
    token_holder: AccountId,
    /// The percentage of correct captchas that an Account must have answered correctly
    human_threshold: u8,
    /// The address of the prosopo bot protection contract
    prosopo_account: AccountId,
}

impl View for Dapp {
    type V = DappState;

    /// The contract as a mathematical value.
    closed spec fn view(&self) -> DappState {
        DappState {
            balances: self.ledger@,
            total_supply: self.ledger.supply(),
            faucet_amount: self.faucet_amount,
            token_holder: self.token_holder,
            human_threshold: self.human_threshold,
            prosopo_account: self.prosopo_account,
        }
    }
}

impl Dapp {
    /// Creates a new contract with the specified initial supply, all of which goes to
    /// `caller`, the deployer. Returns the contract and the event of the minting.
    pub fn new(
        caller: AccountId,
        initial_supply: Balance,
        faucet_amount: Balance,
        prosopo_account: AccountId,
        human_threshold: u8,
    ) -> (created: (Dapp, Transfer))
        ensures
            created.0@ == DappState::init(
                caller,
                initial_supply,
                faucet_amount,
                prosopo_account,
                human_threshold,
            ),
            created.0@.conserved(),
            created.0@.balance_of(caller) == initial_supply,
            forall|other: AccountId|
                other != caller ==> #[trigger] created.0@.balance_of(other) == 0,
            created.1 == (Transfer { from: None, to: Some(caller), value: initial_supply }),
    {
        let ledger = Ledger::new(caller, initial_supply);
        let dapp = Dapp {
            ledger,
            faucet_amount,
            token_holder: caller,
            human_threshold,
            prosopo_account,
        };
        (dapp, Transfer { from: None, to: Some(caller), value: initial_supply })
    }

    /// Returns the account balance for the specified `owner`.
    ///
    /// Returns `0` if the account is non-existent.
    pub fn balance_of(&self, owner: AccountId) -> (balance: Balance)
        ensures
            balance == self@.balance_of(owner),
    {
        self.ledger.balance_of(&owner)
    }

    /// Transfers `value` amount of tokens from the account of `caller` to account `to`.
    ///
    /// On success the `Transfer` event to emit is returned.
    ///
    /// # Errors
    ///
    /// Returns `InsufficientBalance` error if there are not enough tokens on
    /// the caller's account balance. Nothing is changed then.
    pub fn transfer(&mut self, caller: AccountId, to: AccountId, value: Balance) -> (result:
        Result<Transfer, Error>)
        ensures
            result is Ok <==> value <= old(self)@.balance_of(caller),
            result == old(self)@.transfer_outcome(caller, to, value),
            final(self)@ == old(self)@.transfer(caller, to, value),
            result is Err || caller == to ==> *final(self) == *old(self),
            result is Ok && caller != to ==> final(self)@.balance_of(caller)
                == old(self)@.balance_of(caller) - value,
            result is Ok && caller != to ==> final(self)@.balance_of(to)
                == old(self)@.balance_of(to) + value,
            forall|other: AccountId|
                other != caller && other != to ==> #[trigger] final(self)@.balance_of(other)
                    == old(self)@.balance_of(other),
            final(self)@.conserved(),
    {
        self.transfer_from_to(&caller, &to, value)
    }

    /// Transfers `value` amount of tokens from account `from` to account `to`.
    ///
    /// On success the `Transfer` event to emit is returned.
    ///
    /// # Errors
    ///
    /// Returns `InsufficientBalance` error if there are not enough tokens on
    /// the balance of `from`. Nothing is changed then.
    pub fn transfer_from_to(&mut self, from: &AccountId, to: &AccountId, value: Balance) -> (result:
        Result<Transfer, Error>)
        ensures
            result is Ok <==> value <= old(self)@.balance_of(*from),
            result == old(self)@.transfer_outcome(*from, *to, value),
            final(self)@ == old(self)@.transfer(*from, *to, value),
            result is Err || *from == *to ==> *final(self) == *old(self),
            result is Ok && *from != *to ==> final(self)@.balance_of(*from)
                == old(self)@.balance_of(*from) - value,
            result is Ok && *from != *to ==> final(self)@.balance_of(*to)
                == old(self)@.balance_of(*to) + value,
            forall|other: AccountId|
                other != *from && other != *to ==> #[trigger] final(self)@.balance_of(other)
                    == old(self)@.balance_of(other),
            final(self)@.conserved(),
    {
        match self.ledger.transfer(from, to, value) {
            Ok(()) => Ok(Transfer { from: Some(*from), to: Some(*to), value }),
            Err(error) => Err(error),
        }
    }

    /// What to ask the oracle in order to learn whether `accountid` is human at `threshold`.
    pub fn is_human_query(&self, accountid: AccountId, threshold: u8) -> (query: OracleQuery)
        ensures
            query == (OracleQuery {
                oracle: self@.prosopo_account,
                account: accountid,
                threshold,
            }),
    {
        OracleQuery { oracle: self.prosopo_account, account: accountid, threshold }
    }

    /// Decides from the oracle's `reply` to `is_human_query` whether the account is human
    /// at time `now`: the oracle says so, and less than 24 hours have passed since it last
    /// verified the account.
    ///
    /// # Errors
    ///
    /// Returns `OracleFailure` if either answer of the oracle is missing. No verdict is made
    /// up in its place.
    pub fn is_human(&self, now: Timestamp, reply: &OracleReply) -> (result: Result<bool, Error>)
        ensures
            result == match verdict_of(now, *reply) {
                Ok(human) => Ok::<bool, Error>(human),
                Err(failure) => Err::<bool, Error>(Error::OracleFailure(failure)),
            },
            result is Err <==> (reply.last_correct_verification is Err
                || reply.is_human_user is Err),
            result == Ok::<bool, Error>(true) <==> ({
                &&& reply.is_human_user == Ok::<bool, OracleFailure>(true)
                &&& reply.last_correct_verification matches Ok(record)
                &&& now - record.timestamp < FRESHNESS_WINDOW_MS
            }),
    {
        match verdict(now, reply) {
            Ok(human) => Ok(human),
            Err(failure) => Err(Error::OracleFailure(failure)),
        }
    }

    /// What to ask the oracle before the faucet can pay `accountid`.
    pub fn faucet_query(&self, accountid: AccountId) -> (query: OracleQuery)
        ensures
            query == (OracleQuery {
                oracle: self@.prosopo_account,
                account: accountid,
                threshold: self@.human_threshold,
            }),
    {
        self.is_human_query(accountid, self.human_threshold)
    }

    /// Faucet function for sending tokens to humans: pays the faucet amount out of the token
    /// holder's balance to `accountid` where the oracle's `reply` to `faucet_query` makes
    /// the account human at time `now`.
    ///
    /// Returns the `Transfer` event to emit where tokens were sent, and `None` where the
    /// account is not human, which is no error.
    ///
    /// # Errors
    ///
    /// Returns `OracleFailure` if either answer of the oracle is missing, and
    /// `InsufficientBalance` if the account is human but the token holder has less than the
    /// faucet amount left. Nothing is changed in either case.
    pub fn faucet(&mut self, accountid: AccountId, now: Timestamp, reply: &OracleReply) -> (result:
        Result<Option<Transfer>, Error>)
        ensures
            result matches Ok(Some(_)) <==> old(self)@.faucet_pays(now, *reply),
            result == old(self)@.faucet_outcome(accountid, now, *reply),
            final(self)@ == old(self)@.faucet(accountid, now, *reply),
            !old(self)@.faucet_pays(now, *reply) ==> *final(self) == *old(self),
            old(self)@.faucet_pays(now, *reply) ==> final(self)@ == old(self)@.transfer(
                old(self)@.token_holder,
                accountid,
                old(self)@.faucet_amount,
            ),
            final(self)@.conserved(),
    {
        proof {
            use_type_invariant(&self.ledger);
        }
        match self.is_human(now, reply) {
            Err(error) => Err(error),
            Ok(false) => Ok(None),
            Ok(true) => {
                let token_holder = self.token_holder;
                match self.transfer_from_to(&token_holder, &accountid, self.faucet_amount) {
                    Ok(event) => Ok(Some(event)),
                    Err(error) => Err(error),
                }
            },
        }
    }

    /// Puts a contract together from its ledger and its settings, as they were read back
    /// from where the contract is kept.
    pub fn from_parts(
        ledger: Ledger,
        faucet_amount: Balance,
        token_holder: AccountId,
        human_threshold: u8,
        prosopo_account: AccountId,
    ) -> (dapp: Dapp)
        ensures
            dapp@ == (DappState {
                balances: ledger@,
                total_supply: ledger.supply(),
                faucet_amount,
                token_holder,
                human_threshold,
                prosopo_account,
            }),
            dapp@.conserved(),
    {
        proof {
            use_type_invariant(&ledger);
        }
        Dapp { ledger, faucet_amount, token_holder, human_threshold, prosopo_account }
    }

    /// The ledger of the contract.
    pub fn ledger(&self) -> (ledger: &Ledger)
        ensures
            ledger@ == self@.balances,
            ledger.supply() == self@.total_supply,
    {
        &self.ledger
    }

    /// Total token supply, which the balances add up to.
    pub fn total_supply(&self) -> (supply: Balance)
        ensures
            supply == self@.total_supply,
            self@.conserved(),
    {
        self.ledger.total_supply()
    }

    /// Amount of tokens that the faucet pays out per call.
    pub fn faucet_amount(&self) -> (amount: Balance)
        ensures
            amount == self@.faucet_amount,
    {
        self.faucet_amount
    }

    /// Token holder who initially received all tokens, and out of whose balance the faucet
    /// pays.
    pub fn token_holder(&self) -> (holder: AccountId)
        ensures
            holder == self@.token_holder,
    {
        self.token_holder
    }

    /// The percentage of correct answers that the oracle is asked to demand of an account.
    pub fn human_threshold(&self) -> (threshold: u8)
        ensures
            threshold == self@.human_threshold,
    {
        self.human_threshold
    }

    /// The address of the oracle.
    pub fn prosopo_account(&self) -> (oracle: AccountId)
        ensures
            oracle == self@.prosopo_account,
    {
        self.prosopo_account
    }
}

} // verus!
