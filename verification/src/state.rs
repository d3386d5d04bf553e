//! The contract as a mathematical value, and what each of its operations makes of it.

use vstd::prelude::*;
use crate::account::AccountId;
use crate::balances::{balance_in, moved, sum_of, Balance, Balances};
use crate::error::{Error, OracleFailure};
use crate::event::Transfer;
use crate::gate::{verdict_of, OracleReply, Timestamp};

verus! {

/// The contract as a mathematical value.
pub struct DappState {
    /// What each account holds.
    pub balances: Balances,
    /// Total token supply.
    pub total_supply: Balance,
    /// Amount of tokens that the faucet pays out per call.
    pub faucet_amount: Balance,
    /// Token holder who initially receives all tokens, and out of whose balance the faucet
    /// pays.
    pub token_holder: AccountId,
    /// The percentage of correct answers that the oracle is asked to demand of an account.
    pub human_threshold: u8,
    /// The address of the oracle.
    pub prosopo_account: AccountId,
}

impl DappState {
    /// The contract as `caller` deploys it: the whole supply is minted to the caller, who
    /// becomes the token holder.
    pub open spec fn init(
        caller: AccountId,
        initial_supply: Balance,
        faucet_amount: Balance,
        prosopo_account: AccountId,
        human_threshold: u8,
    ) -> DappState {
        DappState {
            balances: Map::empty().insert(caller, initial_supply as nat),
            total_supply: initial_supply,
            faucet_amount,
            token_holder: caller,
            human_threshold,
            prosopo_account,
        }
    }

    /// What `owner` holds: nothing where it has no entry.
    pub open spec fn balance_of(self, owner: AccountId) -> nat {
        balance_in(self.balances, owner)
    }

    /// No value was created or destroyed: the balances add up to the total supply.
    pub open spec fn conserved(self) -> bool {
        &&& self.balances.dom().finite()
        &&& sum_of(self.balances) == self.total_supply
    }

    /// What a transfer of `value` from `from` to `to` reports: the event of the transfer
    /// where `from` holds that much, and `InsufficientBalance` where it does not.
    pub open spec fn transfer_outcome(
        self,
        from: AccountId,
        to: AccountId,
        value: Balance,
    ) -> Result<Transfer, Error> {
        if value <= self.balance_of(from) {
            Ok(Transfer { from: Some(from), to: Some(to), value })
        } else {
            Err(Error::InsufficientBalance)
        }
    }

    /// The contract after a transfer of `value` from `from` to `to` was asked for: the value
    /// has moved where `from` held that much, and nothing has changed where it did not.
    pub open spec fn transfer(self, from: AccountId, to: AccountId, value: Balance) -> DappState {
        if value <= self.balance_of(from) {
            DappState { balances: moved(self.balances, from, to, value as nat), ..self }
        } else {
            self
        }
    }

    /// Whether the faucet pays at time `now` on the oracle's `reply`: the verdict is that the
    /// account is human, and the token holder holds the faucet amount.
    pub open spec fn faucet_pays(self, now: Timestamp, reply: OracleReply) -> bool {
        &&& verdict_of(now, reply) == Ok::<bool, OracleFailure>(true)
        &&& self.faucet_amount <= self.balance_of(self.token_holder)
    }

    /// What the faucet reports when asked to pay `accountid` at time `now` on the oracle's
    /// `reply`: the oracle's failure where an answer is missing, no event where the account
    /// is not human, and else what the transfer of the faucet amount from the token holder
    /// reports.
    pub open spec fn faucet_outcome(
        self,
        accountid: AccountId,
        now: Timestamp,
        reply: OracleReply,
    ) -> Result<Option<Transfer>, Error> {
        match verdict_of(now, reply) {
            Err(failure) => Err(Error::OracleFailure(failure)),
            Ok(false) => Ok(None),
            Ok(true) => match self.transfer_outcome(
                self.token_holder,
                accountid,
                self.faucet_amount,
            ) {
                Ok(event) => Ok(Some(event)),
                Err(error) => Err(error),
            },
        }
    }

    /// The contract after the faucet was asked to pay `accountid` at time `now` on the
    /// oracle's `reply`: the transfer of the faucet amount from the token holder has been
    /// asked for where the verdict is that the account is human, and nothing has changed
    /// otherwise.
    pub open spec fn faucet(
        self,
        accountid: AccountId,
        now: Timestamp,
        reply: OracleReply,
    ) -> DappState {
        if verdict_of(now, reply) == Ok::<bool, OracleFailure>(true) {
            self.transfer(self.token_holder, accountid, self.faucet_amount)
        } else {
            self
        }
    }
}

} // verus!
