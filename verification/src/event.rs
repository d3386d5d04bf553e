//! What the contract makes known of what it did.

use vstd::prelude::*;
use crate::account::AccountId;
use crate::balances::Balance;

verus! {

/// Event emitted when a token transfer occurs.
///
/// The operations of the contract hand the event back to their caller, who emits it.
/// `from` is `None` where the tokens were minted.
#[derive(Clone, Copy, Debug, PartialEq, Eq)]
pub struct Transfer {
    pub from: Option<AccountId>,
    pub to: Option<AccountId>,
    pub value: Balance,
}

} // verus!
