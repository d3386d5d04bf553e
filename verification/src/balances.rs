//! The mathematics of a table of balances: what an account holds, what all accounts hold
//! together, and how both change when an entry is written.

use vstd::prelude::*;
use crate::account::AccountId;

verus! {

/// A quantity of token units.
pub type Balance = u128;

/// A table of balances. An account without an entry holds nothing.
pub type Balances = Map<AccountId, nat>;

/// What `account` holds in `m`: its entry, or zero where it has none.
pub open spec fn balance_in(m: Balances, account: AccountId) -> nat {
    if m.contains_key(account) {
        m[account]
    } else {
        0
    }
}

/// What all accounts of a finite table hold together.
pub open spec fn sum_of(m: Balances) -> nat
    decreases m.dom().len(),
    when m.dom().finite()
{
    if m.dom().len() == 0 {
        0
    } else {
        let account = m.dom().choose();
        m[account] + sum_of(m.remove(account))
    }
}

/// The empty table holds nothing.
pub proof fn lemma_sum_empty()
    ensures
        sum_of(Map::<AccountId, nat>::empty()) == 0,
{
    assert(Map::<AccountId, nat>::empty().dom() =~= Set::<AccountId>::empty());
}

/// The sum may be taken with any one entry first.
pub proof fn lemma_sum_remove(m: Balances, account: AccountId)
    requires
        m.dom().finite(),
        m.contains_key(account),
    ensures
        sum_of(m) == m[account] + sum_of(m.remove(account)),
    decreases m.dom().len(),
{
    let first = m.dom().choose();
    if first != account {
        let rest = m.remove(first);
        lemma_sum_remove(rest, account);
        lemma_sum_remove(m.remove(account), first);
        assert(m.remove(first).remove(account) =~= m.remove(account).remove(first));
    }
}

/// Writing an entry replaces what the account held before in the sum.
pub proof fn lemma_sum_insert(m: Balances, account: AccountId, balance: nat)
    requires
        m.dom().finite(),
    ensures
        sum_of(m.insert(account, balance)) == sum_of(m) - balance_in(m, account) + balance,
{
    let after = m.insert(account, balance);
    lemma_sum_remove(after, account);
    if m.contains_key(account) {
        lemma_sum_remove(m, account);
        assert(after.remove(account) =~= m.remove(account));
    } else {
        assert(after.remove(account) =~= m);
    }
}

/// No account holds more than all accounts together.
pub proof fn lemma_balance_le_sum(m: Balances, account: AccountId)
    requires
        m.dom().finite(),
    ensures
        balance_in(m, account) <= sum_of(m),
{
    if m.contains_key(account) {
        lemma_sum_remove(m, account);
    }
}

/// Two different accounts together hold no more than all accounts together.
pub proof fn lemma_two_balances_le_sum(m: Balances, a: AccountId, b: AccountId)
    requires
        m.dom().finite(),
        a != b,
    ensures
        balance_in(m, a) + balance_in(m, b) <= sum_of(m),
{
    if m.contains_key(a) {
        lemma_sum_remove(m, a);
        lemma_balance_le_sum(m.remove(a), b);
    } else {
        lemma_balance_le_sum(m, b);
    }
}

/// The table after `value` has moved from `from` to `to`. Moving value from an account to
/// itself changes nothing.
pub open spec fn moved(m: Balances, from: AccountId, to: AccountId, value: nat) -> Balances
    recommends
        value <= balance_in(m, from),
{
    if from == to {
        m
    } else {
        m.insert(from, (balance_in(m, from) - value) as nat).insert(to, balance_in(m, to) + value)
    }
}

/// Moving value takes it from one account, gives it to the other and leaves the rest alone.
pub proof fn lemma_moved_balances(
    m: Balances,
    from: AccountId,
    to: AccountId,
    value: nat,
    other: AccountId,
)
    requires
        value <= balance_in(m, from),
    ensures
        from != to ==> balance_in(moved(m, from, to, value), from) == balance_in(m, from) - value,
        from != to ==> balance_in(moved(m, from, to, value), to) == balance_in(m, to) + value,
        from == to ==> balance_in(moved(m, from, to, value), from) == balance_in(m, from),
        other != from && other != to ==> balance_in(moved(m, from, to, value), other) == balance_in(
            m,
            other,
        ),
{
}

/// Moving value neither creates nor destroys any.
pub proof fn lemma_moved_sum(m: Balances, from: AccountId, to: AccountId, value: nat)
    requires
        m.dom().finite(),
        value <= balance_in(m, from),
    ensures
        moved(m, from, to, value).dom().finite(),
        sum_of(moved(m, from, to, value)) == sum_of(m),
{
    if from != to {
        let debited = m.insert(from, (balance_in(m, from) - value) as nat);
        lemma_sum_insert(m, from, (balance_in(m, from) - value) as nat);
        lemma_sum_insert(debited, to, balance_in(m, to) + value);
        lemma_balance_le_sum(m, from);
    }
}

} // verus!
