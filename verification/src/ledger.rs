//! The balance ledger: who holds how much of a supply that is fixed when the ledger is made,
//! and the one operation that changes it, moving value from one account to another.

use vstd::prelude::*;
use crate::account::AccountId;
use crate::balances::{
    balance_in, lemma_moved_sum, lemma_sum_empty, lemma_sum_insert, lemma_two_balances_le_sum,
    moved, sum_of, Balance, Balances,
};
use crate::error::Error;

verus! {

/// The table that a list of entries stands for. Where an account has several entries, the
/// last one counts.
pub open spec fn table_of(entries: Seq<(AccountId, Balance)>) -> Balances
    decreases entries.len(),
{
    if entries.len() == 0 {
        Map::empty()
    } else {
        table_of(entries.drop_last()).insert(entries.last().0, entries.last().1 as nat)
    }
}

/// No account has two entries.
pub open spec fn distinct_accounts(entries: Seq<(AccountId, Balance)>) -> bool {
    forall|i: int, j: int| 0 <= i < j < entries.len() ==> entries[i].0 != entries[j].0
}

/// A list of entries stands for a finite table.
pub proof fn lemma_table_finite(entries: Seq<(AccountId, Balance)>)
    ensures
        table_of(entries).dom().finite(),
    decreases entries.len(),
{
    if entries.len() > 0 {
        lemma_table_finite(entries.drop_last());
    }
}

/// An account that no entry names has no place in the table.
pub proof fn lemma_table_absent(entries: Seq<(AccountId, Balance)>, account: AccountId)
    requires
        forall|i: int| 0 <= i < entries.len() ==> entries[i].0 != account,
    ensures
        !table_of(entries).contains_key(account),
    decreases entries.len(),
{
    if entries.len() > 0 {
        lemma_table_absent(entries.drop_last(), account);
    }
}

/// Where no account has two entries, the table holds each entry as it is listed.
pub proof fn lemma_table_entry(entries: Seq<(AccountId, Balance)>, i: int)
    requires
        distinct_accounts(entries),
        0 <= i < entries.len(),
    ensures
        table_of(entries).contains_key(entries[i].0),
        table_of(entries)[entries[i].0] == entries[i].1,
    decreases entries.len(),
{
    if i < entries.len() - 1 {
        lemma_table_entry(entries.drop_last(), i);
    }
}

proof fn lemma_table_update(entries: Seq<(AccountId, Balance)>, i: int, balance: Balance)
    requires
        distinct_accounts(entries),
        0 <= i < entries.len(),
    ensures
        distinct_accounts(entries.update(i, (entries[i].0, balance))),
        table_of(entries.update(i, (entries[i].0, balance))) == table_of(entries).insert(
            entries[i].0,
            balance as nat,
        ),
    decreases entries.len(),
{
    let account = entries[i].0;
    let updated = entries.update(i, (account, balance));
    if i < entries.len() - 1 {
        lemma_table_update(entries.drop_last(), i, balance);
        assert(updated.drop_last() =~= entries.drop_last().update(i, (account, balance)));
        assert(table_of(updated) =~= table_of(entries).insert(account, balance as nat));
    } else {
        assert(updated.drop_last() =~= entries.drop_last());
        assert(table_of(updated) =~= table_of(entries).insert(account, balance as nat));
    }
}

/// What the entries of a list hold together, each entry counted.
spec fn listed_sum(entries: Seq<(AccountId, Balance)>) -> nat
    decreases entries.len(),
{
    if entries.len() == 0 {
        0
    } else {
        listed_sum(entries.drop_last()) + entries.last().1 as nat
    }
}

/// Where no account has two entries, the table holds what the entries hold.
proof fn lemma_listed_sum(entries: Seq<(AccountId, Balance)>)
    requires
        distinct_accounts(entries),
    ensures
        sum_of(table_of(entries)) == listed_sum(entries),
    decreases entries.len(),
{
    if entries.len() == 0 {
        lemma_sum_empty();
    } else {
        let before = entries.drop_last();
        lemma_listed_sum(before);
        lemma_table_finite(before);
        lemma_table_absent(before, entries.last().0);
        lemma_sum_insert(table_of(before), entries.last().0, entries.last().1 as nat);
    }
}

proof fn lemma_listed_sum_grows(entries: Seq<(AccountId, Balance)>, n: int)
    requires
        0 <= n <= entries.len(),
    ensures
        listed_sum(entries.take(n)) <= listed_sum(entries),
        n < entries.len() ==> listed_sum(entries.take(n + 1)) == listed_sum(entries.take(n))
            + entries[n].1,
    decreases entries.len(),
{
    if n == entries.len() {
        assert(entries.take(n) =~= entries);
    } else {
        lemma_listed_sum_grows(entries.drop_last(), n);
        assert(entries.drop_last().take(n) =~= entries.take(n));
        assert(entries.take(n + 1).drop_last() =~= entries.take(n));
    }
}

/// Where `account` has its entry, if it has one.
fn position(entries: &Vec<(AccountId, Balance)>, account: &AccountId) -> (found: Option<usize>)
    ensures
        match found {
            Some(i) => i < entries.len() && entries[i as int].0 == *account,
            None => forall|i: int| 0 <= i < entries.len() ==> entries[i].0 != *account,
        },
{
    let mut i: usize = 0;
    while i < entries.len()
        invariant
            i <= entries.len(),
            forall|j: int| 0 <= j < i ==> entries[j].0 != *account,
        decreases entries.len() - i,
    {
        if entries[i].0 == *account {
            return Some(i);
        }
        i += 1;
    }
    None
}

/// Writes `balance` as what `account` holds.
fn write_entry(entries: &mut Vec<(AccountId, Balance)>, account: AccountId, balance: Balance)
    requires
        distinct_accounts(old(entries)@),
    ensures
        distinct_accounts(final(entries)@),
        table_of(final(entries)@) == table_of(old(entries)@).insert(account, balance as nat),
{
    match position(entries, &account) {
        Some(i) => {
            proof {
                lemma_table_update(entries@, i as int, balance);
            }
            entries[i] = (account, balance);
        },
        None => {
            entries.push((account, balance));
            assert(entries@.drop_last() =~= old(entries)@);
        },
    }
}

/// The balances of all accounts, which together make up a supply fixed at creation.
pub struct Ledger {
    entries: Vec<(AccountId, Balance)>,
    total_supply: Balance,
}

impl View for Ledger {
    type V = Balances;

    /// The table of balances.
    closed spec fn view(&self) -> Balances {
        table_of(self.entries@)
    }
}

impl Ledger {
    /// Holds of every ledger: no account has two entries, and the balances add up to the
    /// supply.
    #[verifier::type_invariant]
    pub(crate) open spec fn consistent(self) -> bool {
        &&& self.listed_once()
        &&& self.conserved()
    }

    pub(crate) closed spec fn listed_once(self) -> bool {
        distinct_accounts(self.entries@)
    }

    /// The supply that the ledger was created with.
    pub closed spec fn supply(self) -> Balance {
        self.total_supply
    }

    /// What `account` holds.
    pub open spec fn balance(self, account: AccountId) -> nat {
        balance_in(self@, account)
    }

    /// No value was created or destroyed: the balances add up to the supply.
    pub open spec fn conserved(self) -> bool {
        &&& self@.dom().finite()
        &&& sum_of(self@) == self.supply()
    }

    /// A ledger in which `holder` holds the whole `supply`.
    pub fn new(holder: AccountId, supply: Balance) -> (ledger: Ledger)
        ensures
            ledger@ == Map::<AccountId, nat>::empty().insert(holder, supply as nat),
            ledger.supply() == supply,
            ledger.conserved(),
    {
        let mut entries: Vec<(AccountId, Balance)> = Vec::new();
        write_entry(&mut entries, holder, supply);
        proof {
            lemma_sum_empty();
            lemma_sum_insert(Map::empty(), holder, supply as nat);
            lemma_table_finite(entries@);
        }
        Ledger { entries, total_supply: supply }
    }

    /// The supply that the ledger was created with, which its balances add up to.
    pub fn total_supply(&self) -> (supply: Balance)
        ensures
            supply == self.supply(),
            self.conserved(),
    {
        proof {
            use_type_invariant(self);
        }
        self.total_supply
    }

    /// Returns the balance of `owner`, which is zero for an account without an entry.
    pub fn balance_of(&self, owner: &AccountId) -> (balance: Balance)
        ensures
            balance == self.balance(*owner),
    {
        proof {
            use_type_invariant(self);
        }
        match position(&self.entries, owner) {
            Some(i) => {
                proof {
                    lemma_table_entry(self.entries@, i as int);
                }
                self.entries[i].1
            },
            None => {
                proof {
                    lemma_table_absent(self.entries@, *owner);
                }
                0
            },
        }
    }

    /// Moves `value` from `from` to `to`, or changes nothing where `from` holds less.
    pub fn transfer(&mut self, from: &AccountId, to: &AccountId, value: Balance) -> (result:
        Result<(), Error>)
        ensures
            result is Ok <==> value <= old(self).balance(*from),
            result is Err ==> result == Err::<(), Error>(Error::InsufficientBalance),
            result is Err || *from == *to ==> *final(self) == *old(self),
            result is Ok ==> final(self)@ == moved(old(self)@, *from, *to, value as nat),
            final(self).supply() == old(self).supply(),
            final(self).conserved(),
    {
        proof {
            use_type_invariant(&*self);
        }
        let from_balance = self.balance_of(from);
        if from_balance < value {
            return Err(Error::InsufficientBalance);
        }
        if *from == *to {
            return Ok(());
        }
        let to_balance = self.balance_of(to);
        proof {
            lemma_two_balances_le_sum(self@, *from, *to);
            lemma_moved_sum(self@, *from, *to, value as nat);
            lemma_sum_empty();
        }
        let mut taken = Ledger { entries: Vec::new(), total_supply: 0 };
        std::mem::swap(self, &mut taken);
        let Ledger { mut entries, total_supply } = taken;
        write_entry(&mut entries, *from, from_balance - value);
        write_entry(&mut entries, *to, to_balance + value);
        proof {
            lemma_table_finite(entries@);
        }
        *self = Ledger { entries, total_supply };
        Ok(())
    }

    /// The entries of the ledger: one for each account that has one, in no particular order.
    pub fn entries(&self) -> (entries: Vec<(AccountId, Balance)>)
        ensures
            distinct_accounts(entries@),
            table_of(entries@) == self@,
    {
        proof {
            use_type_invariant(self);
        }
        let mut entries: Vec<(AccountId, Balance)> = Vec::new();
        let mut i: usize = 0;
        while i < self.entries.len()
            invariant
                i <= self.entries.len(),
                entries@ == self.entries@.take(i as int),
            decreases self.entries.len() - i,
        {
            entries.push(self.entries[i]);
            i += 1;
            assert(entries@ =~= self.entries@.take(i as int));
        }
        assert(entries@ =~= self.entries@);
        entries
    }

    /// The ledger of the given supply that `entries` stand for, where they add up to that
    /// supply. Where an account has several entries, the last one counts.
    pub fn from_entries(total_supply: Balance, entries: &Vec<(AccountId, Balance)>) -> (ledger:
        Option<Ledger>)
        ensures
            ledger is Some <==> sum_of(table_of(entries@)) == total_supply,
            ledger matches Some(l) ==> l@ == table_of(entries@) && l.supply() == total_supply,
    {
        let mut table: Vec<(AccountId, Balance)> = Vec::new();
        let mut i: usize = 0;
        while i < entries.len()
            invariant
                i <= entries.len(),
                distinct_accounts(table@),
                table_of(table@) == table_of(entries@.take(i as int)),
            decreases entries.len() - i,
        {
            write_entry(&mut table, entries[i].0, entries[i].1);
            i += 1;
            assert(entries@.take(i as int).drop_last() =~= entries@.take(i - 1));
        }
        assert(entries@.take(i as int) =~= entries@);
        proof {
            lemma_listed_sum(table@);
            lemma_table_finite(table@);
        }
        let mut sum: Balance = 0;
        let mut j: usize = 0;
        while j < table.len()
            invariant
                j <= table.len(),
                sum == listed_sum(table@.take(j as int)),
                sum_of(table_of(entries@)) == listed_sum(table@),
            decreases table.len() - j,
        {
            proof {
                lemma_listed_sum_grows(table@, j as int);
                lemma_listed_sum_grows(table@, j + 1);
            }
            match sum.checked_add(table[j].1) {
                Some(more) => {
                    sum = more;
                },
                None => {
                    return None;
                },
            }
            j += 1;
        }
        assert(table@.take(j as int) =~= table@);
        if sum == total_supply {
            Some(Ledger { entries: table, total_supply })
        } else {
            None
        }
    }
}

} // verus!
