use dapp::{AccountId, Error, Ledger};

fn account(byte: u8) -> AccountId {
    AccountId::from([byte; 32])
}

fn sum(ledger: &Ledger) -> u128 {
    ledger.entries().iter().map(|entry| entry.1).sum()
}

#[test]
fn new_ledger_holds_the_supply_with_its_holder() {
    let ledger = Ledger::new(account(1), 1000);
    assert_eq!(ledger.total_supply(), 1000);
    assert_eq!(ledger.balance_of(&account(1)), 1000);
    assert_eq!(ledger.balance_of(&account(2)), 0);
    assert_eq!(ledger.entries(), vec![(account(1), 1000)]);
}

#[test]
fn ledger_transfer_moves_exactly_the_value() {
    let mut ledger = Ledger::new(account(1), 1000);
    assert_eq!(ledger.transfer(&account(1), &account(2), 250), Ok(()));
    assert_eq!(ledger.balance_of(&account(1)), 750);
    assert_eq!(ledger.balance_of(&account(2)), 250);
    assert_eq!(ledger.transfer(&account(2), &account(3), 50), Ok(()));
    assert_eq!(ledger.balance_of(&account(1)), 750);
    assert_eq!(ledger.balance_of(&account(2)), 200);
    assert_eq!(ledger.balance_of(&account(3)), 50);
    assert_eq!(ledger.total_supply(), 1000);
    assert_eq!(sum(&ledger), 1000);
}

#[test]
fn ledger_transfer_of_too_much_changes_nothing() {
    let mut ledger = Ledger::new(account(1), 1000);
    assert_eq!(ledger.transfer(&account(1), &account(2), 400), Ok(()));
    let before = ledger.entries();
    assert_eq!(
        ledger.transfer(&account(2), &account(1), 401),
        Err(Error::InsufficientBalance)
    );
    assert_eq!(
        ledger.transfer(&account(3), &account(1), 1),
        Err(Error::InsufficientBalance)
    );
    assert_eq!(ledger.entries(), before);
}

#[test]
fn ledger_transfer_of_the_whole_balance_leaves_zero() {
    let mut ledger = Ledger::new(account(1), 1000);
    assert_eq!(ledger.transfer(&account(1), &account(2), 1000), Ok(()));
    assert_eq!(ledger.balance_of(&account(1)), 0);
    assert_eq!(ledger.balance_of(&account(2)), 1000);
    assert_eq!(
        ledger.transfer(&account(1), &account(2), 1),
        Err(Error::InsufficientBalance)
    );
}

#[test]
fn ledger_transfer_of_nothing_succeeds() {
    let mut ledger = Ledger::new(account(1), 1000);
    assert_eq!(ledger.transfer(&account(3), &account(2), 0), Ok(()));
    assert_eq!(ledger.balance_of(&account(3)), 0);
    assert_eq!(ledger.balance_of(&account(2)), 0);
    assert_eq!(sum(&ledger), 1000);
}

#[test]
fn ledger_transfer_to_oneself_is_a_no_op() {
    let mut ledger = Ledger::new(account(1), 1000);
    let before = ledger.entries();
    assert_eq!(ledger.transfer(&account(1), &account(1), 1000), Ok(()));
    assert_eq!(ledger.transfer(&account(1), &account(1), 1), Ok(()));
    assert_eq!(ledger.entries(), before);
    assert_eq!(
        ledger.transfer(&account(1), &account(1), 1001),
        Err(Error::InsufficientBalance)
    );
    assert_eq!(ledger.entries(), before);
}

#[test]
fn ledger_holds_the_largest_supply() {
    let mut ledger = Ledger::new(account(1), u128::MAX);
    assert_eq!(ledger.transfer(&account(1), &account(2), u128::MAX), Ok(()));
    assert_eq!(ledger.balance_of(&account(2)), u128::MAX);
    assert_eq!(ledger.transfer(&account(2), &account(1), u128::MAX - 1), Ok(()));
    assert_eq!(ledger.balance_of(&account(1)), u128::MAX - 1);
    assert_eq!(ledger.balance_of(&account(2)), 1);
}

#[test]
fn ledger_comes_back_from_its_entries() {
    let mut ledger = Ledger::new(account(1), 1000);
    assert_eq!(ledger.transfer(&account(1), &account(2), 250), Ok(()));
    assert_eq!(ledger.transfer(&account(1), &account(3), 10), Ok(()));
    let restored = Ledger::from_entries(ledger.total_supply(), &ledger.entries())
        .expect("the entries of a ledger add up to its supply");
    assert_eq!(restored.total_supply(), 1000);
    for byte in 0..5 {
        assert_eq!(
            restored.balance_of(&account(byte)),
            ledger.balance_of(&account(byte))
        );
    }
}

#[test]
fn ledger_from_entries_wants_them_to_add_up() {
    let entries = vec![(account(1), 600), (account(2), 400)];
    assert!(Ledger::from_entries(1000, &entries).is_some());
    assert!(Ledger::from_entries(999, &entries).is_none());
    assert!(Ledger::from_entries(1001, &entries).is_none());
    assert!(Ledger::from_entries(0, &Vec::new()).is_some());
    assert!(Ledger::from_entries(1, &Vec::new()).is_none());
}

#[test]
fn ledger_from_entries_counts_the_last_entry_of_an_account() {
    let entries = vec![(account(1), 600), (account(2), 400), (account(1), 100)];
    assert!(Ledger::from_entries(1000, &entries).is_none());
    let ledger = Ledger::from_entries(500, &entries).expect("400 and 100 make 500");
    assert_eq!(ledger.balance_of(&account(1)), 100);
    assert_eq!(ledger.balance_of(&account(2)), 400);
}

#[test]
fn ledger_from_entries_refuses_more_than_fits() {
    let entries = vec![(account(1), u128::MAX), (account(2), 1)];
    assert!(Ledger::from_entries(0, &entries).is_none());
    assert!(Ledger::from_entries(u128::MAX, &entries).is_none());
    let fits = vec![(account(1), u128::MAX - 1), (account(2), 1)];
    assert!(Ledger::from_entries(u128::MAX, &fits).is_some());
}
