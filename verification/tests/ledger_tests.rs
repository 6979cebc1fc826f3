use staked_content::dispatch::DispatchError;
use staked_content::ledger::BalanceLedger;

#[test]
fn fresh_ledger_reads_zero_for_every_account() {
    let ledger = BalanceLedger::new();
    assert_eq!(ledger.free_balance(0), 0);
    assert_eq!(ledger.free_balance(u64::MAX), 0);
    assert_eq!(ledger.reserved_balance(3), 0);
}

#[test]
fn set_balance_adds_and_overwrites_rows() {
    let mut ledger = BalanceLedger::new();
    ledger.set_balance(5, 100, 20);
    assert_eq!(ledger.free_balance(5), 100);
    assert_eq!(ledger.reserved_balance(5), 20);
    ledger.set_balance(5, 7, 0);
    assert_eq!(ledger.free_balance(5), 7);
    assert_eq!(ledger.reserved_balance(5), 0);
}

#[test]
fn reserve_moves_exactly_the_requested_amount() {
    let mut ledger = BalanceLedger::new();
    ledger.set_balance(5, 100, 20);
    assert_eq!(ledger.reserve(5, 30), Ok(()));
    assert_eq!(ledger.free_balance(5), 70);
    assert_eq!(ledger.reserved_balance(5), 50);
}

#[test]
fn reserve_of_the_whole_free_balance_succeeds() {
    let mut ledger = BalanceLedger::new();
    ledger.set_balance(5, 100, 0);
    assert_eq!(ledger.reserve(5, 100), Ok(()));
    assert_eq!(ledger.free_balance(5), 0);
    assert_eq!(ledger.reserved_balance(5), 100);
}

#[test]
fn reserve_beyond_the_free_balance_fails_and_moves_nothing() {
    let mut ledger = BalanceLedger::new();
    ledger.set_balance(5, 100, 0);
    assert_eq!(ledger.reserve(5, 101), Err(DispatchError::InsufficientBalance));
    assert_eq!(ledger.free_balance(5), 100);
    assert_eq!(ledger.reserved_balance(5), 0);
}

#[test]
fn reserve_from_an_unknown_account_fails_for_any_nonzero_amount() {
    let mut ledger = BalanceLedger::new();
    assert_eq!(ledger.reserve(9, 1), Err(DispatchError::InsufficientBalance));
    assert_eq!(ledger.reserve(9, 0), Ok(()));
    assert_eq!(ledger.free_balance(9), 0);
}

#[test]
fn reserve_touches_no_other_account() {
    let mut ledger = BalanceLedger::new();
    ledger.set_balance(1, 50, 0);
    ledger.set_balance(2, 60, 5);
    assert_eq!(ledger.reserve(1, 40), Ok(()));
    assert_eq!(ledger.free_balance(2), 60);
    assert_eq!(ledger.reserved_balance(2), 5);
}

#[test]
fn balances_at_the_type_limit_can_be_reserved() {
    let mut ledger = BalanceLedger::new();
    ledger.set_balance(1, u64::MAX, 0);
    assert_eq!(ledger.reserve(1, u64::MAX), Ok(()));
    assert_eq!(ledger.free_balance(1), 0);
    assert_eq!(ledger.reserved_balance(1), u64::MAX);
}
