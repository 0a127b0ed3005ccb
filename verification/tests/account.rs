use block_chat::Account;
use block_chat::AccountError;

#[test]
fn fresh_account() {
    let acct = Account::new(42);
    assert_eq!(acct.id(), 42);
    assert_eq!(acct.held_cents(), 0);
    assert_eq!(acct.staked_cents(), 0);
    assert_eq!(acct.nonce_pool().next(), 0);
    assert!(!acct.nonce_pool().is_marked_used(0));
}

#[test]
fn held_balance_bookkeeping() {
    let mut acct = Account::new(1);
    acct.add_held(100);
    assert_eq!(acct.held_cents(), 100);
    assert_eq!(acct.sub_held(30), Ok(()));
    assert_eq!(acct.held_cents(), 70);
    // a failing debit reports the exact shortfall and changes nothing
    assert_eq!(acct.sub_held(71), Err(AccountError::InsufficientFunds(1)));
    assert_eq!(acct.held_cents(), 70);
    assert_eq!(acct.staked_cents(), 0);
}

#[test]
fn staked_balance_bookkeeping() {
    let mut acct = Account::new(2);
    acct.add_staked(50);
    assert_eq!(acct.staked_cents(), 50);
    assert_eq!(acct.sub_staked(60), Err(AccountError::InsufficientFunds(10)));
    assert_eq!(acct.staked_cents(), 50);
    assert_eq!(acct.sub_staked(50), Ok(()));
    assert_eq!(acct.staked_cents(), 0);
    assert_eq!(acct.held_cents(), 0);
}

#[test]
fn debit_on_empty_account_fails_with_full_amount() {
    let mut acct = Account::new(3);
    assert_eq!(acct.sub_held(5), Err(AccountError::InsufficientFunds(5)));
    assert_eq!(acct.sub_staked(7), Err(AccountError::InsufficientFunds(7)));
    assert_eq!(acct.held_cents(), 0);
    assert_eq!(acct.staked_cents(), 0);
}

#[test]
fn add_then_sub_restores_held() {
    let mut acct = Account::new(4);
    acct.add_held(123);
    let before = acct.held_cents();
    acct.add_held(77);
    assert_eq!(acct.sub_held(77), Ok(()));
    assert_eq!(acct.held_cents(), before);
}

#[test]
fn nonce_pool_through_account() {
    let mut acct = Account::new(5);
    acct.add_held(10);
    acct.nonce_pool_mut().mark_used(0);
    assert!(acct.nonce_pool().is_marked_used(0));
    assert!(!acct.nonce_pool().is_marked_used(1));
    assert_eq!(acct.nonce_pool().next(), 1);
    // touching the pool leaves the rest of the account alone
    assert_eq!(acct.id(), 5);
    assert_eq!(acct.held_cents(), 10);
    assert_eq!(acct.staked_cents(), 0);
}
