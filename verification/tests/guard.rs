use erc20_ledger::api_error::ApiError;
use erc20_ledger::reentrancy_guard::{Error, REENTRANCYGUARD};

#[test]
fn guard_starts_unlocked() {
    let guard = REENTRANCYGUARD::default();
    assert!(!guard.get_lock());
}

#[test]
fn enter_takes_the_lock() {
    let mut guard = REENTRANCYGUARD::default();
    assert_eq!(guard.enter(), Ok(()));
    assert!(guard.get_lock());
}

#[test]
fn second_enter_without_leave_is_a_reentrant_call() {
    let mut guard = REENTRANCYGUARD::default();
    assert_eq!(guard.enter(), Ok(()));
    assert_eq!(guard.enter(), Err(Error::ReentrantCall));
    assert!(guard.get_lock());
}

#[test]
fn leave_lets_the_next_enter_in() {
    let mut guard = REENTRANCYGUARD::default();
    assert_eq!(guard.enter(), Ok(()));
    guard.leave();
    assert!(!guard.get_lock());
    assert_eq!(guard.enter(), Ok(()));
}

#[test]
fn leave_unlocks_whatever_the_state() {
    let mut guard = REENTRANCYGUARD::at(false);
    guard.leave();
    assert!(!guard.get_lock());
    let mut held = REENTRANCYGUARD::at(true);
    assert_eq!(held.enter(), Err(Error::ReentrantCall));
    held.leave();
    assert!(!held.get_lock());
}

#[test]
fn reentrant_call_has_its_code() {
    assert_eq!(Error::ReentrantCall.code(), 20201);
    assert_eq!(ApiError::from(Error::ReentrantCall), ApiError::User(20201));
}
