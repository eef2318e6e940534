use session_relay::auth::adjust_deposit;
use session_relay::contract::Contract;
use session_relay::errors::Error;

fn fresh() -> Contract {
    Contract::new("oracle.near".to_string(), "mpc.near".to_string())
}

#[test]
fn deposit_credits_balance() {
    let mut c = fresh();
    assert_eq!(c.get_app_balance(&"a".to_string()), 0);
    c.deposit(5, "a".to_string()).unwrap();
    assert_eq!(c.get_app_balance(&"a".to_string()), 5);
    c.deposit(2, "a".to_string()).unwrap();
    assert_eq!(c.get_app_balance(&"a".to_string()), 7);
    assert_eq!(c.get_app_balance(&"b".to_string()), 0);
}

#[test]
fn deposit_overflow_fails_unchanged() {
    let mut c = fresh();
    c.deposit(u128::MAX, "a".to_string()).unwrap();
    let r = c.deposit(1, "a".to_string());
    assert_eq!(r, Err(Error::Overflow));
    assert_eq!(c.get_app_balance(&"a".to_string()), u128::MAX);
}

#[test]
fn debit_subtracts_balance() {
    let mut c = fresh();
    c.deposit(10, "a".to_string()).unwrap();
    c.debit(0, 4, "a".to_string()).unwrap();
    assert_eq!(c.get_app_balance(&"a".to_string()), 6);
}

#[test]
fn debit_merges_attached_value_first() {
    let mut c = fresh();
    c.deposit(1, "a".to_string()).unwrap();
    // Top up and spend in the same call: 1 stored + 5 attached covers 4.
    c.debit(5, 4, "a".to_string()).unwrap();
    assert_eq!(c.get_app_balance(&"a".to_string()), 2);
}

#[test]
fn debit_beyond_merged_balance_fails_unchanged() {
    let mut c = fresh();
    c.deposit(3, "a".to_string()).unwrap();
    let r = c.debit(2, 6, "a".to_string());
    assert_eq!(r, Err(Error::InsufficientBalance));
    assert_eq!(c.get_app_balance(&"a".to_string()), 3);
}

#[test]
fn debit_merge_overflow_fails_unchanged() {
    let mut c = fresh();
    c.deposit(u128::MAX, "a".to_string()).unwrap();
    let r = c.debit(1, 0, "a".to_string());
    assert_eq!(r, Err(Error::Overflow));
    assert_eq!(c.get_app_balance(&"a".to_string()), u128::MAX);
}

#[test]
fn debit_from_empty_app_fails() {
    let mut c = fresh();
    let r = c.debit(0, 1, "ghost".to_string());
    assert_eq!(r, Err(Error::InsufficientBalance));
    assert_eq!(c.get_app_balance(&"ghost".to_string()), 0);
}

#[test]
fn storage_growth_is_charged() {
    // 40 bytes of growth at 3 a byte leaves 130 - 120 = 10.
    assert_eq!(adjust_deposit(130, 100, 140, 3), Ok(10));
}

#[test]
fn storage_growth_beyond_attached_fails() {
    assert_eq!(adjust_deposit(119, 100, 140, 3), Err(Error::InsufficientDeposit));
}

#[test]
fn storage_release_is_refunded() {
    assert_eq!(adjust_deposit(7, 140, 100, 3), Ok(7 + 120));
}
