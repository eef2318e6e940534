use session_relay::auth::BOOTSTRAP_AMOUNT;
use session_relay::contract::Contract;
use session_relay::errors::Error;

fn fresh() -> Contract {
    Contract::new("oracle.near".to_string(), "mpc.near".to_string())
}

fn oracle() -> String {
    "oracle.near".to_string()
}

#[test]
fn activate_account_registers_bundle_and_funds_wallet() {
    let mut c = fresh();
    let t = c
        .activate_account(&oracle(), vec![1, 2, 3], "wallet.near".to_string(), "p1".to_string())
        .unwrap();
    assert_eq!(t.receiver_id, "wallet.near");
    assert_eq!(t.amount, BOOTSTRAP_AMOUNT);
    let bundle = c.get_bundle(&"p1".to_string()).unwrap();
    assert_eq!(bundle.mpc_key, vec![1, 2, 3]);
    assert_eq!(bundle.eth_address, "wallet.near");
    assert_eq!(bundle.path, "p1");
}

#[test]
fn activate_account_rejects_non_oracle() {
    let mut c = fresh();
    let r = c.activate_account(
        &"mallory.near".to_string(),
        vec![1],
        "wallet.near".to_string(),
        "p1".to_string(),
    );
    assert!(matches!(r, Err(Error::Unauthorized)));
    assert!(c.get_bundle(&"p1".to_string()).is_none());
}

#[test]
fn duplicate_path_registration_fails_and_keeps_original() {
    let mut c = fresh();
    c.activate_account(&oracle(), vec![1], "first.near".to_string(), "p1".to_string()).unwrap();
    let r = c.activate_account(&oracle(), vec![2], "second.near".to_string(), "p1".to_string());
    assert!(matches!(r, Err(Error::AlreadyExists)));
    let bundle = c.get_bundle(&"p1".to_string()).unwrap();
    assert_eq!(bundle.mpc_key, vec![1]);
    assert_eq!(bundle.eth_address, "first.near");
}

#[test]
fn add_session_key_rejects_non_oracle() {
    let mut c = fresh();
    let r = c.add_session_key(&"mallory.near".to_string(), vec![9; 33], "p1".to_string(), "a".to_string());
    assert!(matches!(r, Err(Error::Unauthorized)));
    assert!(c.get_key_usage(&vec![9; 33]).is_none());
}

#[test]
fn add_session_key_installs_fresh_record() {
    let mut c = fresh();
    c.add_session_key(&oracle(), vec![7; 33], "p1".to_string(), "a".to_string()).unwrap();
    let usage = c.get_key_usage(&vec![7; 33]).unwrap();
    assert_eq!(usage.path, "p1");
    assert_eq!(usage.app_id, "a");
    assert_eq!(usage.usage_stats.total_interactions, 0);
    assert_eq!(usage.usage_stats.gas_used, 0);
    assert_eq!(usage.usage_stats.deposit_used, 0);
    assert!(usage.usage_stats.interactions_per_day.get(&0).is_none());
    assert!(usage.usage_stats.methods_called.get(&"increment".to_string()).is_none());
    assert!(usage.usage_stats.contracts_called.get(&"counter.testnet".to_string()).is_none());
}

#[test]
fn key_active_for_another_slot_is_refused() {
    let mut c = fresh();
    let k = vec![5; 33];
    c.add_session_key(&oracle(), k.clone(), "p1".to_string(), "a".to_string()).unwrap();
    let r = c.add_session_key(&oracle(), k.clone(), "p1".to_string(), "b".to_string());
    assert!(matches!(r, Err(Error::AlreadyExists)));
    let r2 = c.add_session_key(&oracle(), k.clone(), "p2".to_string(), "a".to_string());
    assert!(matches!(r2, Err(Error::AlreadyExists)));
    // The key still binds its original slot.
    let usage = c.get_key_usage(&k).unwrap();
    assert_eq!(usage.path, "p1");
    assert_eq!(usage.app_id, "a");
}

#[test]
fn re_registering_a_slots_own_key_resets_its_record() {
    let mut c = fresh();
    let k = vec![6; 33];
    c.add_session_key(&oracle(), k.clone(), "p1".to_string(), "a".to_string()).unwrap();
    c.add_session_key(&oracle(), k.clone(), "p1".to_string(), "a".to_string()).unwrap();
    let usage = c.get_key_usage(&k).unwrap();
    assert_eq!(usage.path, "p1");
    assert_eq!(usage.app_id, "a");
    assert_eq!(usage.usage_stats.total_interactions, 0);
}

#[test]
fn rotation_atomically_invalidates_old_key() {
    let mut c = fresh();
    let k1 = vec![1; 33];
    let k2 = vec![2; 33];
    c.add_session_key(&oracle(), k1.clone(), "p1".to_string(), "a".to_string()).unwrap();
    assert!(c.get_key_usage(&k1).is_some());
    c.add_session_key(&oracle(), k2.clone(), "p1".to_string(), "a".to_string()).unwrap();
    assert!(c.get_key_usage(&k1).is_none(), "rotated-out key must lose its record");
    let usage = c.get_key_usage(&k2).unwrap();
    assert_eq!(usage.path, "p1");
    assert_eq!(usage.app_id, "a");
    assert_eq!(usage.usage_stats.total_interactions, 0);
}

#[test]
fn rotation_is_scoped_to_one_slot() {
    let mut c = fresh();
    let k1 = vec![1; 33];
    let k2 = vec![2; 33];
    let k3 = vec![3; 33];
    c.add_session_key(&oracle(), k1.clone(), "p1".to_string(), "a".to_string()).unwrap();
    c.add_session_key(&oracle(), k2.clone(), "p1".to_string(), "b".to_string()).unwrap();
    c.add_session_key(&oracle(), k3.clone(), "p1".to_string(), "a".to_string()).unwrap();
    assert!(c.get_key_usage(&k1).is_none());
    assert!(c.get_key_usage(&k2).is_some(), "other application's key must survive");
    assert!(c.get_key_usage(&k3).is_some());
}
