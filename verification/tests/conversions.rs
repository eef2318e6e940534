use session_relay::units::{convert_deposit, near_gas_to_evm_gas};

#[test]
fn value_split_exact_values() {
    assert_eq!(convert_deposit(0), (0, 0));
    assert_eq!(convert_deposit(1), (0, 1));
    assert_eq!(convert_deposit(999_999), (0, 999_999));
    assert_eq!(convert_deposit(1_000_000), (1, 0));
    assert_eq!(convert_deposit(2_500_000), (2, 500_000));
    assert_eq!(convert_deposit(u128::MAX), (u128::MAX / 1_000_000, (u128::MAX % 1_000_000) as u32));
}

#[test]
fn value_split_round_trip() {
    let samples: Vec<u128> = vec![0, 1, 7, 999_999, 1_000_000, 1_000_001, 123_456_789_012, u128::MAX];
    for v in samples {
        let (large, rem) = convert_deposit(v);
        assert!(rem < 1_000_000);
        assert_eq!(large * 1_000_000 + rem as u128, v);
    }
}

#[test]
fn gas_conversion_rounds_up() {
    assert_eq!(near_gas_to_evm_gas(0), 0);
    assert_eq!(near_gas_to_evm_gas(1), 1);
    assert_eq!(near_gas_to_evm_gas(99_999_999), 1);
    assert_eq!(near_gas_to_evm_gas(100_000_000), 1);
    assert_eq!(near_gas_to_evm_gas(100_000_001), 2);
    assert_eq!(near_gas_to_evm_gas(5_000_000_000_000), 50_000);
    assert_eq!(near_gas_to_evm_gas(30_000_000_000_000), 300_000);
}

#[test]
fn gas_conversion_never_under_budgets() {
    let samples: Vec<u64> = vec![0, 1, 99, 100_000_000, 100_000_001, 5_000_000_000_000, u64::MAX];
    for g in samples {
        let converted = near_gas_to_evm_gas(g);
        assert!((converted as u128) * 100_000_000u128 >= g as u128);
        if g % 100_000_000 == 0 {
            assert_eq!((converted as u128) * 100_000_000u128, g as u128);
        }
    }
}

#[test]
fn gas_conversion_monotonic_samples() {
    let samples: Vec<u64> = vec![0, 1, 50_000_000, 100_000_000, 100_000_001, 1_000_000_000_000];
    for w in samples.windows(2) {
        assert!(near_gas_to_evm_gas(w[0]) <= near_gas_to_evm_gas(w[1]));
    }
}
