use soroban_ledger::env::{Env, HostError};
use soroban_ledger::ledger::Ledger;
use soroban_ledger::ledger_info::LedgerInfo;

fn sample_info() -> LedgerInfo {
    LedgerInfo {
        protocol_version: 20,
        sequence_number: 100,
        timestamp: 1_700_000_000,
        network_id: [0; 32],
        base_reserve: 100,
        min_temp_entry_ttl: 16,
        min_persistent_entry_ttl: 4096,
        max_entry_ttl: 0,
    }
}

fn test_ledger() -> Ledger {
    Ledger::new(&Env::new_testing(sample_info()))
}

#[test]
fn max_entry_ttl_scenario() {
    let mut ledger = test_ledger();
    ledger.set_max_entry_ttl(6_311_999);
    assert_eq!(ledger.get().max_entry_ttl, 6_312_000);
}

#[test]
fn max_entry_ttl_adds_current_ledger() {
    let mut ledger = test_ledger();
    for n in [0u32, 1, 15, 4095, u32::MAX - 1] {
        ledger.set_max_entry_ttl(n);
        assert_eq!(ledger.get().max_entry_ttl, n + 1);
    }
}

#[test]
fn max_entry_ttl_saturates() {
    let mut ledger = test_ledger();
    ledger.set_max_entry_ttl(u32::MAX);
    assert_eq!(ledger.get().max_entry_ttl, u32::MAX);
}

#[test]
fn set_then_get_round_trip() {
    let mut ledger = test_ledger();
    let info = LedgerInfo {
        protocol_version: 21,
        sequence_number: 7,
        timestamp: 42,
        network_id: [9; 32],
        base_reserve: 5,
        min_temp_entry_ttl: 1,
        min_persistent_entry_ttl: 2,
        max_entry_ttl: 3,
    };
    ledger.set(info);
    assert_eq!(ledger.get(), info);
}

#[test]
fn reads_are_repeatable() {
    let ledger = test_ledger();
    assert_eq!(ledger.protocol_version(), ledger.protocol_version());
    assert_eq!(ledger.sequence(), ledger.sequence());
    assert_eq!(ledger.timestamp(), ledger.timestamp());
    assert_eq!(ledger.network_id(), ledger.network_id());
    assert_eq!(ledger.max_live_until_ledger(), ledger.max_live_until_ledger());
    assert_eq!(ledger.get(), ledger.get());
}

#[test]
fn reads_report_the_record() {
    let ledger = test_ledger();
    assert_eq!(ledger.protocol_version(), 20);
    assert_eq!(ledger.sequence(), 100);
    assert_eq!(ledger.timestamp(), 1_700_000_000);
    assert_eq!(ledger.network_id(), [0; 32]);
}

#[test]
fn network_id_reads_back() {
    let mut ledger = test_ledger();
    let mut id = [0u8; 32];
    for (i, b) in id.iter_mut().enumerate() {
        *b = i as u8;
    }
    ledger.set_network_id(id);
    assert_eq!(ledger.network_id(), id);
    ledger.set_network_id([0xff; 32]);
    assert_eq!(ledger.network_id(), [0xff; 32]);
}

#[test]
fn set_timestamp_changes_only_timestamp() {
    let mut ledger = test_ledger();
    ledger.set_timestamp(1_800_000_000);
    let expected = LedgerInfo { timestamp: 1_800_000_000, ..sample_info() };
    assert_eq!(ledger.get(), expected);
}

#[test]
fn field_setters_change_one_field() {
    let base = sample_info();
    let mut ledger = test_ledger();
    ledger.set_protocol_version(22);
    assert_eq!(ledger.get(), LedgerInfo { protocol_version: 22, ..base });

    let mut ledger = test_ledger();
    ledger.set_sequence_number(101);
    assert_eq!(ledger.get(), LedgerInfo { sequence_number: 101, ..base });

    let mut ledger = test_ledger();
    ledger.set_base_reserve(50);
    assert_eq!(ledger.get(), LedgerInfo { base_reserve: 50, ..base });

    let mut ledger = test_ledger();
    ledger.set_min_temp_entry_ttl(32);
    assert_eq!(ledger.get(), LedgerInfo { min_temp_entry_ttl: 32, ..base });

    let mut ledger = test_ledger();
    ledger.set_min_persistent_entry_ttl(8192);
    assert_eq!(ledger.get(), LedgerInfo { min_persistent_entry_ttl: 8192, ..base });

    let mut ledger = test_ledger();
    ledger.set_max_entry_ttl(10);
    assert_eq!(ledger.get(), LedgerInfo { max_entry_ttl: 11, ..base });
}

#[test]
fn get_returns_a_copy() {
    let ledger = test_ledger();
    let mut copy = ledger.get();
    copy.sequence_number = 999;
    assert_eq!(ledger.sequence(), 100);
}

#[test]
fn with_mut_applies_the_update() {
    let mut ledger = test_ledger();
    ledger.with_mut(|li| LedgerInfo { sequence_number: li.sequence_number + 1, ..li });
    assert_eq!(ledger.sequence(), 101);
}

#[test]
fn max_live_until_ledger_counts_current_once() {
    let mut ledger = test_ledger();
    ledger.set_max_entry_ttl(6_311_999);
    assert_eq!(ledger.max_live_until_ledger(), 100 + 6_312_000 - 1);
}

#[test]
fn new_ledger_keeps_env() {
    let env = Env::new_testing(sample_info());
    let ledger = Ledger::new(&env);
    assert_eq!(ledger.env().get_ledger_info(), env.get_ledger_info());
    assert!(ledger.env().testing());
}

#[test]
fn host_refuses_changes_outside_tests() {
    let mut env = Env::new(sample_info());
    assert!(!env.testing());
    let other = LedgerInfo { sequence_number: 5, ..sample_info() };
    assert_eq!(env.set_ledger_info(other), Err(HostError::LedgerNotMutable));
    assert_eq!(env.get_ledger_info(), sample_info());
    assert_eq!(
        env.with_mut_ledger_info(|li| LedgerInfo { timestamp: 0, ..li }),
        Err(HostError::LedgerNotMutable)
    );
    assert_eq!(env.get_ledger_info(), sample_info());
}

#[test]
fn host_accepts_changes_in_tests() {
    let mut env = Env::new_testing(sample_info());
    let other = LedgerInfo { sequence_number: 5, ..sample_info() };
    assert_eq!(env.set_ledger_info(other), Ok(()));
    assert_eq!(env.get_ledger_sequence(), 5);
    assert_eq!(env.with_mut_ledger_info(|li| LedgerInfo { timestamp: 3, ..li }), Ok(()));
    assert_eq!(env.get_ledger_timestamp(), 3);
    assert_eq!(env.get_ledger_version(), 20);
    assert_eq!(env.get_ledger_network_id(), [0; 32]);
    assert_eq!(env.get_max_live_until_ledger(), 4);
}
