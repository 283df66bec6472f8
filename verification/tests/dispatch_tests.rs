use signal_relay::tx::{Config, PendingTransaction};
use signal_relay::u256::Uint256;
use signal_relay::dedup::DedupCache;
use signal_relay::dispatch::{first_step, next_step, process_transaction, CallStep, Outcome};

fn addr(b: u8) -> Vec<u8> {
    vec![b; 20]
}

fn test_config() -> Config {
    Config {
        pool1: addr(0x11),
        pool2: addr(0x22),
        min_value: Uint256::from_u64(5),
        selectors: vec![vec![0xa9, 0x05, 0x9c, 0xbb]],
        royalty_threshold: Uint256::from_u64(1_000_000_000_000_000_000),
        default_bps: 10,
        large_bps: 7,
    }
}

fn qualifying_tx() -> PendingTransaction {
    PendingTransaction {
        to: Some(addr(0x11)),
        from: Some(addr(0x44)),
        input: vec![0xa9, 0x05, 0x9c, 0xbb, 0x01, 0x02, 0x03, 0x04, 0x05, 0x06],
        value: Uint256::from_u64(10),
        hash: vec![0xab; 32],
        gas: None,
        gas_price: None,
        max_fee_per_gas: None,
        max_priority_fee_per_gas: None,
    }
}

#[test]
fn novel_signal_dispatches_default_tier_then_both_calls() {
    let cfg = test_config();
    let mut cache = DedupCache::new();
    let outcome = process_transaction(&qualifying_tx(), &cfg, &mut cache);
    let (signal, bps) = match outcome {
        Outcome::Dispatch { signal, royalty_bps } => (signal, royalty_bps),
        _ => panic!("expected a dispatch"),
    };
    assert_eq!(bps, 10);

    let step = first_step(Outcome::Dispatch { signal: signal.clone(), royalty_bps: bps });
    let cascade_signal = match &step {
        CallStep::EmitCascade { signal: s, royalty_bps: b } => {
            assert_eq!(*b, 10);
            s.clone()
        },
        _ => panic!("expected emitCascade first"),
    };
    assert_eq!(cascade_signal, signal);

    let step = next_step(step, true);
    match &step {
        CallStep::ClaimYield { signal: s } => assert_eq!(*s, signal),
        _ => panic!("expected claimYield after a successful cascade"),
    }
    assert!(matches!(next_step(step, true), CallStep::Done));
}

#[test]
fn replayed_transaction_is_rejected_at_dedup() {
    let cfg = test_config();
    let mut cache = DedupCache::new();
    assert!(matches!(
        process_transaction(&qualifying_tx(), &cfg, &mut cache),
        Outcome::Dispatch { .. }
    ));
    assert!(matches!(
        process_transaction(&qualifying_tx(), &cfg, &mut cache),
        Outcome::Duplicate
    ));
}

#[test]
fn foreign_destination_is_filtered_out() {
    let cfg = test_config();
    let mut cache = DedupCache::new();
    let mut tx = qualifying_tx();
    tx.to = Some(addr(0x33));
    assert!(matches!(
        process_transaction(&tx, &cfg, &mut cache),
        Outcome::FilteredOut
    ));
    assert!(matches!(
        process_transaction(&qualifying_tx(), &cfg, &mut cache),
        Outcome::Dispatch { .. }
    ));
}

#[test]
fn low_value_is_filtered_out_even_with_matching_selector() {
    let cfg = test_config();
    let mut cache = DedupCache::new();
    let mut tx = qualifying_tx();
    tx.value = Uint256::from_u64(0);
    assert!(matches!(
        process_transaction(&tx, &cfg, &mut cache),
        Outcome::FilteredOut
    ));
}

#[test]
fn large_value_dispatches_large_tier() {
    let cfg = test_config();
    let mut cache = DedupCache::new();
    let mut tx = qualifying_tx();
    tx.value = Uint256::from_u64(5_000_000_000_000_000_000);
    match process_transaction(&tx, &cfg, &mut cache) {
        Outcome::Dispatch { royalty_bps, .. } => assert_eq!(royalty_bps, 7),
        _ => panic!("expected a dispatch"),
    }
}

#[test]
fn failed_cascade_skips_claim_and_signal_stays_seen() {
    let cfg = test_config();
    let mut cache = DedupCache::new();
    let outcome = process_transaction(&qualifying_tx(), &cfg, &mut cache);
    let step = first_step(outcome);
    assert!(matches!(&step, CallStep::EmitCascade { .. }));
    // The submission fails: the sequence ends without a claim ...
    assert!(matches!(next_step(step, false), CallStep::Done));
    // ... and the signal stays marked seen.
    assert!(matches!(
        process_transaction(&qualifying_tx(), &cfg, &mut cache),
        Outcome::Duplicate
    ));
}

#[test]
fn filtered_transaction_leaves_no_dedup_mark() {
    let cfg = test_config();
    let mut cache = DedupCache::new();
    let mut low = qualifying_tx();
    low.value = Uint256::from_u64(1);
    assert!(matches!(
        process_transaction(&low, &cfg, &mut cache),
        Outcome::FilteredOut
    ));
    // The same transaction with a qualifying value is still novel.
    assert!(matches!(
        process_transaction(&qualifying_tx(), &cfg, &mut cache),
        Outcome::Dispatch { .. }
    ));
}
