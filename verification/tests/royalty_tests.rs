use signal_relay::tx::Config;
use signal_relay::u256::Uint256;
use signal_relay::royalty::royalty_bps;

fn test_config() -> Config {
    Config {
        pool1: vec![0x11; 20],
        pool2: vec![0x22; 20],
        min_value: Uint256::from_u64(5),
        selectors: vec![vec![0xa9, 0x05, 0x9c, 0xbb]],
        royalty_threshold: Uint256::from_u64(1_000_000_000_000_000_000),
        default_bps: 10,
        large_bps: 7,
    }
}

#[test]
fn value_exactly_at_threshold_is_default_tier() {
    let cfg = test_config();
    let v = Uint256::from_u64(1_000_000_000_000_000_000);
    assert_eq!(royalty_bps(&v, &cfg), 10);
}

#[test]
fn value_one_above_threshold_is_large_tier() {
    let cfg = test_config();
    let v = Uint256::from_u64(1_000_000_000_000_000_001);
    assert_eq!(royalty_bps(&v, &cfg), 7);
}

#[test]
fn value_far_above_threshold_is_large_tier() {
    let cfg = test_config();
    let v = Uint256::from_u64(5_000_000_000_000_000_000);
    assert_eq!(royalty_bps(&v, &cfg), 7);
}

#[test]
fn value_below_threshold_is_default_tier() {
    let cfg = test_config();
    let v = Uint256::from_u64(10);
    assert_eq!(royalty_bps(&v, &cfg), 10);
}

#[test]
fn high_limbs_decide_the_comparison() {
    let cfg = test_config();
    let v = Uint256 { limb0: 0, limb1: 1, limb2: 0, limb3: 0 };
    assert_eq!(royalty_bps(&v, &cfg), 7);
}
