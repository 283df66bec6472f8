use signal_relay::u256::Uint256;

#[test]
fn zero_and_from_u64_compare() {
    let z = Uint256::zero();
    let five = Uint256::from_u64(5);
    assert!(z.lt(&five));
    assert!(!five.lt(&z));
    assert!(five.gt(&z));
    assert!(!five.lt(&five));
    assert!(!five.gt(&five));
}

#[test]
fn higher_limbs_outweigh_lower_ones() {
    let low_heavy = Uint256 { limb0: u64::MAX, limb1: u64::MAX, limb2: u64::MAX, limb3: 0 };
    let high_light = Uint256 { limb0: 0, limb1: 0, limb2: 0, limb3: 1 };
    assert!(low_heavy.lt(&high_light));
    assert!(high_light.gt(&low_heavy));
}

#[test]
fn equal_values_are_not_ordered() {
    let a = Uint256 { limb0: 7, limb1: 8, limb2: 9, limb3: 10 };
    let b = Uint256 { limb0: 7, limb1: 8, limb2: 9, limb3: 10 };
    assert_eq!(a, b);
    assert!(!a.lt(&b));
    assert!(!a.gt(&b));
}
