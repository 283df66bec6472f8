use signal_relay::dedup::DedupCache;

#[test]
fn first_insert_true_second_false() {
    let mut cache = DedupCache::new();
    assert!(cache.insert_if_absent(vec![0xaa; 32]));
    assert!(!cache.insert_if_absent(vec![0xaa; 32]));
}

#[test]
fn repeated_inserts_yield_exactly_one_true() {
    let mut cache = DedupCache::new();
    let mut fresh_count = 0;
    for _ in 0..5 {
        if cache.insert_if_absent(vec![0xbb; 32]) {
            fresh_count += 1;
        }
    }
    assert_eq!(fresh_count, 1);
}

#[test]
fn distinct_digests_are_independent() {
    let mut cache = DedupCache::new();
    assert!(cache.insert_if_absent(vec![0x01; 32]));
    assert!(cache.insert_if_absent(vec![0x02; 32]));
    assert!(!cache.insert_if_absent(vec![0x01; 32]));
    assert!(!cache.insert_if_absent(vec![0x02; 32]));
}

#[test]
fn digests_differing_in_one_byte_are_distinct() {
    let mut cache = DedupCache::new();
    let mut other = vec![0x01; 32];
    other[31] = 0x02;
    assert!(cache.insert_if_absent(vec![0x01; 32]));
    assert!(cache.insert_if_absent(other));
}
