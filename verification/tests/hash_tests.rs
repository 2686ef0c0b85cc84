use qemu_helpers::hash_me;

#[test]
fn hash_exact_values() {
    assert_eq!(hash_me(0), 0);
    assert_eq!(hash_me(1), 0x13_0f26_3125);
    assert_eq!(hash_me(2), 0x26_1e4c_66a7);
    assert_eq!(hash_me(0xdead_beef), 0xb22d_734a_b70d);
}

#[test]
fn hash_is_deterministic() {
    for x in [0u64, 1, 2, 42, 0xdead_beef, u64::MAX] {
        assert_eq!(hash_me(x), hash_me(x));
    }
}

#[test]
fn neighbouring_inputs_differ_in_high_bits() {
    // 0 and 1 hash to values that differ above bit 32.
    assert_ne!(hash_me(0) >> 32, hash_me(1) >> 32);
    assert_ne!(hash_me(1) >> 32, hash_me(2) >> 32);
}
