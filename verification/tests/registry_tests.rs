use qemu_helpers::registry::CountersRegistry;

#[test]
fn registry_starts_empty() {
    let registry = CountersRegistry::new();
    assert_eq!(registry.span_count(), 0);
}

#[test]
fn registration_keeps_order_and_lengths() {
    let mut registry = CountersRegistry::new();
    let p0: usize = 0x1000;
    let p1: usize = 0x8000;
    registry.register_counters(p0, p0 + 8);
    registry.register_counters(p1, p1 + 16);
    assert_eq!(registry.span_count(), 2);
    assert_eq!(registry.span_at(0).base, p0);
    assert_eq!(registry.span_at(0).len, 8);
    assert_eq!(registry.span_at(1).base, p1);
    assert_eq!(registry.span_at(1).len, 16);
}

#[test]
fn registration_is_append_only() {
    let mut registry = CountersRegistry::new();
    for i in 0..10usize {
        registry.register_counters(i * 0x100, i * 0x100 + i);
    }
    assert_eq!(registry.span_count(), 10);
    for i in 0..10usize {
        assert_eq!(registry.span_at(i).base, i * 0x100);
        assert_eq!(registry.span_at(i).len, i);
    }
}

#[test]
fn zero_length_span_is_recorded() {
    let mut registry = CountersRegistry::new();
    registry.register_counters(0x4000, 0x4000);
    assert_eq!(registry.span_count(), 1);
    assert_eq!(registry.span_at(0).len, 0);
}

#[test]
fn overlapping_spans_are_not_coalesced() {
    let mut registry = CountersRegistry::new();
    registry.register_counters(0x1000, 0x1020);
    registry.register_counters(0x1000, 0x1020);
    registry.register_counters(0x1010, 0x1030);
    assert_eq!(registry.span_count(), 3);
    assert_eq!(registry.span_at(1).base, 0x1000);
    assert_eq!(registry.span_at(2).base, 0x1010);
    assert_eq!(registry.span_at(2).len, 0x20);
}
