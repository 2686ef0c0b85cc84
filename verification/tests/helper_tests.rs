use std::collections::HashSet;

use qemu_helpers::filter::{
    AddressRange, IsFilter, QemuFilterList, QemuInstrumentationAddressRangeFilter,
    QemuInstrumentationPagingFilter,
};
use qemu_helpers::helper::{
    HasInstrumentationFilter, QemuEdgeCoverageHelper, QemuHelper, QemuHelperTuple, TraceHelper,
};
use qemu_helpers::registry::CountersRegistry;
use qemu_helpers::{ExitKind, Qemu, QemuHooks};

type Chain3 = (TraceHelper, (TraceHelper, (TraceHelper, ())));

fn chain3() -> Chain3 {
    (TraceHelper { id: 1 }, (TraceHelper { id: 2 }, (TraceHelper { id: 3 }, ())))
}

#[test]
fn pre_exec_dispatches_in_declaration_order() {
    let mut chain = chain3();
    let mut emu = Qemu::new();
    let input: u8 = 0;
    <Chain3 as QemuHelperTuple<u8, u8>>::pre_exec_all(&mut chain, &mut emu, &input);
    assert_eq!(emu.actions, vec![1, 2, 3]);
}

#[test]
fn empty_chain_records_no_calls() {
    let mut chain: () = ();
    let mut emu = Qemu::new();
    let input: u8 = 0;
    <() as QemuHelperTuple<u8, u8>>::pre_exec_all(&mut chain, &mut emu, &input);
    assert_eq!(emu.actions, Vec::<u64>::new());
    assert_eq!(emu.jit_flush_count, 0);
}

#[test]
fn post_exec_dispatches_in_declaration_order() {
    let mut chain = chain3();
    let mut emu = Qemu::new();
    let input: u8 = 0;
    let mut observers: u8 = 7;
    let mut exit_kind = ExitKind::Normal;
    <Chain3 as QemuHelperTuple<u8, u8>>::post_exec_all(
        &mut chain,
        &mut emu,
        &input,
        &mut observers,
        &mut exit_kind,
    );
    assert_eq!(emu.actions, vec![1, 2, 3]);
    assert_eq!(observers, 7);
    assert_eq!(exit_kind, ExitKind::Normal);
}

#[test]
fn full_lifecycle_in_order() {
    let mut chain = chain3();
    let mut emu = Qemu::new();
    let hooks = QemuHooks::new();
    let input: u8 = 0;
    let mut observers: u8 = 0;
    let mut exit_kind = ExitKind::Crash;
    <Chain3 as QemuHelperTuple<u8, u8>>::init_hooks_all(&chain, &hooks);
    <Chain3 as QemuHelperTuple<u8, u8>>::first_exec_all(&chain, &hooks);
    <Chain3 as QemuHelperTuple<u8, u8>>::pre_exec_all(&mut chain, &mut emu, &input);
    <Chain3 as QemuHelperTuple<u8, u8>>::post_exec_all(
        &mut chain,
        &mut emu,
        &input,
        &mut observers,
        &mut exit_kind,
    );
    assert_eq!(emu.actions, vec![1, 2, 3, 1, 2, 3]);
    assert_eq!(exit_kind, ExitKind::Crash);
}

#[test]
fn chain_side_effects_is_or_of_members() {
    assert!(!<() as QemuHelperTuple<u8, u8>>::hooks_do_side_effects());
    assert!(<TraceHelper as QemuHelper<u8, u8>>::hooks_do_side_effects());
    assert!(!<QemuEdgeCoverageHelper as QemuHelper<u8, u8>>::hooks_do_side_effects());
    assert!(!<(QemuEdgeCoverageHelper, ()) as QemuHelperTuple<u8, u8>>::hooks_do_side_effects());
    assert!(<Chain3 as QemuHelperTuple<u8, u8>>::hooks_do_side_effects());
    assert!(
        <(QemuEdgeCoverageHelper, (TraceHelper, ())) as QemuHelperTuple<u8, u8>>::hooks_do_side_effects()
    );
}

#[test]
fn side_effect_free_chain_leaves_emulator_untouched() {
    let mut chain = (QemuEdgeCoverageHelper::new(), ());
    let mut emu = Qemu::new();
    let input: u8 = 9;
    let mut observers: u8 = 3;
    let mut exit_kind = ExitKind::Timeout;
    <(QemuEdgeCoverageHelper, ()) as QemuHelperTuple<u8, u8>>::pre_exec_all(
        &mut chain,
        &mut emu,
        &input,
    );
    <(QemuEdgeCoverageHelper, ()) as QemuHelperTuple<u8, u8>>::post_exec_all(
        &mut chain,
        &mut emu,
        &input,
        &mut observers,
        &mut exit_kind,
    );
    assert_eq!(emu.actions, Vec::<u64>::new());
    assert_eq!(emu.jit_flush_count, 0);
    assert_eq!(observers, 3);
    assert_eq!(exit_kind, ExitKind::Timeout);
}

#[test]
fn update_filter_flushes_once_per_call() {
    let mut helper = QemuEdgeCoverageHelper::new();
    let mut emu = Qemu::new();
    let same: QemuInstrumentationAddressRangeFilter = QemuFilterList::Unrestricted;
    <QemuEdgeCoverageHelper as HasInstrumentationFilter<
        QemuInstrumentationAddressRangeFilter,
    >>::update_filter(&mut helper, same.clone(), &mut emu);
    assert_eq!(emu.jit_flush_count, 1);
    // Replacing a filter with an identical one still flushes.
    <QemuEdgeCoverageHelper as HasInstrumentationFilter<
        QemuInstrumentationAddressRangeFilter,
    >>::update_filter(&mut helper, same, &mut emu);
    assert_eq!(emu.jit_flush_count, 2);
    let pages: QemuInstrumentationPagingFilter =
        QemuFilterList::AllowList(HashSet::from([5, 7]));
    <QemuEdgeCoverageHelper as HasInstrumentationFilter<
        QemuInstrumentationPagingFilter,
    >>::update_filter(&mut helper, pages, &mut emu);
    assert_eq!(emu.jit_flush_count, 3);
}

#[test]
fn update_filter_replaces_the_filter() {
    let mut helper = QemuEdgeCoverageHelper::new();
    let mut emu = Qemu::new();
    let allow: QemuInstrumentationAddressRangeFilter =
        QemuFilterList::AllowList(vec![AddressRange { start: 10, end: 20 }]);
    <QemuEdgeCoverageHelper as HasInstrumentationFilter<
        QemuInstrumentationAddressRangeFilter,
    >>::update_filter(&mut helper, allow, &mut emu);
    let held = <QemuEdgeCoverageHelper as HasInstrumentationFilter<
        QemuInstrumentationAddressRangeFilter,
    >>::filter(&helper);
    assert!(held.allowed(15));
    assert!(!held.allowed(25));
    assert!(helper.must_instrument(15));
    assert!(!helper.must_instrument(25));
}

#[test]
fn tuple_chain_filter_delegates_to_head() {
    let mut chain = (QemuEdgeCoverageHelper::new(), ());
    let mut emu = Qemu::new();
    let deny: QemuInstrumentationAddressRangeFilter =
        QemuFilterList::DenyList(vec![AddressRange { start: 10, end: 20 }]);
    <(QemuEdgeCoverageHelper, ()) as HasInstrumentationFilter<
        QemuInstrumentationAddressRangeFilter,
    >>::update_filter(&mut chain, deny, &mut emu);
    assert_eq!(emu.jit_flush_count, 1);
    assert!(!chain.0.must_instrument(15));
    assert!(chain.0.must_instrument(25));
    let pages: QemuInstrumentationPagingFilter =
        QemuFilterList::AllowList(HashSet::from([5]));
    <(QemuEdgeCoverageHelper, ()) as HasInstrumentationFilter<
        QemuInstrumentationPagingFilter,
    >>::update_filter(&mut chain, pages, &mut emu);
    assert_eq!(emu.jit_flush_count, 2);
    let held = <(QemuEdgeCoverageHelper, ()) as HasInstrumentationFilter<
        QemuInstrumentationPagingFilter,
    >>::filter(&chain);
    assert!(held.allowed(Some(5)));
    assert!(!held.allowed(Some(6)));
    assert!(!held.allowed(None));
}

#[test]
fn lifecycle_dispatch_never_touches_registry() {
    let mut registry = CountersRegistry::new();
    registry.register_counters(0x1000, 0x1000 + 8);
    let mut chain = chain3();
    let mut emu = Qemu::new();
    let input: u8 = 0;
    let mut observers: u8 = 0;
    let mut exit_kind = ExitKind::Normal;
    <Chain3 as QemuHelperTuple<u8, u8>>::pre_exec_all(&mut chain, &mut emu, &input);
    <Chain3 as QemuHelperTuple<u8, u8>>::post_exec_all(
        &mut chain,
        &mut emu,
        &input,
        &mut observers,
        &mut exit_kind,
    );
    assert_eq!(registry.span_count(), 1);
    assert_eq!(registry.span_at(0).base, 0x1000);
    assert_eq!(registry.span_at(0).len, 8);
}
