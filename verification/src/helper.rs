//! Instrumentation helpers and their composition into one dispatch pipeline.
//!
//! A [`QemuHelper`] is one pluggable instrumentation unit with four lifecycle
//! hooks. A [`QemuHelperTuple`] is an ordered chain of helpers, represented
//! as nested pairs `(head, tail)` terminating in `()`, that offers the same
//! four hooks by forwarding to every member in declaration order, head first.
//!
//! Each helper declares, as a spec function, what its mutable hooks do to its
//! own state and to the emulator; the chain's hooks are then proved to apply
//! the members' effects in order. A helper also declares statically whether
//! its hooks mutate emulator state at all ([`QemuHelper::spec_hooks_do_side_effects`]);
//! the executor may skip hook invocation entirely for a chain whose flag is
//! false, and [`QemuHelper::side_effect_free_hooks`] is the proof that doing
//! so is sound.

use vstd::prelude::*;

use crate::emu::{ExitKind, GuestAddr, Qemu, QemuHooks, QemuView};
use crate::filter::{IsFilter, QemuInstrumentationAddressRangeFilter, QemuInstrumentationPagingFilter, QemuFilterList};

verus! {

/// One instrumentation helper, generic over the input type `I` fed to the
/// target and the observer collection type `OT` shared at post-execution.
///
/// The two immutable hooks (`init_hooks`, `first_exec`) perform setup through
/// the hook-registration handle and touch no state this model observes. The
/// two mutable hooks are specified by the helper's own effect functions
/// [`QemuHelper::spec_pre_exec`] and [`QemuHelper::spec_post_exec`].
pub trait QemuHelper<I, OT>: Sized {
    /// Whether this helper's hooks mutate emulator state. The executor uses
    /// this static declaration to decide whether fast paths may skip hook
    /// invocation entirely.
    spec fn spec_hooks_do_side_effects() -> bool;

    /// The effect of `pre_exec` on the helper's own state and the emulator.
    spec fn spec_pre_exec(self, emu: QemuView, input: I) -> (Self, QemuView);

    /// The effect of `post_exec` on the helper's own state, the emulator,
    /// the shared observers, and the exit classification.
    spec fn spec_post_exec(self, emu: QemuView, input: I, observers: OT, exit_kind: ExitKind) -> (
        Self,
        QemuView,
        OT,
        ExitKind,
    );

    /// A helper that declares itself free of side effects really is one: its
    /// mutable hooks leave the emulator, the helper's own state, the
    /// observers and the exit classification untouched, so the executor may
    /// soundly skip invoking them.
    proof fn side_effect_free_hooks(self, emu: QemuView, input: I, observers: OT, exit_kind: ExitKind)
        requires
            !Self::spec_hooks_do_side_effects(),
        ensures
            Self::spec_pre_exec(self, emu, input) == (self, emu),
            Self::spec_post_exec(self, emu, input, observers, exit_kind) == (
                self,
                emu,
                observers,
                exit_kind,
            ),
    ;

    /// Whether this helper's hooks mutate emulator state.
    fn hooks_do_side_effects() -> (r: bool)
        ensures
            r == Self::spec_hooks_do_side_effects(),
    ;

    /// Called once per campaign, before any target execution, to register
    /// this helper's instrumentation hooks.
    fn init_hooks(&self, hooks: &QemuHooks);

    /// Called once, before the first target execution, for setup that needs
    /// the executor fully initialized.
    fn first_exec(&self, hooks: &QemuHooks);

    /// Called before every target execution.
    fn pre_exec(&mut self, emulator: &mut Qemu, input: &I)
        ensures
            (*final(self), final(emulator)@) == Self::spec_pre_exec(
                *old(self),
                old(emulator)@,
                *input,
            ),
    ;

    /// Called after every target execution, with read/write access to the
    /// shared observers and to the exit classification produced so far.
    fn post_exec(&mut self, emulator: &mut Qemu, input: &I, observers: &mut OT, exit_kind: &mut ExitKind)
        ensures
            (*final(self), final(emulator)@, *final(observers), *final(exit_kind))
                == Self::spec_post_exec(
                *old(self),
                old(emulator)@,
                *input,
                *old(observers),
                *old(exit_kind),
            ),
    ;
}

/// An ordered chain of helpers, dispatched as one unit. The chain offers the
/// same four lifecycle hooks as a single helper and forwards each to every
/// member in declaration order, head first; the empty chain `()` is the
/// no-op base case.
pub trait QemuHelperTuple<I, OT>: Sized {
    /// Whether any member's hooks mutate emulator state: the logical OR of
    /// the members' declarations, false for the empty chain.
    spec fn spec_hooks_do_side_effects() -> bool;

    /// The effect of `pre_exec_all`: every member's `pre_exec` effect,
    /// applied in declaration order.
    spec fn spec_pre_exec_all(self, emu: QemuView, input: I) -> (Self, QemuView);

    /// The effect of `post_exec_all`: every member's `post_exec` effect,
    /// applied in declaration order.
    spec fn spec_post_exec_all(self, emu: QemuView, input: I, observers: OT, exit_kind: ExitKind) -> (
        Self,
        QemuView,
        OT,
        ExitKind,
    );

    /// A chain that declares itself free of side effects leaves everything
    /// untouched when dispatched.
    proof fn side_effect_free_hooks_all(self, emu: QemuView, input: I, observers: OT, exit_kind: ExitKind)
        requires
            !Self::spec_hooks_do_side_effects(),
        ensures
            Self::spec_pre_exec_all(self, emu, input) == (self, emu),
            Self::spec_post_exec_all(self, emu, input, observers, exit_kind) == (
                self,
                emu,
                observers,
                exit_kind,
            ),
    ;

    /// Whether any member's hooks mutate emulator state.
    fn hooks_do_side_effects() -> (r: bool)
        ensures
            r == Self::spec_hooks_do_side_effects(),
    ;

    /// Call `init_hooks` on every member, in declaration order.
    fn init_hooks_all(&self, hooks: &QemuHooks);

    /// Call `first_exec` on every member, in declaration order.
    fn first_exec_all(&self, hooks: &QemuHooks);

    /// Call `pre_exec` on every member, in declaration order.
    fn pre_exec_all(&mut self, emulator: &mut Qemu, input: &I)
        ensures
            (*final(self), final(emulator)@) == Self::spec_pre_exec_all(
                *old(self),
                old(emulator)@,
                *input,
            ),
    ;

    /// Call `post_exec` on every member, in declaration order.
    fn post_exec_all(&mut self, emulator: &mut Qemu, input: &I, observers: &mut OT, exit_kind: &mut ExitKind)
        ensures
            (*final(self), final(emulator)@, *final(observers), *final(exit_kind))
                == Self::spec_post_exec_all(
                *old(self),
                old(emulator)@,
                *input,
                *old(observers),
                *old(exit_kind),
            ),
    ;
}

impl<I, OT> QemuHelperTuple<I, OT> for () {
    open spec fn spec_hooks_do_side_effects() -> bool {
        false
    }

    open spec fn spec_pre_exec_all(self, emu: QemuView, input: I) -> ((), QemuView) {
        (self, emu)
    }

    open spec fn spec_post_exec_all(self, emu: QemuView, input: I, observers: OT, exit_kind: ExitKind) -> (
        (),
        QemuView,
        OT,
        ExitKind,
    ) {
        (self, emu, observers, exit_kind)
    }

    proof fn side_effect_free_hooks_all(self, emu: QemuView, input: I, observers: OT, exit_kind: ExitKind) {
    }

    fn hooks_do_side_effects() -> (r: bool) {
        false
    }

    fn init_hooks_all(&self, hooks: &QemuHooks) {
    }

    fn first_exec_all(&self, hooks: &QemuHooks) {
    }

    fn pre_exec_all(&mut self, emulator: &mut Qemu, input: &I) {
    }

    fn post_exec_all(&mut self, emulator: &mut Qemu, input: &I, observers: &mut OT, exit_kind: &mut ExitKind) {
    }
}

impl<Head, Tail, I, OT> QemuHelperTuple<I, OT> for (Head, Tail) where
    Head: QemuHelper<I, OT>,
    Tail: QemuHelperTuple<I, OT>,
 {
    open spec fn spec_hooks_do_side_effects() -> bool {
        Head::spec_hooks_do_side_effects() || Tail::spec_hooks_do_side_effects()
    }

    open spec fn spec_pre_exec_all(self, emu: QemuView, input: I) -> ((Head, Tail), QemuView) {
        let (head, emu_after_head) = Head::spec_pre_exec(self.0, emu, input);
        let (tail, emu_after_tail) = Tail::spec_pre_exec_all(self.1, emu_after_head, input);
        ((head, tail), emu_after_tail)
    }

    open spec fn spec_post_exec_all(self, emu: QemuView, input: I, observers: OT, exit_kind: ExitKind) -> (
        (Head, Tail),
        QemuView,
        OT,
        ExitKind,
    ) {
        let (head, emu1, obs1, exit1) = Head::spec_post_exec(self.0, emu, input, observers, exit_kind);
        let (tail, emu2, obs2, exit2) = Tail::spec_post_exec_all(self.1, emu1, input, obs1, exit1);
        ((head, tail), emu2, obs2, exit2)
    }

    proof fn side_effect_free_hooks_all(self, emu: QemuView, input: I, observers: OT, exit_kind: ExitKind) {
        self.0.side_effect_free_hooks(emu, input, observers, exit_kind);
        self.1.side_effect_free_hooks_all(emu, input, observers, exit_kind);
    }

    fn hooks_do_side_effects() -> (r: bool) {
        Head::hooks_do_side_effects() || Tail::hooks_do_side_effects()
    }

    fn init_hooks_all(&self, hooks: &QemuHooks) {
        self.0.init_hooks(hooks);
        self.1.init_hooks_all(hooks);
    }

    fn first_exec_all(&self, hooks: &QemuHooks) {
        self.0.first_exec(hooks);
        self.1.first_exec_all(hooks);
    }

    fn pre_exec_all(&mut self, emulator: &mut Qemu, input: &I) {
        self.0.pre_exec(emulator, input);
        self.1.pre_exec_all(emulator, input);
    }

    fn post_exec_all(&mut self, emulator: &mut Qemu, input: &I, observers: &mut OT, exit_kind: &mut ExitKind) {
        self.0.post_exec(emulator, input, observers, exit_kind);
        self.1.post_exec_all(emulator, input, observers, exit_kind);
    }
}

/// The capability of owning one instrumentation filter of kind `F`. A
/// helper may hold one filter per kind it supports (a system-mode coverage
/// helper holds both an address-range filter and a paging filter).
pub trait HasInstrumentationFilter<F: IsFilter>: Sized {
    /// The filter this helper currently holds.
    spec fn spec_filter(&self) -> F;

    /// Read access to the held filter.
    fn filter(&self) -> (r: &F)
        ensures
            *r == self.spec_filter(),
    ;

    /// Replace the held filter, without any further effect.
    fn set_filter(&mut self, filter: F)
        ensures
            final(self).spec_filter() == filter,
    ;

    /// Replace the held filter and flush the executor's translation cache:
    /// already translated code was instrumented (or not) against the old
    /// filter and must be retranslated against the new one. Exactly one
    /// flush is requested per call, whether or not the new filter differs
    /// from the old.
    fn update_filter(&mut self, filter: F, emu: &mut Qemu)
        requires
            old(emu)@.jit_flush_count < u64::MAX,
        ensures
            final(self).spec_filter() == filter,
            final(emu)@.jit_flush_count == old(emu)@.jit_flush_count + 1,
            final(emu)@.actions == old(emu)@.actions,
    {
        self.set_filter(filter);
        emu.flush_jit();
    }
}

/// A coverage-collecting helper scoped by both an address-range filter and a
/// paging filter, as a system-mode target requires. Its hooks feed coverage
/// counters that live outside the emulator state this model observes, so
/// they are free of side effects here.
pub struct QemuEdgeCoverageHelper {
    /// Scope of instrumentation by guest address.
    pub addr_filter: QemuInstrumentationAddressRangeFilter,
    /// Scope of instrumentation by memory-paging identifier.
    pub paging_filter: QemuInstrumentationPagingFilter,
}

impl QemuEdgeCoverageHelper {
    /// A coverage helper with no restriction: every address and every
    /// resolvable paging identifier is in scope.
    pub fn new() -> (h: QemuEdgeCoverageHelper)
        ensures
            h.addr_filter == QemuInstrumentationAddressRangeFilter::Unrestricted,
            h.paging_filter == QemuInstrumentationPagingFilter::Unrestricted,
    {
        QemuEdgeCoverageHelper {
            addr_filter: QemuFilterList::Unrestricted,
            paging_filter: QemuFilterList::Unrestricted,
        }
    }

    /// Whether instrumentation applies at `addr` under the current
    /// address-range filter.
    pub fn must_instrument(&self, addr: GuestAddr) -> (r: bool)
        ensures
            r == self.addr_filter.spec_allowed(addr),
    {
        self.addr_filter.allowed(addr)
    }
}

impl<I, OT> QemuHelper<I, OT> for QemuEdgeCoverageHelper {
    open spec fn spec_hooks_do_side_effects() -> bool {
        false
    }

    open spec fn spec_pre_exec(self, emu: QemuView, input: I) -> (QemuEdgeCoverageHelper, QemuView) {
        (self, emu)
    }

    open spec fn spec_post_exec(self, emu: QemuView, input: I, observers: OT, exit_kind: ExitKind) -> (
        QemuEdgeCoverageHelper,
        QemuView,
        OT,
        ExitKind,
    ) {
        (self, emu, observers, exit_kind)
    }

    proof fn side_effect_free_hooks(self, emu: QemuView, input: I, observers: OT, exit_kind: ExitKind) {
    }

    fn hooks_do_side_effects() -> (r: bool) {
        false
    }

    fn init_hooks(&self, hooks: &QemuHooks) {
    }

    fn first_exec(&self, hooks: &QemuHooks) {
    }

    fn pre_exec(&mut self, emulator: &mut Qemu, input: &I) {
    }

    fn post_exec(&mut self, emulator: &mut Qemu, input: &I, observers: &mut OT, exit_kind: &mut ExitKind) {
    }
}

impl HasInstrumentationFilter<QemuInstrumentationAddressRangeFilter> for QemuEdgeCoverageHelper {
    open spec fn spec_filter(&self) -> QemuInstrumentationAddressRangeFilter {
        self.addr_filter
    }

    fn filter(&self) -> (r: &QemuInstrumentationAddressRangeFilter) {
        &self.addr_filter
    }

    fn set_filter(&mut self, filter: QemuInstrumentationAddressRangeFilter) {
        self.addr_filter = filter;
    }
}

impl HasInstrumentationFilter<QemuInstrumentationPagingFilter> for QemuEdgeCoverageHelper {
    open spec fn spec_filter(&self) -> QemuInstrumentationPagingFilter {
        self.paging_filter
    }

    fn filter(&self) -> (r: &QemuInstrumentationPagingFilter) {
        &self.paging_filter
    }

    fn set_filter(&mut self, filter: QemuInstrumentationPagingFilter) {
        self.paging_filter = filter;
    }
}

impl HasInstrumentationFilter<QemuInstrumentationAddressRangeFilter> for (QemuEdgeCoverageHelper, ()) {
    open spec fn spec_filter(&self) -> QemuInstrumentationAddressRangeFilter {
        self.0.addr_filter
    }

    fn filter(&self) -> (r: &QemuInstrumentationAddressRangeFilter) {
        &self.0.addr_filter
    }

    fn set_filter(&mut self, filter: QemuInstrumentationAddressRangeFilter) {
        self.0.addr_filter = filter;
    }
}

impl HasInstrumentationFilter<QemuInstrumentationPagingFilter> for (QemuEdgeCoverageHelper, ()) {
    open spec fn spec_filter(&self) -> QemuInstrumentationPagingFilter {
        self.0.paging_filter
    }

    fn filter(&self) -> (r: &QemuInstrumentationPagingFilter) {
        &self.0.paging_filter
    }

    fn set_filter(&mut self, filter: QemuInstrumentationPagingFilter) {
        self.0.paging_filter = filter;
    }
}

/// The standard filtering capability of a system-mode helper chain: one
/// address-range filter and one paging filter.
pub trait StdInstrumentationFilter: HasInstrumentationFilter<
    QemuInstrumentationAddressRangeFilter,
> + HasInstrumentationFilter<QemuInstrumentationPagingFilter> {
}

impl StdInstrumentationFilter for (QemuEdgeCoverageHelper, ()) {
}

/// A helper that stamps its identifier into the executor's action log at
/// each mutable lifecycle hook, so that the order in which a chain
/// dispatches its members is observable.
pub struct TraceHelper {
    /// The identifier stamped into the action log.
    pub id: u64,
}

impl<I, OT> QemuHelper<I, OT> for TraceHelper {
    open spec fn spec_hooks_do_side_effects() -> bool {
        true
    }

    open spec fn spec_pre_exec(self, emu: QemuView, input: I) -> (TraceHelper, QemuView) {
        (self, QemuView { jit_flush_count: emu.jit_flush_count, actions: emu.actions.push(self.id) })
    }

    open spec fn spec_post_exec(self, emu: QemuView, input: I, observers: OT, exit_kind: ExitKind) -> (
        TraceHelper,
        QemuView,
        OT,
        ExitKind,
    ) {
        (
            self,
            QemuView { jit_flush_count: emu.jit_flush_count, actions: emu.actions.push(self.id) },
            observers,
            exit_kind,
        )
    }

    proof fn side_effect_free_hooks(self, emu: QemuView, input: I, observers: OT, exit_kind: ExitKind) {
    }

    fn hooks_do_side_effects() -> (r: bool) {
        true
    }

    fn init_hooks(&self, hooks: &QemuHooks) {
    }

    fn first_exec(&self, hooks: &QemuHooks) {
    }

    fn pre_exec(&mut self, emulator: &mut Qemu, input: &I) {
        emulator.apply_action(self.id);
    }

    fn post_exec(&mut self, emulator: &mut Qemu, input: &I, observers: &mut OT, exit_kind: &mut ExitKind) {
        emulator.apply_action(self.id);
    }
}

/// The side-effects flag of a non-empty chain is the logical OR of its
/// head's flag and its tail's, and the empty chain's flag is false.
pub proof fn lemma_chain_hooks_do_side_effects<Head, Tail, I, OT>() where
    Head: QemuHelper<I, OT>,
    Tail: QemuHelperTuple<I, OT>,

    ensures
        <(Head, Tail) as QemuHelperTuple<I, OT>>::spec_hooks_do_side_effects() == (
        Head::spec_hooks_do_side_effects() || Tail::spec_hooks_do_side_effects()),
        !<() as QemuHelperTuple<I, OT>>::spec_hooks_do_side_effects(),
{
}

} // verus!
