//! Model of the executor (emulator) boundary.
//!
//! The emulator is an external collaborator: this layer only ever asks it to
//! flush its translation cache, and helpers apply guest-visible actions to it
//! from their lifecycle hooks. [`Qemu`] models exactly that observable state:
//! how many cache flushes have been requested, and the ordered log of actions
//! helpers have applied.

use vstd::prelude::*;

verus! {

/// A guest virtual address.
pub type GuestAddr = u64;

/// A guest physical address, used as a memory-paging identifier.
pub type GuestPhysAddr = u64;

/// Classification of a finished target execution. `post_exec` hooks may read
/// and override it.
#[derive(Clone, Copy, Debug, PartialEq, Eq)]
pub enum ExitKind {
    /// The target ran to completion.
    Normal,
    /// The target crashed.
    Crash,
    /// The target ran out of memory.
    Oom,
    /// The target timed out.
    Timeout,
}

/// Handle through which helpers register their instrumentation hooks during
/// `init_hooks` and `first_exec`. Hook registration itself belongs to the
/// emulator and carries no observable state in this model.
pub struct QemuHooks {
}

impl QemuHooks {
    /// A hook-registration handle.
    pub fn new() -> QemuHooks {
        QemuHooks {  }
    }
}

/// Abstract state of the emulator as seen by this layer.
pub struct QemuView {
    /// Number of translation-cache flushes requested so far.
    pub jit_flush_count: int,
    /// Guest-visible actions applied by helpers, in order.
    pub actions: Seq<u64>,
}

/// Handle to the executor. The real emulator is out of scope; this value
/// carries the state that the instrumentation layer observes and mutates:
/// the translation-cache flush counter and the ordered action log.
pub struct Qemu {
    /// Number of translation-cache flushes requested so far.
    pub jit_flush_count: u64,
    /// Guest-visible actions applied by helpers, in order.
    pub actions: Vec<u64>,
}

impl View for Qemu {
    type V = QemuView;

    open spec fn view(&self) -> QemuView {
        QemuView { jit_flush_count: self.jit_flush_count as int, actions: self.actions@ }
    }
}

impl Qemu {
    /// A fresh executor handle: nothing flushed, nothing applied.
    pub fn new() -> (q: Qemu)
        ensures
            q@.jit_flush_count == 0,
            q@.actions == Seq::<u64>::empty(),
    {
        Qemu { jit_flush_count: 0, actions: Vec::new() }
    }

    /// Invalidate the emulator's translated-code cache. Called when a
    /// helper's instrumentation filter is replaced, so that already
    /// translated code is re-instrumented against the new filter.
    pub fn flush_jit(&mut self)
        requires
            old(self)@.jit_flush_count < u64::MAX,
        ensures
            final(self)@.jit_flush_count == old(self)@.jit_flush_count + 1,
            final(self)@.actions == old(self)@.actions,
    {
        self.jit_flush_count = self.jit_flush_count + 1;
    }

    /// Apply one guest-visible action, identified by `action`, to the
    /// emulator. Helpers call this from their mutable lifecycle hooks; the
    /// log keeps the order in which actions were applied.
    pub fn apply_action(&mut self, action: u64)
        ensures
            final(self)@.jit_flush_count == old(self)@.jit_flush_count,
            final(self)@.actions == old(self)@.actions.push(action),
    {
        self.actions.push(action);
    }
}

} // verus!
