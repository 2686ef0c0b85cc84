//! Registry of coverage-counter memory spans.
//!
//! Each instrumented guest module, as it is loaded and before any fuzzing
//! input runs against it, registers the memory span holding its coverage
//! counters. The registry is append-only: spans are recorded in call order,
//! never removed or coalesced, and never validated — pointer validity is the
//! registering module's contract, not this layer's.

use vstd::prelude::*;

verus! {

/// One contiguous memory span of coverage counters, contributed by an
/// instrumented guest module. The span's memory belongs to that module; the
/// registry only records where it lies.
#[derive(Clone, Copy, PartialEq, Eq, Structural)]
pub struct CoverageSpan {
    /// Address of the first counter byte.
    pub base: usize,
    /// Number of counter bytes.
    pub len: usize,
}

/// The process-wide, append-only collection of registered coverage-counter
/// spans. It starts empty and keeps spans in registration order for the
/// whole campaign.
pub struct CountersRegistry {
    spans: Vec<CoverageSpan>,
}

impl CountersRegistry {
    /// The registered spans, in registration order.
    pub closed spec fn spec_spans(&self) -> Seq<CoverageSpan> {
        self.spans@
    }

    /// An empty registry, as at process start.
    pub fn new() -> (r: CountersRegistry)
        ensures
            r.spec_spans() == Seq::<CoverageSpan>::empty(),
    {
        CountersRegistry { spans: Vec::new() }
    }

    /// Record the span `[start, end)` of coverage counters: its length is
    /// computed from the two bounds and the span is appended after every
    /// span registered before it. Nothing is validated beyond the bounds
    /// being ordered; overlap with earlier spans is the caller's concern.
    pub fn register_counters(&mut self, start: usize, end: usize)
        requires
            start <= end,
        ensures
            final(self).spec_spans() == old(self).spec_spans().push(
                CoverageSpan { base: start, len: (end - start) as usize },
            ),
    {
        let span = CoverageSpan { base: start, len: end - start };
        self.spans.push(span);
    }

    /// How many spans have been registered.
    pub fn span_count(&self) -> (n: usize)
        ensures
            n == self.spec_spans().len(),
    {
        self.spans.len()
    }

    /// The `i`-th registered span, in registration order.
    pub fn span_at(&self, i: usize) -> (s: CoverageSpan)
        requires
            i < self.spec_spans().len(),
        ensures
            s == self.spec_spans()[i as int],
    {
        self.spans[i]
    }
}

} // verus!
