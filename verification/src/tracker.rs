//! The block-context tracker: which capability the current span of the
//! byte stream belongs to.  A block marker announces a span size and a
//! capability (or the all-ones sentinel for none); every observed record
//! consumes its tag, timestamp and payload bytes out of the span; the
//! context is the announced capability exactly while span bytes remain.

use vstd::prelude::*;

verus! {

/// The all-ones capability id a block marker uses to announce "no
/// capability".
pub const NO_CAP: u16 = 0xFFFF;

/// The capability a marker word announces: the sentinel maps to none.
pub open spec fn cap_of(capno: u16) -> Option<u16> {
    if capno == NO_CAP {
        None
    } else {
        Some(capno)
    }
}

/// The bytes a record of payload size `size` consumes out of a span: its
/// tag word, its timestamp, and its payload.
pub open spec fn span_cost(size: int) -> int {
    2 + 8 + size
}

/// What observing one record leaves of a span.  A span never goes below
/// empty: once exhausted (or overrun) it stays empty until the next marker.
pub open spec fn observe_left(left: u64, size: int) -> u64 {
    if left >= span_cost(size) {
        (left - span_cost(size)) as u64
    } else {
        0u64
    }
}

/// What is left of a span of `left` bytes after observing records of the
/// given payload sizes, in order.
pub open spec fn left_after(left: u64, sizes: Seq<int>) -> u64
    decreases sizes.len(),
{
    if sizes.len() == 0 {
        left
    } else {
        left_after(observe_left(left, sizes[0]), sizes.drop_first())
    }
}

/// The total bytes records of the given payload sizes consume.
pub open spec fn consumed(sizes: Seq<int>) -> int
    decreases sizes.len(),
{
    if sizes.len() == 0 {
        0
    } else {
        span_cost(sizes[0]) + consumed(sizes.drop_first())
    }
}

/// The context a span of `left` bytes under capability word `capno` gives
/// after observing records of the given payload sizes.
pub open spec fn ctx_after(left: u64, capno: u16, sizes: Seq<int>) -> Option<u16> {
    if left_after(left, sizes) > 0 {
        cap_of(capno)
    } else {
        None
    }
}

/// Tracks the capability context across a decode pass.
pub struct BlockCtx {
    remaining: u64,
    capno: Option<u16>,
}

impl BlockCtx {
    /// How many bytes of the announced span are still unconsumed.
    pub closed spec fn left(&self) -> u64 {
        self.remaining
    }

    /// The capability the current span was announced under.
    pub closed spec fn cap(&self) -> Option<u16> {
        self.capno
    }

    /// The context the tracker exposes: the announced capability, but only
    /// while span bytes remain.
    pub open spec fn context_spec(&self) -> Option<u16> {
        if self.left() > 0 {
            self.cap()
        } else {
            None
        }
    }

    /// Before the first marker there is no span and no capability.
    pub fn new() -> (r: BlockCtx)
        ensures
            r.left() == 0,
            r.cap() is None,
    {
        BlockCtx { remaining: 0, capno: None }
    }

    /// A record of payload size `size` was observed: its span bytes leave
    /// the current block.
    pub fn on_record_observed(&mut self, size: usize)
        requires
            size <= 0xFFFF,
        ensures
            final(self).cap() == old(self).cap(),
            final(self).left() == observe_left(old(self).left(), size as int),
    {
        let cost = (2 + 8 + size) as u64;
        if self.remaining >= cost {
            self.remaining = self.remaining - cost;
        } else {
            self.remaining = 0;
        }
    }

    /// A block marker was decoded: the span counter resets to the announced
    /// size unconditionally — a marker is a resynchronization point, whether
    /// or not the previous span was consumed exactly — and the sentinel
    /// capability id announces "no capability".
    pub fn on_block_marker(&mut self, block_size: u32, capno: u16)
        ensures
            final(self).left() == block_size,
            final(self).cap() == cap_of(capno),
    {
        self.remaining = block_size as u64;
        self.capno = if capno == NO_CAP {
            None
        } else {
            Some(capno)
        };
    }

    /// The current context: the span's capability while bytes of it remain,
    /// none otherwise.
    pub fn current_context(&self) -> (r: Option<u16>)
        ensures
            r == self.context_spec(),
    {
        if self.remaining > 0 {
            self.capno
        } else {
            None
        }
    }
}

pub proof fn lemma_consumed_nonneg(sizes: Seq<int>)
    requires
        forall|k: int| 0 <= k < sizes.len() ==> 0 <= #[trigger] sizes[k],
    ensures
        consumed(sizes) >= 0,
    decreases sizes.len(),
{
    if sizes.len() > 0 {
        lemma_consumed_nonneg(sizes.drop_first());
    }
}

/// Saturating consumption in steps equals saturating consumption in total:
/// what a span keeps after a run of records is its announced size less
/// everything they consumed, and never less than empty.
pub proof fn lemma_left_after_total(left: u64, sizes: Seq<int>)
    requires
        forall|k: int| 0 <= k < sizes.len() ==> 0 <= #[trigger] sizes[k],
    ensures
        left_after(left, sizes) == if consumed(sizes) >= left {
            0int
        } else {
            left - consumed(sizes)
        },
    decreases sizes.len(),
{
    if sizes.len() > 0 {
        let rest = sizes.drop_first();
        assert(forall|k: int| 0 <= k < rest.len() ==> 0 <= #[trigger] rest[k]) by {
            assert(forall|k: int| 0 <= k < rest.len() ==> #[trigger] rest[k] == sizes[k + 1]);
        }
        lemma_consumed_nonneg(rest);
        lemma_left_after_total(observe_left(left, sizes[0]), rest);
    }
}

/// Block accounting: after a marker announcing a span of `block_size`
/// bytes, exactly `block_size` bytes of record overhead and payload are
/// attributable to the announced capability — the context stays until the
/// records observed since the marker reach the announced size, and is gone
/// from then on.
pub proof fn lemma_block_accounting(block_size: u32, capno: u16, sizes: Seq<int>)
    requires
        forall|k: int| 0 <= k < sizes.len() ==> 0 <= #[trigger] sizes[k],
    ensures
        ctx_after(block_size as u64, capno, sizes) == if consumed(sizes) < block_size {
            cap_of(capno)
        } else {
            None::<u16>
        },
{
    lemma_left_after_total(block_size as u64, sizes);
}

/// Capability sentinel: a span announced under the all-ones capability id
/// yields no context for its whole extent, however much of it is consumed.
pub proof fn lemma_sentinel_span(block_size: u32, sizes: Seq<int>)
    ensures
        ctx_after(block_size as u64, NO_CAP, sizes) is None,
{
}

} // verus!
