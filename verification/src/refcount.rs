//! The reference-counting message queue.
//!
//! Strong handles do not touch a shared counter when they are cloned or
//! released; they enqueue an increment or decrement message here instead.
//! A single consumer drains the queue once per cycle and applies the
//! deltas against the external loader's ref-count table.  The count is
//! therefore only eventually consistent: if the consumer loop is never
//! driven the messages pile up and slots are never freed — a liveness
//! requirement on the host, not a correctness one.

use vstd::prelude::*;

use crate::handle::LoadHandle;
use crate::table::SlotTable;

verus! {

/// One reference-count message.
#[derive(Clone, Copy, Debug, PartialEq, Eq, Structural)]
pub enum RefOp {
    Increase(LoadHandle),
    Decrease(LoadHandle),
}

/// The queue of pending reference-count messages, in send order.
pub struct RefOpChannel {
    ops: Vec<RefOp>,
}

impl View for RefOpChannel {
    type V = Seq<RefOp>;

    closed spec fn view(&self) -> Seq<RefOp> {
        self.ops@
    }
}

impl RefOpChannel {
    /// An empty queue.
    pub fn new() -> (r: RefOpChannel)
        ensures
            r@ == Seq::<RefOp>::empty(),
    {
        RefOpChannel { ops: Vec::new() }
    }

    /// Enqueue one message.  Sending never blocks and never fails.
    pub fn send(&mut self, op: RefOp)
        ensures
            final(self)@ == old(self)@.push(op),
    {
        self.ops.push(op);
    }

    /// The number of pending messages.
    pub fn len(&self) -> (r: usize)
        ensures
            r == self@.len(),
    {
        self.ops.len()
    }

    /// Whether no message is pending.
    pub fn is_empty(&self) -> (r: bool)
        ensures
            r == (self@.len() == 0),
    {
        self.ops.len() == 0
    }

    /// Take every pending message, in send order, leaving the queue
    /// empty.  This is the single consumer's per-cycle drain.
    pub fn drain(&mut self) -> (r: Vec<RefOp>)
        ensures
            r@ == old(self)@,
            final(self)@ == Seq::<RefOp>::empty(),
    {
        let mut out: Vec<RefOp> = Vec::new();
        core::mem::swap(&mut out, &mut self.ops);
        out
    }
}

/// The consumer's side of the channel: the per-slot strong-reference
/// counts that the drained messages are applied against, one message at
/// a time, in receipt order.
pub struct RefCounts {
    counts: SlotTable<u64>,
}

impl RefCounts {
    /// The table is well-formed and holds no zero counts: a slot whose
    /// count reaches zero leaves the table (and becomes eligible for
    /// freeing).
    pub closed spec fn wf(&self) -> bool {
        self.counts.wf() && forall|id: u64|
            self.counts@.dom().contains(id) ==> #[trigger] self.counts@[id] > 0
    }

    /// The strong-reference count of a slot; zero when untracked.
    pub closed spec fn spec_count_of(&self, id: u64) -> int {
        if self.counts@.dom().contains(id) {
            self.counts@[id] as int
        } else {
            0
        }
    }

    /// A table with every count at zero.
    pub fn new() -> (r: RefCounts)
        ensures
            r.wf(),
            forall|id: u64| r.spec_count_of(id) == 0,
    {
        RefCounts { counts: SlotTable::new() }
    }

    /// The strong-reference count of a slot.
    pub fn count_of(&self, id: u64) -> (r: u64)
        requires
            self.wf(),
        ensures
            r == self.spec_count_of(id),
    {
        match self.counts.get(id) {
            Some(c) => *c,
            None => 0,
        }
    }

    /// Apply one drained message.  An increment raises the slot's
    /// count; a decrement lowers it, and the decrement that reaches
    /// zero reports the slot as having no owners left.  A stray
    /// decrement for an untracked slot is ignored.
    pub fn apply(&mut self, op: RefOp) -> (r: Option<u64>)
        requires
            old(self).wf(),
            op matches RefOp::Increase(h) ==> old(self).spec_count_of(h.id) < u64::MAX,
        ensures
            final(self).wf(),
            match op {
                RefOp::Increase(h) => r is None && final(self).spec_count_of(h.id) == old(self).spec_count_of(h.id) + 1,
                RefOp::Decrease(h) => {
                    &&& old(self).spec_count_of(h.id) == 0 ==> r is None && final(self).spec_count_of(h.id) == 0
                    &&& old(self).spec_count_of(h.id) == 1 ==> r == Some(h.id) && final(self).spec_count_of(h.id) == 0
                    &&& old(self).spec_count_of(h.id) > 1 ==> r is None && final(self).spec_count_of(h.id) == old(self).spec_count_of(h.id) - 1
                },
            },
            forall|other: u64|
                (match op {
                    RefOp::Increase(h) => h.id,
                    RefOp::Decrease(h) => h.id,
                }) != other ==> final(self).spec_count_of(other) == old(self).spec_count_of(
                    other,
                ),
    {
        match op {
            RefOp::Increase(h) => {
                let current = self.count_of(h.handle_id());
                self.counts.insert(h.handle_id(), current + 1);
                None
            },
            RefOp::Decrease(h) => {
                let current = self.count_of(h.handle_id());
                if current == 0 {
                    None
                } else if current == 1 {
                    self.counts.remove(h.handle_id());
                    Some(h.handle_id())
                } else {
                    self.counts.insert(h.handle_id(), current - 1);
                    None
                }
            },
        }
    }
}

/// The contribution of one message to the count of `h`.
pub open spec fn delta_of(op: RefOp, h: LoadHandle) -> int {
    match op {
        RefOp::Increase(g) => if g == h {
            1
        } else {
            0
        },
        RefOp::Decrease(g) => if g == h {
            -1
        } else {
            0
        },
    }
}

/// The sum of the deltas for `h` over a whole message sequence: what the
/// consumer will add to the count of `h` when it applies the sequence.
pub open spec fn net_delta(ops: Seq<RefOp>, h: LoadHandle) -> int
    decreases ops.len(),
{
    if ops.len() == 0 {
        0
    } else {
        net_delta(ops.drop_last(), h) + delta_of(ops.last(), h)
    }
}

/// The net delta of a concatenation is the sum of the parts' net deltas.
pub proof fn lemma_net_delta_concat(a: Seq<RefOp>, b: Seq<RefOp>, h: LoadHandle)
    ensures
        net_delta(a + b, h) == net_delta(a, h) + net_delta(b, h),
    decreases b.len(),
{
    if b.len() == 0 {
        assert(a + b =~= a);
    } else {
        lemma_net_delta_concat(a, b.drop_last(), h);
        assert((a + b).drop_last() =~= a + b.drop_last());
        assert((a + b).last() == b.last());
    }
}

/// A sequence of `n` increments for `h` nets exactly `n`.
pub proof fn lemma_net_delta_increases(n: nat, h: LoadHandle)
    ensures
        net_delta(Seq::new(n, |i: int| RefOp::Increase(h)), h) == n,
    decreases n,
{
    let s = Seq::new(n, |i: int| RefOp::Increase(h));
    if n > 0 {
        lemma_net_delta_increases((n - 1) as nat, h);
        assert(s.drop_last() =~= Seq::new((n - 1) as nat, |i: int| RefOp::Increase(h)));
    }
}

/// A sequence of `n` decrements for `h` nets exactly `-n`.
pub proof fn lemma_net_delta_decreases(n: nat, h: LoadHandle)
    ensures
        net_delta(Seq::new(n, |i: int| RefOp::Decrease(h)), h) == -(n as int),
    decreases n,
{
    let s = Seq::new(n, |i: int| RefOp::Decrease(h));
    if n > 0 {
        lemma_net_delta_decreases((n - 1) as nat, h);
        assert(s.drop_last() =~= Seq::new((n - 1) as nat, |i: int| RefOp::Decrease(h)));
    }
}

/// Ref-count round trip: cloning a handle `n` times and then releasing
/// all `n` clones leaves the consumer with a net delta of zero for that
/// handle — the queue traffic of the clones cancels out exactly.
pub proof fn lemma_ref_count_round_trip(n: nat, h: LoadHandle)
    ensures
        net_delta(
            Seq::new(n, |i: int| RefOp::Increase(h)) + Seq::new(
                n,
                |i: int| RefOp::Decrease(h),
            ),
            h,
        ) == 0,
{
    lemma_net_delta_increases(n, h);
    lemma_net_delta_decreases(n, h);
    lemma_net_delta_concat(
        Seq::new(n, |i: int| RefOp::Increase(h)),
        Seq::new(n, |i: int| RefOp::Decrease(h)),
        h,
    );
}

} // verus!
