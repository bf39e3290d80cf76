//! The ordered event queue between producer and consumer.
//!
//! Translated events are appended on the producer side and drained in FIFO
//! order on the consumer side; the queue never reorders or coalesces, and an
//! idle translation result still occupies its ordering slot. The queue
//! models the in-process channel; the cross-thread transport around it is an
//! unverified concern of the host.

use vstd::prelude::*;

use crate::events::Events;

verus! {

/// An unbounded FIFO queue of semantic events.
#[derive(Debug, Clone, PartialEq, Eq)]
pub struct EventQueue {
    /// The buffered events, oldest first.
    pub items: Vec<Events>,
}

impl EventQueue {
    /// Creates an empty queue.
    pub fn new() -> (q: Self)
        ensures
            q@ == Seq::<Events>::empty(),
    {
        EventQueue { items: Vec::new() }
    }

    /// Appends one event at the back.
    pub fn push(&mut self, event: Events)
        ensures
            final(self)@ == old(self)@.push(event),
    {
        self.items.push(event);
    }

    /// Removes and returns the oldest event, or nothing if the queue is
    /// momentarily empty.
    pub fn pop(&mut self) -> (r: Option<Events>)
        ensures
            old(self)@.len() == 0 ==> r is None && final(self)@ == old(self)@,
            old(self)@.len() > 0 ==> r == Some(old(self)@[0]) && final(self)@ == old(
                self,
            )@.drop_first(),
    {
        if self.items.len() == 0 {
            None
        } else {
            let e = self.items.remove(0);
            assert(self.items@ =~= old(self)@.drop_first());
            Some(e)
        }
    }

    /// The number of buffered events.
    pub fn len(&self) -> (n: usize)
        ensures
            n == self@.len(),
    {
        self.items.len()
    }

    /// Whether the queue is momentarily empty.
    pub fn is_empty(&self) -> (b: bool)
        ensures
            b == (self@.len() == 0),
    {
        self.items.len() == 0
    }
}

impl View for EventQueue {
    type V = Seq<Events>;

    /// The queue's contents, oldest first.
    open spec fn view(&self) -> Seq<Events> {
        self.items@
    }
}

/// FIFO ordering: events leave the queue in exactly the order they entered.
/// Each drain removes the front, so after `i` drains the contents are
/// `q.skip(i)` and the next drain returns `q[i]` — the `i`-th event drained
/// is the `i`-th event enqueued, even when it is the idle event, which
/// occupies its ordering slot like any other.
pub proof fn lemma_fifo_order(q: Seq<Events>, i: int)
    requires
        0 <= i < q.len(),
    ensures
        q.skip(i)[0] == q[i],
        q.skip(i).drop_first() == q.skip(i + 1),
{
    assert(q.skip(i).drop_first() =~= q.skip(i + 1));
}

/// Appending never disturbs what is already buffered: after a push, every
/// previously buffered event keeps its position, and the new event sits at
/// the back.
pub proof fn lemma_push_preserves_order(q: Seq<Events>, e: Events)
    ensures
        q.push(e).len() == q.len() + 1,
        forall|i: int| 0 <= i < q.len() ==> q.push(e)[i] == q[i],
        q.push(e)[q.len() as int] == e,
{
}

} // verus!
