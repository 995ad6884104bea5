//! A single-slot queue: the one channel between a waiting task and the
//! interrupt handler that wakes it.
//!
//! The queue has capacity one, allocates nothing and never blocks.  The task
//! side enqueues, the interrupt side dequeues.  A value enqueued while another
//! is still waiting replaces it.

use vstd::prelude::*;

verus! {

/// Single-slot queue.  Its view is the value it holds, if any.
pub struct SingleSlotQueue<T> {
    slot: Option<T>,
}

impl<T> View for SingleSlotQueue<T> {
    type V = Option<T>;

    closed spec fn view(&self) -> Option<T> {
        self.slot
    }
}

impl<T> SingleSlotQueue<T> {
    /// An empty queue.
    pub fn new() -> (queue: Self)
        ensures
            queue@ is None,
    {
        SingleSlotQueue { slot: None }
    }

    /// Store `val` in the slot.  A value that was stored before and never
    /// taken is dropped.
    pub fn enqueue(&mut self, val: T)
        ensures
            final(self)@ == after_enqueue(old(self)@, val),
            final(self)@ == Some(val),
    {
        self.slot = Some(val);
    }

    /// Take the value out of the slot, leaving the slot empty.
    pub fn dequeue(&mut self) -> (val: Option<T>)
        ensures
            (val, final(self)@) == after_dequeue(old(self)@),
            val == old(self)@,
            final(self)@ is None,
    {
        self.slot.take()
    }

    /// Whether the slot holds no value.
    pub fn is_empty(&self) -> (empty: bool)
        ensures
            empty == (self@ is None),
    {
        self.slot.is_none()
    }
}

/// What the slot holds after `val` is enqueued: `val`, whatever it held.
pub open spec fn after_enqueue<T>(slot: Option<T>, val: T) -> Option<T> {
    Some(val)
}

/// What a dequeue yields from `slot`, and what it leaves behind.
pub open spec fn after_dequeue<T>(slot: Option<T>) -> (Option<T>, Option<T>) {
    (slot, None)
}

/// Of two values enqueued in a row, a dequeue yields the second only; the
/// first is gone, and a further dequeue yields nothing.
pub proof fn lemma_enqueue_replaces<T>(slot: Option<T>, first: T, second: T)
    ensures
        after_dequeue(after_enqueue(after_enqueue(slot, first), second)).0 == Some(second),
        after_dequeue(after_dequeue(after_enqueue(after_enqueue(slot, first), second)).1).0
            is None,
{
}

/// A dequeue from an empty slot yields nothing and leaves the slot empty, so
/// it can be repeated with the same outcome.
pub proof fn lemma_dequeue_empty_repeatable<T>(slot: Option<T>)
    requires
        slot is None,
    ensures
        after_dequeue(slot).0 is None,
        after_dequeue(slot).1 is None,
        after_dequeue(after_dequeue(slot).1) == after_dequeue(slot),
{
}

} // verus!
