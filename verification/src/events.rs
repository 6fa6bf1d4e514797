//! The shared event queue: producers (interrupt handlers) append, the single
//! consumer (the scheduler) drains in FIFO order.

use std::collections::VecDeque;
use vstd::prelude::*;

use crate::Event;

verus! {

/// FIFO queue of board events.
///
/// Events are delivered in the order they were pushed; there is no priority
/// and no coalescing, so two identical events both queue and the consumer
/// sees both.
pub struct Events {
    queue: VecDeque<Event>,
}

impl Events {
    /// The queue as the sequence of pending events, oldest first.
    pub closed spec fn view(&self) -> Seq<Event> {
        self.queue@
    }

    /// Creates an empty queue.
    pub fn new() -> (r: Events)
        ensures
            r@ == Seq::<Event>::empty(),
    {
        Events { queue: VecDeque::new() }
    }

    /// Appends an event at the back of the queue.
    pub fn push(&mut self, event: Event)
        ensures
            final(self)@ == old(self)@.push(event),
    {
        self.queue.push_back(event);
    }

    /// Removes and returns the oldest pending event, or `None` when the
    /// queue is empty.
    pub fn pop(&mut self) -> (r: Option<Event>)
        ensures
            old(self)@.len() == 0 ==> r is None && final(self)@ == old(self)@,
            old(self)@.len() > 0 ==> r == Some(old(self)@[0]) && final(self)@ == old(self)@.drop_first(),
    {
        self.queue.pop_front()
    }

    /// Number of pending events.
    pub fn len(&self) -> (r: usize)
        ensures
            r == self@.len(),
    {
        self.queue.len()
    }
}

impl Default for Events {
    /// Creates an empty queue.
    fn default() -> (r: Events)
        ensures
            r@ == Seq::<Event>::empty(),
    {
        Events::new()
    }
}

/// Pop order equals push order: whatever is already queued, pushing `a` and
/// then `b` (possibly from two distinct interrupt occurrences) leaves `a`
/// right before `b`, so draining the queue yields `a` first.
pub proof fn lemma_fifo_order(q0: Seq<Event>, a: Event, b: Event)
    ensures
        q0.push(a).push(b)[q0.len() as int] == a,
        q0.push(a).push(b)[q0.len() as int + 1] == b,
        q0.push(a).push(b).skip(q0.len() as int) =~= seq![a, b],
{
}

} // verus!
