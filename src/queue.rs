//! The per-frame event buffer: arrivals append, the frame loop drains the whole
//! batch at once.

use vstd::prelude::*;

verus! {

/// The queue after `event` arrives.
pub open spec fn queue_push<T>(pending: Seq<T>, event: T) -> Seq<T> {
    pending.push(event)
}

/// The queue after each of `events` arrives, in order.
pub open spec fn queue_push_all<T>(pending: Seq<T>, events: Seq<T>) -> Seq<T>
    decreases events.len(),
{
    if events.len() == 0 {
        pending
    } else {
        queue_push_all(queue_push(pending, events[0]), events.drop_first())
    }
}

/// A drain: the batch handed out and what the queue holds afterwards.
pub open spec fn queue_drain<T>(pending: Seq<T>) -> (Seq<T>, Seq<T>) {
    (pending, Seq::empty())
}

/// Events appended between frames, handed out one whole batch per drain.
///
/// A drain moves everything pending into a working buffer, which stays readable
/// until the next drain; events that arrive later wait for the next drain.
pub struct EventQueue<T> {
    pending: Vec<T>,
    batch: Vec<T>,
}

impl<T> View for EventQueue<T> {
    type V = Seq<T>;

    closed spec fn view(&self) -> Seq<T> {
        self.pending@
    }
}

impl<T> EventQueue<T> {
    /// An empty queue.
    pub fn new() -> (r: EventQueue<T>)
        ensures
            r@ == Seq::<T>::empty(),
    {
        EventQueue { pending: Vec::new(), batch: Vec::new() }
    }

    /// Appends an event behind those already pending.
    pub fn push(&mut self, event: T)
        ensures
            final(self)@ == queue_push(old(self)@, event),
    {
        self.pending.push(event);
    }

    /// Number of pending events.
    pub fn len(&self) -> (r: usize)
        ensures
            r == self@.len(),
    {
        self.pending.len()
    }

    /// Takes every pending event, in arrival order, and leaves the queue empty.
    pub fn drain(&mut self) -> (r: &[T])
        ensures
            (r@, final(self)@) == queue_drain(old(self)@),
    {
        self.batch.clear();
        std::mem::swap(&mut self.pending, &mut self.batch);
        self.batch.as_slice()
    }
}

proof fn lemma_push_all_appends<T>(pending: Seq<T>, events: Seq<T>)
    ensures
        queue_push_all(pending, events) == pending + events,
    decreases events.len(),
{
    if events.len() > 0 {
        lemma_push_all_appends(pending.push(events[0]), events.drop_first());
        assert(pending.push(events[0]) + events.drop_first() =~= pending + events);
    }
}

/// Drains are atomic: from an empty queue, pushing `first`, draining, pushing
/// `second` and draining again hands out exactly `first`, then exactly `second`,
/// each in push order, and leaves the queue empty; no event is split off into
/// the other batch.
pub proof fn lemma_drain_batches<T>(first: Seq<T>, second: Seq<T>)
    ensures
        ({
            let (batch1, rest1) = queue_drain(queue_push_all(Seq::<T>::empty(), first));
            let (batch2, rest2) = queue_drain(queue_push_all(rest1, second));
            batch1 == first && batch2 == second && rest2 == Seq::<T>::empty()
        }),
{
    lemma_push_all_appends(Seq::<T>::empty(), first);
    lemma_push_all_appends(Seq::<T>::empty(), second);
    assert(Seq::<T>::empty() + first =~= first);
    assert(Seq::<T>::empty() + second =~= second);
}

} // verus!
