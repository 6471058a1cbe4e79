//! The frame-loop primitive: a pacer and an event queue driven together.

use vstd::prelude::*;
use crate::pacer::{FramePacer, MAX_CLOCK_US, PacerState, period_of, rate_accepted};
use crate::queue::{EventQueue, queue_drain, queue_push};

verus! {

/// The abstract state of a frame loop: its pacer and the events waiting for the
/// next frame.
pub struct FrameState<T> {
    pub pacer: PacerState,
    pub pending: Seq<T>,
}

impl<T> FrameState<T> {
    pub open spec fn wf(self) -> bool {
        self.pacer.wf()
    }
}

/// A frame loop fed with events between frames.
///
/// Each cycle the host suspends for [`FrameTimer::delay_ms`] milliseconds and
/// then calls [`FrameTimer::next`], which ends the cycle and hands out every event
/// that arrived since the previous frame.
pub struct FrameTimer<T> {
    pacer: FramePacer,
    queue: EventQueue<T>,
}

impl<T> View for FrameTimer<T> {
    type V = FrameState<T>;

    closed spec fn view(&self) -> FrameState<T> {
        FrameState { pacer: self.pacer@, pending: self.queue@ }
    }
}

impl<T> FrameTimer<T> {
    /// A frame loop at `frame_rate` frames per second whose first cycle counts from
    /// `now_us`, with no events pending.
    pub fn new(frame_rate: usize, now_us: u64) -> (r: FrameTimer<T>)
        requires
            rate_accepted(frame_rate as int),
            now_us <= MAX_CLOCK_US,
        ensures
            r@.wf(),
            r@.pacer == (PacerState {
                period: period_of(frame_rate as int) as nat,
                last_tick: now_us as nat,
            }),
            r@.pending == Seq::<T>::empty(),
    {
        FrameTimer { pacer: FramePacer::new(frame_rate, now_us), queue: EventQueue::new() }
    }

    /// Records an event for the next frame.
    pub fn push(&mut self, event: T)
        ensures
            final(self)@ == (FrameState {
                pending: queue_push(old(self)@.pending, event),
                ..old(self)@
            }),
    {
        self.queue.push(event);
    }

    /// The frame period in milliseconds.
    pub fn period(&self) -> (r: u64)
        ensures
            r == self@.pacer.period,
    {
        self.pacer.period()
    }

    /// Restarts the pacing count from `now_us`; pending events stay.
    pub fn restart(&mut self, now_us: u64)
        requires
            now_us <= MAX_CLOCK_US,
        ensures
            final(self)@ == (FrameState {
                pacer: PacerState { last_tick: now_us as nat, ..old(self)@.pacer },
                ..old(self)@
            }),
    {
        self.pacer.restart(now_us);
    }

    /// Milliseconds to suspend when a cycle starts at `now_us`.
    pub fn delay_ms(&self, now_us: u64) -> (r: u64)
        requires
            self@.wf(),
        ensures
            r == self@.pacer.delay(now_us as nat),
    {
        self.pacer.delay_ms(now_us)
    }

    /// Ends the cycle at `now_us`, read after the suspension, and hands out every
    /// event that arrived since the previous frame, in arrival order.
    pub fn next(&mut self, now_us: u64) -> (r: &[T])
        requires
            old(self)@.wf(),
            now_us <= MAX_CLOCK_US,
        ensures
            final(self)@.wf(),
            final(self)@.pacer == old(self)@.pacer.completed(now_us as nat),
            (r@, final(self)@.pending) == queue_drain(old(self)@.pending),
    {
        self.pacer.complete(now_us);
        self.queue.drain()
    }
}

} // verus!
