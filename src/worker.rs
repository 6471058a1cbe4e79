//! The worker side of the session: it announces Ready, takes the surface once,
//! buffers events for its frame loop, and reports Close once when it ends.

use vstd::prelude::*;
use crate::controller::{MainPhase, MainState, handover_message, main_after, main_run, main_step};
use crate::envelope::{ControlSignal, Delivery, Envelope, ProtocolError};
use crate::frame::{FrameState, FrameTimer};
use crate::pacer::{MAX_CLOCK_US, PacerState, period_of, rate_accepted};
use crate::queue::{queue_drain, queue_push};

verus! {

/// The abstract state of a worker.
pub struct WorkerState<S, T> {
    /// The surface, once it has arrived.
    pub surface: Option<S>,
    /// The frame loop: pacer and pending events.
    pub frames: FrameState<T>,
    /// Whether Close has been reported.
    pub closed: bool,
}

impl<S, T> WorkerState<S, T> {
    pub open spec fn wf(self) -> bool {
        self.frames.wf()
    }
}

/// The worker after a message from the controller, or the breach it reveals: the
/// surface arrives once; an event joins those of the next frame; the worker takes
/// no control signal.
pub open spec fn worker_receive<S, T>(
    w: WorkerState<S, T>,
    env: Envelope<ControlSignal, Delivery<S, T>>,
) -> Result<WorkerState<S, T>, ProtocolError> {
    match env {
        Envelope::Payload(Delivery::Surface(s)) => if w.surface is Some {
            Err(ProtocolError::DuplicateSurface)
        } else {
            Ok(WorkerState { surface: Some(s), ..w })
        },
        Envelope::Payload(Delivery::Event(e)) => Ok(
            WorkerState {
                frames: FrameState { pending: queue_push(w.frames.pending, e), ..w.frames },
                ..w
            },
        ),
        _ => Err(ProtocolError::UnexpectedSignal),
    }
}

/// The signal a shutdown emits: Close the first time, nothing after.
pub open spec fn close_signal(closed: bool) -> Option<ControlSignal> {
    if closed {
        None
    } else {
        Some(ControlSignal::Close)
    }
}

/// The signals that `n` successive shutdowns emit.
pub open spec fn close_signals(closed: bool, n: nat) -> Seq<ControlSignal>
    decreases n,
{
    if n == 0 {
        Seq::empty()
    } else {
        let first: Seq<ControlSignal> = match close_signal(closed) {
            Some(c) => seq![c],
            None => Seq::empty(),
        };
        first + close_signals(true, (n - 1) as nat)
    }
}

/// The worker's session.
pub struct EngineWorker<S, T> {
    surface: Option<S>,
    frames: FrameTimer<T>,
    closed: bool,
}

impl<S, T> View for EngineWorker<S, T> {
    type V = WorkerState<S, T>;

    closed spec fn view(&self) -> WorkerState<S, T> {
        WorkerState { surface: self.surface, frames: self.frames@, closed: self.closed }
    }
}

impl<S, T> EngineWorker<S, T> {
    /// A session pacing frames at `frame_rate` per second from `now_us`, with no
    /// surface yet, and the Ready message that must be sent to the controller.
    pub fn new<K>(frame_rate: usize, now_us: u64) -> (r: (EngineWorker<S, T>, Envelope<
        ControlSignal,
        K,
    >))
        requires
            rate_accepted(frame_rate as int),
            now_us <= MAX_CLOCK_US,
        ensures
            r.0@.wf(),
            r.0@.surface is None,
            !r.0@.closed,
            r.0@.frames.pacer == (PacerState {
                period: period_of(frame_rate as int) as nat,
                last_tick: now_us as nat,
            }),
            r.0@.frames.pending == Seq::<T>::empty(),
            r.1 == Envelope::<ControlSignal, K>::Control(ControlSignal::Ready),
    {
        let w = EngineWorker { surface: None, frames: FrameTimer::new(frame_rate, now_us), closed: false };
        (w, Envelope::Control(ControlSignal::Ready))
    }

    /// Handles one message from the controller. A breach leaves the session as it
    /// was.
    pub fn receive(&mut self, env: Envelope<ControlSignal, Delivery<S, T>>) -> (r: Result<
        (),
        ProtocolError,
    >)
        ensures
            match worker_receive(old(self)@, env) {
                Ok(w) => r is Ok && final(self)@ == w,
                Err(e) => r == Err::<(), ProtocolError>(e) && final(self)@ == old(self)@,
            },
    {
        match env {
            Envelope::Payload(Delivery::Surface(s)) => {
                if self.surface.is_some() {
                    return Err(ProtocolError::DuplicateSurface);
                }
                self.surface = Some(s);
                Ok(())
            },
            Envelope::Payload(Delivery::Event(e)) => {
                self.frames.push(e);
                Ok(())
            },
            _ => Err(ProtocolError::UnexpectedSignal),
        }
    }

    /// Restarts the frame count from `now_us`, for a loop that begins once the
    /// surface has arrived.
    pub fn restart_pacing(&mut self, now_us: u64)
        requires
            now_us <= MAX_CLOCK_US,
        ensures
            final(self)@ == (WorkerState {
                frames: FrameState {
                    pacer: PacerState { last_tick: now_us as nat, ..old(self)@.frames.pacer },
                    ..old(self)@.frames
                },
                ..old(self)@
            }),
    {
        self.frames.restart(now_us);
    }

    /// Whether the surface has arrived, which ends the handshake on this side.
    pub fn is_ready(&self) -> (r: bool)
        ensures
            r == self@.surface is Some,
    {
        self.surface.is_some()
    }

    /// The surface, once it has arrived; it is lent, never handed on.
    pub fn canvas(&self) -> (r: Option<&S>)
        ensures
            r is Some <==> self@.surface is Some,
            r matches Some(s) ==> self@.surface == Some(*s),
    {
        self.surface.as_ref()
    }

    /// Frames a payload for the controller.
    pub fn post_message<K>(&mut self, val: K) -> (r: Envelope<ControlSignal, K>)
        ensures
            r == Envelope::<ControlSignal, K>::Payload(val),
            final(self)@ == old(self)@,
    {
        Envelope::Payload(val)
    }

    /// Milliseconds the frame loop suspends when a cycle starts at `now_us`.
    pub fn frame_delay(&self, now_us: u64) -> (r: u64)
        requires
            self@.wf(),
        ensures
            r == self@.frames.pacer.delay(now_us as nat),
    {
        self.frames.delay_ms(now_us)
    }

    /// Ends the frame cycle at `now_us`, read after the suspension, and hands out
    /// every event that arrived since the previous frame, in arrival order.
    pub fn next(&mut self, now_us: u64) -> (r: &[T])
        requires
            old(self)@.wf(),
            now_us <= MAX_CLOCK_US,
        ensures
            final(self)@.wf(),
            final(self)@.frames.pacer == old(self)@.frames.pacer.completed(now_us as nat),
            (r@, final(self)@.frames.pending) == queue_drain(old(self)@.frames.pending),
            final(self)@.surface == old(self)@.surface,
            final(self)@.closed == old(self)@.closed,
    {
        self.frames.next(now_us)
    }

    /// Shuts the session down: the first call yields the Close message for the
    /// controller, every later call yields nothing.
    pub fn close<K>(&mut self) -> (r: Option<Envelope<ControlSignal, K>>)
        ensures
            r == match close_signal(old(self)@.closed) {
                Some(c) => Some(Envelope::<ControlSignal, K>::Control(c)),
                None => None,
            },
            final(self)@ == (WorkerState { closed: true, ..old(self)@ }),
    {
        if self.closed {
            None
        } else {
            self.closed = true;
            Some(Envelope::Control(ControlSignal::Close))
        }
    }
}

proof fn lemma_closed_stays_closed(signals: Seq<Option<ControlSignal>>)
    ensures
        main_run(MainPhase::Closed, signals) is Ok ==> main_run(MainPhase::Closed, signals)
            == Ok::<MainPhase, ProtocolError>(MainPhase::Closed),
    decreases signals.len(),
{
    if signals.len() > 0 {
        lemma_closed_stays_closed(signals.drop_first());
    }
}

/// Shutdown is idempotent: however many times a worker is shut down, at most one
/// Close is emitted, exactly one if it was not shut down before. That one Close moves
/// a running controller to its closed phase, where every later run without breach
/// leaves it, so waiting for the worker ends whenever it starts.
pub proof fn lemma_single_close(closed: bool, n: nat, later: Seq<Option<ControlSignal>>)
    ensures
        close_signals(closed, n).len() <= 1,
        !closed && n > 0 ==> close_signals(closed, n) == seq![ControlSignal::Close],
        closed ==> close_signals(closed, n) == Seq::<ControlSignal>::empty(),
        main_run(MainPhase::Running, seq![Some(ControlSignal::Close)]) == Ok::<
            MainPhase,
            ProtocolError,
        >(MainPhase::Closed),
        main_run(MainPhase::Closed, later) is Ok ==> main_run(MainPhase::Closed, later) == Ok::<
            MainPhase,
            ProtocolError,
        >(MainPhase::Closed),
    decreases n,
{
    if n > 0 {
        lemma_single_close(true, (n - 1) as nat, later);
        assert(Seq::<ControlSignal>::empty() + close_signals(true, (n - 1) as nat) =~= close_signals(true, (n - 1) as nat));
        assert(seq![ControlSignal::Close] + Seq::<ControlSignal>::empty() =~= seq![ControlSignal::Close]);
    }
    let one = seq![Some(ControlSignal::Close)];
    assert(one.drop_first() =~= Seq::<Option<ControlSignal>>::empty());
    assert(main_run(MainPhase::Closed, one.drop_first()) == Ok::<MainPhase, ProtocolError>(
        MainPhase::Closed,
    ));
    assert(main_step(MainPhase::Running, one[0]) == Ok::<MainPhase, ProtocolError>(
        MainPhase::Closed,
    ));
    lemma_closed_stays_closed(later);
}

/// The worker takes the surface once: a worker without one that receives the
/// surface holds exactly it, and any later message that brings another surface is
/// refused as a breach.
pub proof fn lemma_single_surface<S, T>(w: WorkerState<S, T>, surface: S, later: S)
    requires
        w.surface is None,
    ensures
        worker_receive(w, Envelope::Payload(Delivery::Surface(surface))) is Ok,
        worker_receive(w, Envelope::Payload(Delivery::Surface(surface)))->Ok_0.surface == Some(
            surface,
        ),
        worker_receive(
            worker_receive(w, Envelope::Payload(Delivery::Surface(surface)))->Ok_0,
            Envelope::Payload(Delivery::Surface(later)),
        ) == Err::<WorkerState<S, T>, ProtocolError>(ProtocolError::DuplicateSurface),
{
}

/// The surface is valid on exactly one side at a time: a controller waiting for
/// Ready holds it and a fresh worker does not; the step on Ready leaves the
/// controller without it and yields the message that moves it; once the worker has
/// received that message it holds this very surface and the controller does not, and
/// the worker refuses any second surface.
pub proof fn lemma_exactly_once_transfer<S, T>(c: MainState<S>, w: WorkerState<S, T>, other: S)
    requires
        c.wf(),
        c.phase == MainPhase::AwaitingReady,
        w.surface is None,
    ensures
        c.surface is Some,
        ({
            let c2 = main_after(c, Some(ControlSignal::Ready));
            let moved = worker_receive(w, handover_message::<S, T>(c.surface->Some_0));
            &&& c2.wf()
            &&& c2.surface is None
            &&& moved is Ok
            &&& moved->Ok_0.surface == c.surface
            &&& worker_receive(moved->Ok_0, handover_message::<S, T>(other)) == Err::<
                WorkerState<S, T>,
                ProtocolError,
            >(ProtocolError::DuplicateSurface)
        }),
{
}

/// The worker after receiving each of `events`, in order, as event messages.
pub open spec fn worker_receive_events<S, T>(w: WorkerState<S, T>, events: Seq<T>) -> Result<
    WorkerState<S, T>,
    ProtocolError,
>
    decreases events.len(),
{
    if events.len() == 0 {
        Ok(w)
    } else {
        match worker_receive(w, Envelope::Payload(Delivery::Event(events[0]))) {
            Ok(w2) => worker_receive_events(w2, events.drop_first()),
            Err(e) => Err(e),
        }
    }
}

proof fn lemma_events_append<S, T>(w: WorkerState<S, T>, events: Seq<T>)
    ensures
        worker_receive_events(w, events) == Ok::<WorkerState<S, T>, ProtocolError>(
            WorkerState {
                frames: FrameState { pending: w.frames.pending + events, ..w.frames },
                ..w
            },
        ),
    decreases events.len(),
{
    if events.len() > 0 {
        let w2 = WorkerState {
            frames: FrameState { pending: w.frames.pending.push(events[0]), ..w.frames },
            ..w
        };
        lemma_events_append(w2, events.drop_first());
        assert(w.frames.pending.push(events[0]) + events.drop_first() =~= w.frames.pending
            + events);
    } else {
        assert(w.frames.pending + events =~= w.frames.pending);
    }
}

/// Frame batches on the worker: events received after a drain, in any number, are
/// exactly what the next drain hands out, in arrival order; events received after
/// that drain are exactly the following batch, never split across the two; the
/// surface and the pacer are untouched by event messages.
pub proof fn lemma_worker_frame_batches<S, T>(w: WorkerState<S, T>, first: Seq<T>, second: Seq<T>)
    requires
        w.frames.pending == Seq::<T>::empty(),
    ensures
        worker_receive_events(w, first) is Ok,
        ({
            let w1 = worker_receive_events(w, first)->Ok_0;
            let (batch1, rest1) = queue_drain(w1.frames.pending);
            let w2 = WorkerState { frames: FrameState { pending: rest1, ..w1.frames }, ..w1 };
            let w3 = worker_receive_events(w2, second)->Ok_0;
            let (batch2, rest2) = queue_drain(w3.frames.pending);
            &&& w1.surface == w.surface
            &&& w1.frames.pacer == w.frames.pacer
            &&& batch1 == first
            &&& worker_receive_events(w2, second) is Ok
            &&& batch2 == second
            &&& rest2 == Seq::<T>::empty()
        }),
{
    lemma_events_append(w, first);
    assert(Seq::<T>::empty() + first =~= first);
    let w1 = worker_receive_events(w, first)->Ok_0;
    let w2 = WorkerState { frames: FrameState { pending: Seq::<T>::empty(), ..w1.frames }, ..w1 };
    lemma_events_append(w2, second);
    assert(Seq::<T>::empty() + second =~= second);
}

} // verus!
