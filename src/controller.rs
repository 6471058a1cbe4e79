//! The controller side of the session: it holds the render surface until the
//! worker reports Ready, hands it over exactly once, and watches for Close.

use vstd::prelude::*;
use std::marker::PhantomData;
use crate::envelope::{ControlSignal, Delivery, Envelope, ProtocolError};

verus! {

/// Where the controller stands in the handshake.
#[derive(Clone, Copy, Debug, PartialEq, Eq, Structural)]
pub enum MainPhase {
    /// Holding the surface, waiting for the worker's Ready.
    AwaitingReady,
    /// Surface handed over; payloads flow both ways.
    Running,
    /// The worker has reported Close.
    Closed,
}

/// The phase after a message whose control slot is `signal`, or the breach it reveals.
pub open spec fn main_step(phase: MainPhase, signal: Option<ControlSignal>) -> Result<
    MainPhase,
    ProtocolError,
> {
    match signal {
        None => Ok(phase),
        Some(ControlSignal::Ready) => match phase {
            MainPhase::AwaitingReady => Ok(MainPhase::Running),
            _ => Err(ProtocolError::DuplicateReady),
        },
        Some(ControlSignal::Close) => match phase {
            MainPhase::AwaitingReady => Err(ProtocolError::CloseBeforeReady),
            MainPhase::Running => Ok(MainPhase::Closed),
            MainPhase::Closed => Err(ProtocolError::DuplicateClose),
        },
    }
}

/// Whether the step on `signal` in `phase` hands the surface over.
pub open spec fn hands_over(phase: MainPhase, signal: Option<ControlSignal>) -> bool {
    phase == MainPhase::AwaitingReady && signal == Some(ControlSignal::Ready)
}

/// The phase after a sequence of control slots, or the first breach.
pub open spec fn main_run(phase: MainPhase, signals: Seq<Option<ControlSignal>>) -> Result<
    MainPhase,
    ProtocolError,
>
    decreases signals.len(),
{
    if signals.len() == 0 {
        Ok(phase)
    } else {
        match main_step(phase, signals[0]) {
            Ok(p) => main_run(p, signals.drop_first()),
            Err(e) => Err(e),
        }
    }
}

/// How many steps of a run hand the surface over, up to the first breach.
pub open spec fn handovers(phase: MainPhase, signals: Seq<Option<ControlSignal>>) -> nat
    decreases signals.len(),
{
    if signals.len() == 0 {
        0
    } else {
        match main_step(phase, signals[0]) {
            Ok(p) => (if hands_over(phase, signals[0]) {
                1nat
            } else {
                0nat
            }) + handovers(p, signals.drop_first()),
            Err(_) => 0,
        }
    }
}

/// The abstract state of a controller.
pub struct MainState<S> {
    pub phase: MainPhase,
    pub surface: Option<S>,
}

impl<S> MainState<S> {
    /// The controller holds the surface exactly while it waits for Ready.
    pub open spec fn wf(self) -> bool {
        self.surface is Some <==> self.phase == MainPhase::AwaitingReady
    }
}

/// The controller after a message whose control slot is `signal`, where that step
/// is no breach: the step that hands the surface over leaves the controller without it.
pub open spec fn main_after<S>(c: MainState<S>, signal: Option<ControlSignal>) -> MainState<S> {
    MainState {
        phase: main_step(c.phase, signal)->Ok_0,
        surface: if hands_over(c.phase, signal) {
            None
        } else {
            c.surface
        },
    }
}

/// The message that moves `surface` to the worker: an empty control slot and the
/// surface in the payload slot.
pub open spec fn handover_message<S, T>(surface: S) -> Envelope<ControlSignal, Delivery<S, T>> {
    Envelope::Payload(Delivery::Surface(surface))
}

/// What one message from the worker yields for the controller's host.
pub struct Inbound<S, T, K> {
    /// The message that moves the surface to the worker, to be sent now.
    pub transfer: Option<Envelope<ControlSignal, Delivery<S, T>>>,
    /// A payload for the stream of worker messages.
    pub payload: Option<K>,
}

/// The controller's session; it sends events of type `T` to the worker.
pub struct EngineMain<S, T> {
    phase: MainPhase,
    surface: Option<S>,
    events: PhantomData<T>,
}

impl<S, T> View for EngineMain<S, T> {
    type V = MainState<S>;

    closed spec fn view(&self) -> MainState<S> {
        MainState { phase: self.phase, surface: self.surface }
    }
}

impl<S, T> EngineMain<S, T> {
    /// A session that holds `surface` and waits for the worker's Ready.
    pub fn new(surface: S) -> (r: EngineMain<S, T>)
        ensures
            r@ == (MainState { phase: MainPhase::AwaitingReady, surface: Some(surface) }),
            r@.wf(),
    {
        EngineMain { phase: MainPhase::AwaitingReady, surface: Some(surface), events: PhantomData }
    }

    /// The current phase.
    pub fn phase(&self) -> (r: MainPhase)
        ensures
            r == self@.phase,
    {
        self.phase
    }

    /// Whether the surface is still here.
    pub fn holds_surface(&self) -> (r: bool)
        ensures
            r == self@.surface is Some,
    {
        self.surface.is_some()
    }

    /// Handles one message from the worker. Ready while waiting yields the message
    /// that moves the surface to the worker; Close while running ends the session; a
    /// payload is passed on. A signal out of order is a breach, and leaves the
    /// session as it was.
    pub fn receive<K>(&mut self, env: Envelope<ControlSignal, K>) -> (r: Result<
        Inbound<S, T, K>,
        ProtocolError,
    >)
        requires
            old(self)@.wf(),
        ensures
            final(self)@.wf(),
            match main_step(old(self)@.phase, env.control()) {
                Ok(p) => r matches Ok(inbound) && final(self)@ == main_after(
                    old(self)@,
                    env.control(),
                ) && inbound.payload == env.payload() && inbound.transfer == if hands_over(
                    old(self)@.phase,
                    env.control(),
                ) {
                    Some(handover_message::<S, T>(old(self)@.surface->Some_0))
                } else {
                    None
                },
                Err(e) => r matches Err(x) && x == e && final(self)@ == old(self)@,
            },
    {
        let (control, payload) = env.into_slots();
        match control {
            None => Ok(Inbound { transfer: None, payload }),
            Some(ControlSignal::Ready) => match self.phase {
                MainPhase::AwaitingReady => {
                    self.phase = MainPhase::Running;
                    match self.surface.take() {
                        Some(s) => Ok(
                            Inbound { transfer: Some(Envelope::Payload(Delivery::Surface(s))), payload },
                        ),
                        None => Ok(Inbound { transfer: None, payload }),
                    }
                },
                _ => Err(ProtocolError::DuplicateReady),
            },
            Some(ControlSignal::Close) => match self.phase {
                MainPhase::AwaitingReady => Err(ProtocolError::CloseBeforeReady),
                MainPhase::Running => {
                    self.phase = MainPhase::Closed;
                    Ok(Inbound { transfer: None, payload })
                },
                MainPhase::Closed => Err(ProtocolError::DuplicateClose),
            },
        }
    }

    /// Frames an event for the worker. Sending never fails and is never refused:
    /// after Close the message is simply not delivered.
    pub fn send_event(&mut self, val: T) -> (r: Envelope<ControlSignal, Delivery<S, T>>)
        ensures
            r == Envelope::<ControlSignal, Delivery<S, T>>::Payload(Delivery::Event(val)),
            final(self)@ == old(self)@,
    {
        Envelope::Payload(Delivery::Event(val))
    }

    /// Ends the session once the worker has reported Close; before that the
    /// session is handed back unchanged and the caller keeps waiting.
    pub fn join(self) -> (r: Result<(), EngineMain<S, T>>)
        ensures
            r is Ok <==> self@.phase == MainPhase::Closed,
            r matches Err(s) ==> s@ == self@,
    {
        match self.phase {
            MainPhase::Closed => Ok(()),
            _ => Err(self),
        }
    }
}

proof fn lemma_never_awaiting_again(phase: MainPhase, signals: Seq<Option<ControlSignal>>)
    requires
        phase != MainPhase::AwaitingReady,
    ensures
        main_run(phase, signals) != Ok::<MainPhase, ProtocolError>(MainPhase::AwaitingReady),
        handovers(phase, signals) == 0,
    decreases signals.len(),
{
    if signals.len() > 0 {
        if let Ok(p) = main_step(phase, signals[0]) {
            lemma_never_awaiting_again(p, signals.drop_first());
        }
    }
}

proof fn lemma_awaiting_until_ready(signals: Seq<Option<ControlSignal>>)
    ensures
        main_run(MainPhase::AwaitingReady, signals) == Ok::<MainPhase, ProtocolError>(
            MainPhase::AwaitingReady,
        ) <==> forall|j: int| 0 <= j < signals.len() ==> signals[j] == None::<ControlSignal>,
        handovers(MainPhase::AwaitingReady, signals) <= 1,
        main_run(MainPhase::AwaitingReady, signals) matches Ok(p) ==> (p
            == MainPhase::AwaitingReady <==> handovers(MainPhase::AwaitingReady, signals) == 0),
    decreases signals.len(),
{
    if signals.len() > 0 {
        let rest = signals.drop_first();
        lemma_awaiting_until_ready(rest);
        if signals[0] == Some(ControlSignal::Ready) {
            lemma_never_awaiting_again(MainPhase::Running, rest);
        }
        if main_run(MainPhase::AwaitingReady, signals) == Ok::<MainPhase, ProtocolError>(
            MainPhase::AwaitingReady,
        ) {
            assert forall|j: int| 0 <= j < signals.len() implies signals[j] == None::<
                ControlSignal,
            > by {
                if j > 0 {
                    assert(signals[j] == rest[j - 1]);
                }
            }
        }
        if forall|j: int| 0 <= j < signals.len() ==> signals[j] == None::<ControlSignal> {
            assert(signals[0] == None::<ControlSignal>);
            assert forall|j: int| 0 <= j < rest.len() implies rest[j] == None::<
                ControlSignal,
            > by {
                assert(rest[j] == signals[j + 1]);
            }
        }
    }
}

/// Payloads never release the handshake: a fresh controller that receives any
/// number of messages without a control signal stays waiting for Ready, still
/// holding the surface, and hands nothing over.
pub proof fn lemma_payloads_keep_waiting(signals: Seq<Option<ControlSignal>>)
    requires
        forall|j: int| 0 <= j < signals.len() ==> signals[j] == None::<ControlSignal>,
    ensures
        main_run(MainPhase::AwaitingReady, signals) == Ok::<MainPhase, ProtocolError>(
            MainPhase::AwaitingReady,
        ),
        handovers(MainPhase::AwaitingReady, signals) == 0,
{
    lemma_awaiting_until_ready(signals);
}

/// Handshake ordering: in any run of messages reaching a fresh controller, the step
/// at `i` hands the surface over exactly when it delivers Ready and no earlier step
/// delivered any signal; no handover comes before Ready.
pub proof fn lemma_handover_follows_ready(signals: Seq<Option<ControlSignal>>, i: int)
    requires
        0 <= i < signals.len(),
        main_run(MainPhase::AwaitingReady, signals.take(i)) is Ok,
    ensures
        ({
            let p = main_run(MainPhase::AwaitingReady, signals.take(i))->Ok_0;
            hands_over(p, signals[i]) <==> signals[i] == Some(ControlSignal::Ready) && forall|
                j: int,
            |
                0 <= j < i ==> signals[j] == None::<ControlSignal>
        }),
{
    let prefix = signals.take(i);
    lemma_awaiting_until_ready(prefix);
    assert forall|j: int| 0 <= j < i implies prefix[j] == signals[j] by {}
}

/// The surface changes hands at most once: over any run from a fresh controller at
/// most one step hands it over, and a controller that has run without breach still
/// holds it, being still in the waiting phase, exactly when no step handed it over.
pub proof fn lemma_single_handover(signals: Seq<Option<ControlSignal>>)
    ensures
        handovers(MainPhase::AwaitingReady, signals) <= 1,
        main_run(MainPhase::AwaitingReady, signals) matches Ok(p) ==> (p
            == MainPhase::AwaitingReady <==> handovers(MainPhase::AwaitingReady, signals) == 0),
{
    lemma_awaiting_until_ready(signals);
}

} // verus!
