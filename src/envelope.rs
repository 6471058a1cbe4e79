//! The wire unit shared by both directions: a control slot and a payload slot,
//! at least one of them filled.

use vstd::prelude::*;
use vstd::string::StrSliceExecFns;

verus! {

/// Lifecycle tags sent from the worker to the controller.
#[derive(Clone, Copy, Debug, PartialEq, Eq, Structural)]
pub enum ControlSignal {
    /// The worker listens; the surface may be handed over.
    Ready,
    /// The worker's loop has ended.
    Close,
}

/// The text that carries a control signal on the wire.
pub open spec fn tag_of(signal: ControlSignal) -> Seq<char> {
    match signal {
        ControlSignal::Ready => seq!['r', 'e', 'a', 'd', 'y'],
        ControlSignal::Close => seq!['c', 'l', 'o', 's', 'e'],
    }
}

/// The signal that a wire text stands for, if any.
pub open spec fn signal_of_tag(text: Seq<char>) -> Option<ControlSignal> {
    if text == tag_of(ControlSignal::Ready) {
        Some(ControlSignal::Ready)
    } else if text == tag_of(ControlSignal::Close) {
        Some(ControlSignal::Close)
    } else {
        None
    }
}

/// Whether two texts hold the same characters.
fn same_text(a: &str, b: &str) -> (r: bool)
    ensures
        r == (a@ == b@),
{
    let n = a.unicode_len();
    if n != b.unicode_len() {
        return false;
    }
    let mut i: usize = 0;
    while i < n
        invariant
            n == a@.len(),
            n == b@.len(),
            i <= n,
            forall|j: int| 0 <= j < i ==> a@[j] == b@[j],
        decreases n - i,
    {
        if a.get_char(i) != b.get_char(i) {
            return false;
        }
        i = i + 1;
    }
    assert(a@ =~= b@);
    true
}

impl ControlSignal {
    /// The wire text of this signal.
    pub fn tag(&self) -> (r: &'static str)
        ensures
            r@ == tag_of(*self),
    {
        match self {
            ControlSignal::Ready => {
                proof {
                    reveal_strlit("ready");
                }
                "ready"
            },
            ControlSignal::Close => {
                proof {
                    reveal_strlit("close");
                }
                "close"
            },
        }
    }

    /// The signal a wire text stands for; `None` for any other text.
    pub fn from_tag(text: &str) -> (r: Option<ControlSignal>)
        ensures
            r == signal_of_tag(text@),
    {
        if same_text(text, ControlSignal::Ready.tag()) {
            Some(ControlSignal::Ready)
        } else if same_text(text, ControlSignal::Close.tag()) {
            Some(ControlSignal::Close)
        } else {
            None
        }
    }
}

/// Reading back the wire text of a signal gives that signal.
pub proof fn lemma_tag_round_trip(signal: ControlSignal)
    ensures
        signal_of_tag(tag_of(signal)) == Some(signal),
{
    assert(tag_of(ControlSignal::Ready) != tag_of(ControlSignal::Close)) by {
        assert(tag_of(ControlSignal::Ready)[0] != tag_of(ControlSignal::Close)[0]);
    }
}

/// A message with a control slot of type `C` and a payload slot of type `P`, at
/// least one of them filled.
///
/// Both directions carry `Envelope<ControlSignal, _>`: from the worker the payload
/// is an application value, from the controller a [`Delivery`].
#[derive(Debug)]
pub enum Envelope<C, P> {
    Control(C),
    Payload(P),
    Both(C, P),
}

/// The payload of a message from the controller to the worker, whose control slot
/// stays empty: the render surface, moved and never copied, or an event.
#[derive(Debug)]
pub enum Delivery<S, T> {
    Surface(S),
    Event(T),
}

/// The envelope with the given slots, or `None` where both are empty.
pub open spec fn envelope_of<C, P>(control: Option<C>, payload: Option<P>) -> Option<Envelope<C, P>> {
    match (control, payload) {
        (Some(c), Some(p)) => Some(Envelope::Both(c, p)),
        (Some(c), None) => Some(Envelope::Control(c)),
        (None, Some(p)) => Some(Envelope::Payload(p)),
        (None, None) => None,
    }
}

impl<C, P> Envelope<C, P> {
    /// The control slot.
    pub open spec fn control(self) -> Option<C> {
        match self {
            Envelope::Control(c) => Some(c),
            Envelope::Payload(_) => None,
            Envelope::Both(c, _) => Some(c),
        }
    }

    /// The payload slot.
    pub open spec fn payload(self) -> Option<P> {
        match self {
            Envelope::Control(_) => None,
            Envelope::Payload(p) => Some(p),
            Envelope::Both(_, p) => Some(p),
        }
    }

    /// Builds an envelope from its two slots; `None` where both are empty, which
    /// is not a message.
    pub fn from_slots(control: Option<C>, payload: Option<P>) -> (r: Option<Envelope<C, P>>)
        ensures
            r == envelope_of(control, payload),
    {
        match (control, payload) {
            (Some(c), Some(p)) => Some(Envelope::Both(c, p)),
            (Some(c), None) => Some(Envelope::Control(c)),
            (None, Some(p)) => Some(Envelope::Payload(p)),
            (None, None) => None,
        }
    }

    /// Splits an envelope into its two slots.
    pub fn into_slots(self) -> (r: (Option<C>, Option<P>))
        ensures
            r == (self.control(), self.payload()),
    {
        match self {
            Envelope::Control(c) => (Some(c), None),
            Envelope::Payload(p) => (None, Some(p)),
            Envelope::Both(c, p) => (Some(c), Some(p)),
        }
    }
}

/// Framing round trip: splitting an envelope into slots and building it again gives
/// the same envelope, and slots that build an envelope are the slots it splits into.
pub proof fn lemma_slots_round_trip<C, P>(e: Envelope<C, P>, control: Option<C>, payload: Option<P>)
    ensures
        envelope_of(e.control(), e.payload()) == Some(e),
        envelope_of(control, payload) is Some ==> ({
            let f = envelope_of(control, payload)->Some_0;
            f.control() == control && f.payload() == payload
        }),
{
}

/// Breaches of the handshake protocol; each one ends the context that sees it.
#[derive(Clone, Copy, Debug, PartialEq, Eq, Structural)]
pub enum ProtocolError {
    /// A second Ready reached the controller.
    DuplicateReady,
    /// Close reached the controller before Ready.
    CloseBeforeReady,
    /// A second Close reached the controller.
    DuplicateClose,
    /// A second render surface reached the worker.
    DuplicateSurface,
    /// A control signal reached the worker, which takes none.
    UnexpectedSignal,
    /// Both slots of a wire message were empty.
    EmptyEnvelope,
    /// The control slot held a text that names no signal.
    UnknownTag,
}

/// Reads a message off its two wire slots: the control slot holds a signal's wire
/// text, the payload slot an already decoded payload.
pub fn decode_signal_envelope<P>(tag: Option<&str>, payload: Option<P>) -> (r: Result<
    Envelope<ControlSignal, P>,
    ProtocolError,
>)
    ensures
        tag is None && payload is None ==> r == Err::<Envelope<ControlSignal, P>, ProtocolError>(
            ProtocolError::EmptyEnvelope,
        ),
        tag matches Some(t) ==> (signal_of_tag(t@) is None <==> r == Err::<
            Envelope<ControlSignal, P>,
            ProtocolError,
        >(ProtocolError::UnknownTag)),
        r matches Ok(e) ==> e.payload() == payload && match tag {
            Some(t) => e.control() == signal_of_tag(t@),
            None => e.control() is None,
        },
        r is Ok <==> (tag is Some || payload is Some) && match tag {
            Some(t) => signal_of_tag(t@) is Some,
            None => true,
        },
{
    let control = match tag {
        Some(t) => match ControlSignal::from_tag(t) {
            Some(c) => Some(c),
            None => {
                return Err(ProtocolError::UnknownTag);
            },
        },
        None => None,
    };
    match Envelope::from_slots(control, payload) {
        Some(e) => Ok(e),
        None => Err(ProtocolError::EmptyEnvelope),
    }
}

} // verus!
