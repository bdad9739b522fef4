//! Per-endpoint connection handling.
//!
//! One handler owns one configured MAVLink endpoint. Its steady state is a
//! loop over two event sources: frames decoded from the transport, which it
//! wraps and publishes to the relay, and envelopes read from the relay,
//! which it writes back to the transport unless they carry its own origin
//! (the loop-prevention rule). The surrounding process owns the transport
//! and the scheduler and feeds each observed event to [`MAVLinkConnection::handle_event`],
//! performing the returned action.

use vstd::prelude::*;

use crate::protocol::{Protocol, ProtocolView};
use crate::relay::{spec_publish, RelayView};

verus! {

/// Why a handler's unit of work ended. Both are terminal for that one
/// endpoint only; the rest of the bridge keeps running.
#[derive(Clone, Copy, Debug, PartialEq, Eq, Structural)]
pub enum ConnectionError {
    /// The transport could not be opened; the handler ends without a loop.
    Connect,
    /// The transport failed while reading; the handler's loop ends.
    Read,
}

/// One observation a running handler can make.
#[derive(Debug)]
pub enum HandlerEvent {
    /// The transport yielded one decoded frame, as encoded bytes.
    FrameReceived(Vec<u8>),
    /// The transport failed while reading.
    TransportReadFailed,
    /// The transport failed while writing an envelope out.
    TransportWriteFailed,
    /// The relay yielded the next envelope for this handler's cursor.
    EnvelopeReceived(Protocol),
    /// This handler's cursor was evicted past by this many entries.
    RelayLagged(u64),
    /// The relay was closed.
    RelayClosed,
}

/// The mathematical value of a [`HandlerEvent`].
pub ghost enum EventView {
    Frame(Seq<u8>),
    ReadFailed,
    WriteFailed,
    Envelope(ProtocolView),
    Lagged(nat),
    Closed,
}

impl View for HandlerEvent {
    type V = EventView;

    open spec fn view(&self) -> EventView {
        match self {
            HandlerEvent::FrameReceived(f) => EventView::Frame(f@),
            HandlerEvent::TransportReadFailed => EventView::ReadFailed,
            HandlerEvent::TransportWriteFailed => EventView::WriteFailed,
            HandlerEvent::EnvelopeReceived(p) => EventView::Envelope(p@),
            HandlerEvent::RelayLagged(n) => EventView::Lagged(*n as nat),
            HandlerEvent::RelayClosed => EventView::Closed,
        }
    }
}

/// What the handler decides to do with one event.
#[derive(Debug)]
pub enum HandlerAction {
    /// Publish this envelope to the relay.
    PublishEnvelope(Protocol),
    /// Write these frame bytes to the transport.
    WriteFrame(Vec<u8>),
    /// The envelope was this handler's own prior publish: drop it silently
    /// and continue.
    DiscardEcho,
    /// Log that this many entries were missed and continue from the relay's
    /// oldest retained entry; non-fatal.
    NoteLag(u64),
    /// Log that the relay was closed and continue; non-fatal.
    NoteRelayClosed,
    /// Nothing to do beyond logging; the loop continues. In particular a
    /// write failure is non-fatal: the endpoint may still receive.
    Proceed,
    /// The handler's unit of work ends with this error.
    Stop(ConnectionError),
}

/// The mathematical value of a [`HandlerAction`].
pub ghost enum ActionView {
    Publish(ProtocolView),
    Write(Seq<u8>),
    Discard,
    NoteLag(nat),
    NoteClosed,
    Proceed,
    Stop(ConnectionError),
}

impl View for HandlerAction {
    type V = ActionView;

    open spec fn view(&self) -> ActionView {
        match self {
            HandlerAction::PublishEnvelope(p) => ActionView::Publish(p@),
            HandlerAction::WriteFrame(f) => ActionView::Write(f@),
            HandlerAction::DiscardEcho => ActionView::Discard,
            HandlerAction::NoteLag(n) => ActionView::NoteLag(*n as nat),
            HandlerAction::NoteRelayClosed => ActionView::NoteClosed,
            HandlerAction::Proceed => ActionView::Proceed,
            HandlerAction::Stop(e) => ActionView::Stop(*e),
        }
    }
}

/// The handler's whole decision rule: what a handler owning `endpoint` does
/// with one event observed at time `now`.
///
/// A received frame is wrapped with this endpoint as origin and published;
/// an envelope from the relay is echoed to the transport exactly when its
/// origin differs from this endpoint; a transport read failure is the only
/// terminal condition; everything else is logged and the loop continues.
pub open spec fn spec_handle(endpoint: Seq<char>, ev: EventView, now: u64) -> ActionView {
    match ev {
        EventView::Frame(f) => ActionView::Publish(
            ProtocolView { origin: endpoint, raw_frame: f, timestamp: now },
        ),
        EventView::ReadFailed => ActionView::Stop(ConnectionError::Read),
        EventView::WriteFailed => ActionView::Proceed,
        EventView::Envelope(p) => if p.origin == endpoint {
            ActionView::Discard
        } else {
            ActionView::Write(p.raw_frame)
        },
        EventView::Lagged(n) => ActionView::NoteLag(n),
        EventView::Closed => ActionView::NoteClosed,
    }
}

/// One configured MAVLink endpoint, owned by exactly one handler.
#[derive(Debug)]
pub struct MAVLinkConnection {
    /// The endpoint address, e.g. `serial:/dev/ttyUSB0:115200` or
    /// `udpin:127.0.0.1:14550`. It doubles as the origin of every envelope
    /// this handler publishes.
    pub endpoint: String,
}

impl MAVLinkConnection {
    /// A descriptor is well formed when its address names an endpoint, so
    /// that it can serve as an envelope origin.
    pub open spec fn wf(&self) -> bool {
        self.endpoint@.len() > 0
    }

    /// A descriptor for the given endpoint address.
    pub fn new(endpoint: String) -> (c: MAVLinkConnection)
        requires
            endpoint@.len() > 0,
        ensures
            c.endpoint == endpoint,
            c.wf(),
    {
        MAVLinkConnection { endpoint }
    }

    /// Decides what to do with one observed event, per [`spec_handle`].
    ///
    /// `now` is the capture time given to a newly published envelope.
    pub fn handle_event(&self, event: HandlerEvent, now: u64) -> (a: HandlerAction)
        requires
            self.wf(),
        ensures
            a@ == spec_handle(self.endpoint@, event@, now),
    {
        match event {
            HandlerEvent::FrameReceived(f) => HandlerAction::PublishEnvelope(
                Protocol::new_with_timestamp(now, self.endpoint.as_str(), f),
            ),
            HandlerEvent::TransportReadFailed => HandlerAction::Stop(ConnectionError::Read),
            HandlerEvent::TransportWriteFailed => HandlerAction::Proceed,
            HandlerEvent::EnvelopeReceived(p) => {
                if p.origin == self.endpoint {
                    HandlerAction::DiscardEcho
                } else {
                    HandlerAction::WriteFrame(p.raw_frame)
                }
            },
            HandlerEvent::RelayLagged(n) => HandlerAction::NoteLag(n),
            HandlerEvent::RelayClosed => HandlerAction::NoteRelayClosed,
        }
    }
}

/// Loop prevention: an envelope whose origin is this handler's own endpoint
/// is discarded silently — it is never written back to the transport it
/// came from.
pub proof fn lemma_loop_prevention(endpoint: Seq<char>, p: ProtocolView, now: u64)
    requires
        p.origin == endpoint,
    ensures
        spec_handle(endpoint, EventView::Envelope(p), now) == ActionView::Discard,
        forall|f: Seq<u8>|
            spec_handle(endpoint, EventView::Envelope(p), now) != ActionView::Write(f),
{
}

/// Fan-out at the transports: an envelope of any other origin that reaches
/// a handler is answered with a write of exactly its frame bytes.
pub proof fn lemma_foreign_envelope_written(endpoint: Seq<char>, p: ProtocolView, now: u64)
    requires
        p.origin != endpoint,
    ensures
        spec_handle(endpoint, EventView::Envelope(p), now) == ActionView::Write(p.raw_frame),
{
}

/// Frame preservation, end to end: a frame captured at endpoint `a` is
/// published as the newest envelope of the relay's history, carrying
/// exactly the captured bytes under origin `a`; when any handler reads
/// that envelope, the one owning `a` discards it, and every other one
/// writes exactly the captured bytes to its transport — byte for byte from
/// capture to retransmission.
pub proof fn lemma_frame_preserved_end_to_end(
    a: Seq<char>,
    b: Seq<char>,
    f: Seq<u8>,
    v: RelayView,
    now: u64,
    later: u64,
)
    requires
        a != b,
    ensures
        ({
            let act = spec_handle(a, EventView::Frame(f), now);
            &&& act matches ActionView::Publish(env)
            &&& {
                let env = act->Publish_0;
                &&& env.origin == a
                &&& env.raw_frame == f
                &&& spec_publish(v, env).history.last() == env
                &&& spec_handle(b, EventView::Envelope(env), later) == ActionView::Write(f)
                &&& spec_handle(a, EventView::Envelope(env), later) == ActionView::Discard
            }
        }),
{
}

/// Holds when a decision to write frame bytes to the transport can only
/// have come from an envelope of a different origin carrying those bytes.
pub open spec fn write_is_foreign(endpoint: Seq<char>, ev: EventView, now: u64) -> bool {
    match (spec_handle(endpoint, ev, now), ev) {
        (ActionView::Write(f), EventView::Envelope(p)) => p.origin != endpoint && f
            == p.raw_frame,
        (ActionView::Write(f), _) => false,
        _ => true,
    }
}

/// Loop prevention over every interleaving: whatever sequence of events a
/// handler observes, each write it performs carries the bytes of an
/// envelope that another origin published; no event of its own origin is
/// ever answered with a write.
pub proof fn lemma_no_reflection(endpoint: Seq<char>, evs: Seq<EventView>, now: u64)
    ensures
        forall|i: int| 0 <= i < evs.len() ==> #[trigger] write_is_foreign(endpoint, evs[i], now),
{
}

} // verus!
