//! The two overlay-facing forwarding tasks' decision rules.
//!
//! The egress task drains the relay and republishes each envelope's raw
//! bytes onto the overlay network; the ingress task subscribes on the
//! overlay and injects what it receives into the relay under the overlay
//! sentinel origin. Both are unbounded loops for the lifetime of the
//! bridge; the overlay session calls and the suspension live in the
//! surrounding process, which performs the action decided here for each
//! observed event.

use vstd::prelude::*;

use crate::protocol::Protocol;
use crate::relay::{ReadView, RelayRead};

verus! {

/// The origin sentinel carried by every envelope the ingress task injects,
/// marking the overlay-originated path.
pub open spec fn overlay_origin_view() -> Seq<char> {
    "zenoh"@
}

/// The overlay sentinel origin as a value.
pub fn overlay_origin() -> (s: String)
    ensures
        s@ == overlay_origin_view(),
        s@.len() > 0,
{
    proof {
        reveal_strlit("zenoh");
    }
    "zenoh".to_owned()
}

/// What the egress task decides to do with one relay read.
#[derive(Debug)]
pub enum EgressAction {
    /// Republish these raw frame bytes onto the overlay, whatever their
    /// origin: the overlay is a distinct sink, so no origin filtering
    /// applies here.
    ForwardPayload(Vec<u8>),
    /// Log that this many entries were missed and continue from the
    /// relay's oldest retained entry; non-fatal.
    NoteLag(u64),
    /// The relay is closed and drained: the egress task ends.
    Stop,
    /// Nothing to read yet; the running bridge suspends the task here.
    Wait,
}

/// The mathematical value of an [`EgressAction`].
pub ghost enum EgressActionView {
    Forward(Seq<u8>),
    NoteLag(nat),
    Stop,
    Wait,
}

impl View for EgressAction {
    type V = EgressActionView;

    open spec fn view(&self) -> EgressActionView {
        match self {
            EgressAction::ForwardPayload(f) => EgressActionView::Forward(f@),
            EgressAction::NoteLag(n) => EgressActionView::NoteLag(*n as nat),
            EgressAction::Stop => EgressActionView::Stop,
            EgressAction::Wait => EgressActionView::Wait,
        }
    }
}

/// The egress task's whole decision rule: every envelope read from the
/// relay is forwarded, byte for byte and with no origin filtering; a lag
/// is noted and the loop continues; only a closed and drained relay ends
/// the task.
pub open spec fn spec_egress(r: ReadView) -> EgressActionView {
    match r {
        ReadView::Envelope(p) => EgressActionView::Forward(p.raw_frame),
        ReadView::Lagged(n) => EgressActionView::NoteLag(n),
        ReadView::Closed => EgressActionView::Stop,
        ReadView::Pending => EgressActionView::Wait,
    }
}

/// Fan-out at the overlay: every envelope the egress task reads from the
/// relay is forwarded onto the overlay, byte for byte, whatever its origin.
pub proof fn lemma_egress_forwards_every_envelope(p: crate::protocol::ProtocolView)
    ensures
        spec_egress(ReadView::Envelope(p)) == EgressActionView::Forward(p.raw_frame),
{
}

/// Decides what the egress task does with one relay read, per
/// [`spec_egress`].
pub fn egress_step(read: RelayRead) -> (a: EgressAction)
    ensures
        a@ == spec_egress(read@),
{
    match read {
        RelayRead::Envelope(p) => EgressAction::ForwardPayload(p.raw_frame),
        RelayRead::Lagged(n) => EgressAction::NoteLag(n),
        RelayRead::Closed => EgressAction::Stop,
        RelayRead::Pending => EgressAction::Wait,
    }
}

/// Wraps one payload received from the overlay subscription as an envelope
/// under the overlay sentinel origin, stamped with the given capture time,
/// ready to be published to the relay.
pub fn ingress_envelope(payload: Vec<u8>, now: u64) -> (p: Protocol)
    ensures
        p@.origin == overlay_origin_view(),
        p@.raw_frame == payload@,
        p@.timestamp == now,
        p@.wf(),
{
    let origin = overlay_origin();
    Protocol::new_with_timestamp(now, origin.as_str(), payload)
}

} // verus!
