//! The protocol envelope: the unit of data crossing the broadcast relay.
//!
//! An envelope tags one opaque encoded frame with the identity of the
//! endpoint (or overlay path) that produced it and with the time of capture.
//! The frame bytes are never reinterpreted on their way through the bridge.

use vstd::prelude::*;

verus! {

/// The mathematical value of a [`Protocol`] envelope.
pub ghost struct ProtocolView {
    /// The producing endpoint's address, or the overlay sentinel.
    pub origin: Seq<char>,
    /// The encoded frame, byte for byte as captured.
    pub raw_frame: Seq<u8>,
    /// Capture time in microseconds since the Unix epoch.
    pub timestamp: u64,
}

impl ProtocolView {
    /// An envelope is well formed when its origin names a producer.
    pub open spec fn wf(self) -> bool {
        self.origin.len() > 0
    }
}

/// One origin-tagged, timestamped frame as it crosses the relay.
#[derive(Debug)]
pub struct Protocol {
    /// Source of the envelope: a connection endpoint address such as
    /// `serial:/dev/ttyUSB0:115200`, or the overlay sentinel.
    pub origin: String,
    /// The encoded frame carried as opaque bytes.
    pub raw_frame: Vec<u8>,
    /// Microseconds since the Unix epoch, assigned once at creation.
    pub timestamp: u64,
}

impl View for Protocol {
    type V = ProtocolView;

    open spec fn view(&self) -> ProtocolView {
        ProtocolView {
            origin: self.origin@,
            raw_frame: self.raw_frame@,
            timestamp: self.timestamp,
        }
    }
}

/// Relies on `std::time::SystemTime::now` for the current time, read as
/// microseconds since the Unix epoch. The value depends on the clock, so
/// nothing is promised of it. The read is total for every clock state: a
/// clock before the epoch reads as 0, and one past the range of `u64`
/// microseconds saturates to `u64::MAX`.
#[verifier::external_body]
fn now_micros() -> u64 {
    match std::time::SystemTime::now().duration_since(std::time::UNIX_EPOCH) {
        Ok(d) => u64::try_from(d.as_micros()).unwrap_or(u64::MAX),
        Err(_) => 0,
    }
}

impl Protocol {
    /// Wraps a captured frame with its origin and the current time.
    ///
    /// The timestamp is read from the clock, so the contract pins every
    /// field but that one; [`Protocol::new_with_timestamp`] is the variant
    /// whose result is fixed entirely by its arguments.
    pub fn new(origin: &str, raw_frame: Vec<u8>) -> (p: Protocol)
        requires
            origin@.len() > 0,
        ensures
            p@.origin == origin@,
            p@.raw_frame == raw_frame@,
            p@.wf(),
    {
        let timestamp = now_micros();
        Protocol::new_with_timestamp(timestamp, origin, raw_frame)
    }

    /// Wraps a captured frame with its origin and the given capture time.
    pub fn new_with_timestamp(timestamp: u64, origin: &str, raw_frame: Vec<u8>) -> (p: Protocol)
        requires
            origin@.len() > 0,
        ensures
            p@ == (ProtocolView { origin: origin@, raw_frame: raw_frame@, timestamp }),
            p@.wf(),
    {
        Protocol { origin: origin.to_owned(), raw_frame, timestamp }
    }

    /// A field-for-field copy of the envelope, for handing one shared
    /// envelope to several consumers.
    pub fn duplicate(&self) -> (p: Protocol)
        ensures
            p@ == self@,
    {
        Protocol {
            origin: self.origin.clone(),
            raw_frame: clone_bytes(&self.raw_frame),
            timestamp: self.timestamp,
        }
    }
}

/// A copy of a byte vector that provably keeps its contents.
fn clone_bytes(v: &Vec<u8>) -> (r: Vec<u8>)
    ensures
        r@ == v@,
{
    let r = v.clone();
    assert(r@ =~= v@);
    r
}

} // verus!
