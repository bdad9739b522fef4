//! The connection supervisor.
//!
//! Given the configured endpoint descriptors it lays out one handler per
//! descriptor, each with its own relay cursor and a share of the relay
//! producer, and then collects handler completions in any order. When every
//! handler has ended, endpoint forwarding is permanently over for this
//! bridge instance: handlers are not restarted, and the overlay tasks and
//! the watchdog keep running.

use vstd::prelude::*;

use crate::mavlink_connection::MAVLinkConnection;
use crate::relay::{Cursor, Relay, RelayView};

verus! {

/// Registers one relay subscription per configured endpoint descriptor:
/// exactly one handler is laid out per descriptor, `cursors[i]` belonging
/// to the handler of `conns[i]`. The cursors carry pairwise distinct
/// identifiers, and each starts at the current end of the relay's history.
/// The relay's contents are untouched.
pub fn spawn_plan(conns: &Vec<MAVLinkConnection>, relay: &mut Relay) -> (cursors: Vec<Cursor>)
    requires
        old(relay).wf(),
        old(relay)@.next_cursor_id + conns@.len() <= u64::MAX,
    ensures
        final(relay).wf(),
        final(relay)@ == (RelayView {
            next_cursor_id: old(relay)@.next_cursor_id + conns@.len(),
            ..old(relay)@
        }),
        cursors@.len() == conns@.len(),
        forall|i: int|
            0 <= i < cursors@.len() ==> (#[trigger] cursors@[i])@.id == old(
                relay,
            )@.next_cursor_id + i,
        forall|i: int|
            0 <= i < cursors@.len() ==> (#[trigger] cursors@[i])@.pos == old(
                relay,
            )@.history.len(),
        forall|i: int, j: int|
            0 <= i < j < cursors@.len() ==> (#[trigger] cursors@[i])@.id != (
            #[trigger] cursors@[j])@.id,
{
    let mut cursors: Vec<Cursor> = Vec::new();
    let n = conns.len();
    let mut k: usize = 0;
    while k < n
        invariant
            n == conns@.len(),
            k <= n,
            relay.wf(),
            old(relay)@.next_cursor_id + n <= u64::MAX,
            relay@ == (RelayView {
                next_cursor_id: (old(relay)@.next_cursor_id + k) as nat,
                ..old(relay)@
            }),
            cursors@.len() == k,
            forall|i: int|
                0 <= i < k ==> (#[trigger] cursors@[i])@.id == old(relay)@.next_cursor_id + i,
            forall|i: int|
                0 <= i < k ==> (#[trigger] cursors@[i])@.pos == old(relay)@.history.len(),
        decreases n - k,
    {
        let c = relay.subscribe();
        cursors.push(c);
        k = k + 1;
    }
    cursors
}

/// Tracks how many connection handlers are still running, so the bridge
/// can tell when endpoint forwarding has permanently ended.
pub struct Supervisor {
    remaining: usize,
}

impl View for Supervisor {
    type V = nat;

    closed spec fn view(&self) -> nat {
        self.remaining as nat
    }
}

impl Supervisor {
    /// Starts observing the given number of spawned handlers.
    pub fn new(handler_count: usize) -> (s: Supervisor)
        ensures
            s@ == handler_count as nat,
    {
        Supervisor { remaining: handler_count }
    }

    /// How many handlers have not ended yet.
    pub fn remaining(&self) -> (r: usize)
        ensures
            r == self@,
    {
        self.remaining
    }

    /// Records one handler completion, whatever its result and in whatever
    /// order completions arrive. Returns whether that was the last handler,
    /// i.e. whether endpoint forwarding is now permanently over.
    pub fn handler_exited(&mut self) -> (all_ended: bool)
        requires
            old(self)@ > 0,
        ensures
            final(self)@ == old(self)@ - 1,
            all_ended == (final(self)@ == 0),
    {
        self.remaining = self.remaining - 1;
        self.remaining == 0
    }

    /// Whether every handler has ended.
    pub fn forwarding_ended(&self) -> (r: bool)
        ensures
            r == (self@ == 0),
    {
        self.remaining == 0
    }
}

} // verus!
