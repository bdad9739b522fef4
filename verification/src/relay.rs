//! The broadcast relay: a bounded multi-consumer fan-out channel.
//!
//! Every producer publishes through one shared relay, and every subscriber
//! (each connection handler and the overlay egress task) reads through its
//! own cursor. Publishing never blocks: when the buffer is full the oldest
//! retained envelope is evicted system-wide, and a cursor that had not read
//! it yet gets a non-fatal lag notification on its next read and resumes
//! from the new oldest entry.

use vstd::prelude::*;

use crate::protocol::{Protocol, ProtocolView};

verus! {

/// The mathematical value of a [`Relay`]: the whole publish history, the
/// index of the oldest envelope still retained, and the channel bounds.
pub ghost struct RelayView {
    /// Every envelope ever published, in publish order.
    pub history: Seq<ProtocolView>,
    /// Index into `history` of the oldest envelope still retained; the
    /// prefix before it has been evicted.
    pub base: nat,
    /// The bound on how many envelopes are retained at once.
    pub capacity: nat,
    /// Whether the relay was closed for the bridge's shutdown.
    pub closed: bool,
    /// The identifier the next subscription will receive.
    pub next_cursor_id: nat,
}

impl RelayView {
    /// How many envelopes are currently retained.
    pub open spec fn buffered(self) -> nat {
        (self.history.len() - self.base) as nat
    }

    /// A relay value is well formed when it retains a contiguous suffix of
    /// its history, no more than its capacity, of well-formed envelopes.
    pub open spec fn wf(self) -> bool {
        &&& self.capacity > 0
        &&& self.base <= self.history.len()
        &&& self.history.len() - self.base <= self.capacity
        &&& self.history.len() <= u64::MAX
        &&& forall|i: int| 0 <= i < self.history.len() ==> (#[trigger] self.history[i]).wf()
    }
}

/// What publishing one envelope does to the relay: the envelope joins the
/// history, and if the buffer was full the oldest retained entry is evicted.
pub open spec fn spec_publish(v: RelayView, e: ProtocolView) -> RelayView {
    RelayView {
        history: v.history.push(e),
        base: if v.buffered() >= v.capacity {
            (v.base + 1) as nat
        } else {
            v.base
        },
        ..v
    }
}

/// Publishing a sequence of envelopes, first element first.
pub open spec fn spec_publish_all(v: RelayView, es: Seq<ProtocolView>) -> RelayView
    decreases es.len(),
{
    if es.len() == 0 {
        v
    } else {
        spec_publish_all(spec_publish(v, es[0]), es.drop_first())
    }
}

/// The mathematical value of one read outcome.
pub ghost enum ReadView {
    /// The next envelope for this cursor.
    Envelope(ProtocolView),
    /// The cursor had been evicted past: this many entries were dropped for
    /// this consumer, which resumes from the current oldest entry.
    Lagged(nat),
    /// The relay is closed and fully drained for this cursor.
    Closed,
    /// Nothing to read yet; in the running bridge the reader suspends here.
    Pending,
}

/// What one read at cursor position `pos` returns.
pub open spec fn spec_read_result(v: RelayView, pos: nat) -> ReadView {
    if pos < v.base {
        ReadView::Lagged((v.base - pos) as nat)
    } else if pos < v.history.len() {
        ReadView::Envelope(v.history[pos as int])
    } else if v.closed {
        ReadView::Closed
    } else {
        ReadView::Pending
    }
}

/// Where the cursor stands after one read at position `pos`: a lagged
/// cursor resynchronizes to the oldest retained entry, a successful read
/// advances by one, and an empty read leaves the cursor in place.
pub open spec fn spec_read_pos(v: RelayView, pos: nat) -> nat {
    if pos < v.base {
        v.base
    } else if pos < v.history.len() {
        pos + 1
    } else {
        pos
    }
}

/// A relay as [`Relay::new`] leaves it: empty history, nothing evicted,
/// open, no subscriptions handed out.
pub open spec fn fresh_relay(capacity: nat) -> RelayView {
    RelayView {
        history: Seq::<ProtocolView>::empty(),
        base: 0,
        capacity,
        closed: false,
        next_cursor_id: 0,
    }
}

/// Where a cursor that started at `pos` stands after `k` reads.
pub open spec fn pos_after_reads(v: RelayView, pos: nat, k: nat) -> nat
    decreases k,
{
    if k == 0 {
        pos
    } else {
        spec_read_pos(v, pos_after_reads(v, pos, (k - 1) as nat))
    }
}

proof fn lemma_reads_compose(v: RelayView, pos: nat, a: nat, b: nat)
    ensures
        pos_after_reads(v, pos, a + b) == pos_after_reads(v, pos_after_reads(v, pos, a), b),
    decreases b,
{
    if b > 0 {
        lemma_reads_compose(v, pos, a, (b - 1) as nat);
    }
}

proof fn lemma_reads_advance_in_order(v: RelayView, pos: nat, s: nat)
    requires
        v.base <= pos <= s <= v.history.len(),
    ensures
        pos_after_reads(v, pos, (s - pos) as nat) == s,
    decreases s - pos,
{
    if pos < s {
        lemma_reads_advance_in_order(v, pos, (s - 1) as nat);
    }
}

/// Fan-out: an envelope at history index `s` that was not evicted is
/// eventually observed by every subscriber. A cursor standing at any
/// position `pos` not past `s` reads, after finitely many reads (at most
/// one of them a lag resynchronization, the rest envelopes delivered in
/// history order), exactly the envelope `v.history[s]`.
pub proof fn lemma_fanout_observation(v: RelayView, pos: nat, s: nat)
    requires
        v.wf(),
        pos <= s,
        v.base <= s < v.history.len(),
    ensures
        ({
            let k = if pos < v.base {
                1 + (s - v.base)
            } else {
                s - pos
            };
            &&& pos_after_reads(v, pos, k as nat) == s
            &&& spec_read_result(v, s) == ReadView::Envelope(v.history[s as int])
        }),
        forall|q: nat|
            v.base <= q < v.history.len() ==> spec_read_result(v, q) == ReadView::Envelope(
                v.history[q as int],
            ),
{
    if pos < v.base {
        assert(pos_after_reads(v, pos, 0) == pos);
        assert(pos_after_reads(v, pos, 1) == v.base);
        lemma_reads_compose(v, pos, 1, (s - v.base) as nat);
        lemma_reads_advance_in_order(v, v.base, s);
    } else {
        lemma_reads_advance_in_order(v, pos, s);
    }
}

proof fn lemma_publish_all_unfold_last(v: RelayView, es: Seq<ProtocolView>)
    requires
        es.len() > 0,
    ensures
        spec_publish_all(v, es) == spec_publish(spec_publish_all(v, es.drop_last()), es.last()),
    decreases es.len(),
{
    if es.len() == 1 {
        assert(es.drop_last() =~= Seq::<ProtocolView>::empty());
        assert(es.drop_first() =~= Seq::<ProtocolView>::empty());
        assert(spec_publish_all(v, es.drop_last()) == v);
        assert(spec_publish_all(spec_publish(v, es[0]), es.drop_first()) == spec_publish(v, es[0]));
        assert(es.last() == es[0]);
    } else {
        let tail = es.drop_first();
        lemma_publish_all_unfold_last(spec_publish(v, es[0]), tail);
        assert(tail.drop_last() =~= es.drop_last().drop_first());
        assert(tail.last() == es.last());
        assert(es.drop_last()[0] == es[0]);
        assert(spec_publish_all(v, es.drop_last()) == spec_publish_all(
            spec_publish(v, es[0]),
            es.drop_last().drop_first(),
        ));
        assert(spec_publish_all(v, es) == spec_publish_all(spec_publish(v, es[0]), tail));
    }
}

proof fn lemma_publish_within_capacity(v: RelayView, es: Seq<ProtocolView>)
    requires
        v.wf(),
        v.buffered() + es.len() <= v.capacity,
        forall|i: int| 0 <= i < es.len() ==> (#[trigger] es[i]).wf(),
        v.history.len() + es.len() <= u64::MAX,
    ensures
        spec_publish_all(v, es) == (RelayView { history: v.history + es, ..v }),
        spec_publish_all(v, es).wf(),
    decreases es.len(),
{
    if es.len() == 0 {
        assert(v.history + es =~= v.history);
    } else {
        let v1 = spec_publish(v, es[0]);
        assert(v1.history =~= v.history + seq![es[0]]);
        lemma_publish_within_capacity(v1, es.drop_first());
        assert(v1.history + es.drop_first() =~= v.history + es);
    }
}

/// Bounded-relay eviction: publishing one envelope more than the capacity
/// of a fresh relay, before any read, evicts exactly the first envelope,
/// and a cursor that started at the beginning is told on its next read that
/// it lost one entry — it is never handed the evicted envelope — and
/// resumes from the new oldest entry.
pub proof fn lemma_bounded_relay_eviction(capacity: nat, es: Seq<ProtocolView>)
    requires
        capacity > 0,
        es.len() == capacity + 1,
        es.len() <= u64::MAX,
        forall|i: int| 0 <= i < es.len() ==> (#[trigger] es[i]).wf(),
    ensures
        ({
            let v = spec_publish_all(fresh_relay(capacity), es);
            &&& v.history == es
            &&& v.base == 1
            &&& spec_read_result(v, 0) == ReadView::Lagged(1)
            &&& spec_read_pos(v, 0) == 1
        }),
{
    let v0 = fresh_relay(capacity);
    let full = spec_publish_all(v0, es.drop_last());
    lemma_publish_within_capacity(v0, es.drop_last());
    assert(Seq::<ProtocolView>::empty() + es.drop_last() =~= es.drop_last());
    lemma_publish_all_unfold_last(v0, es);
    let v = spec_publish(full, es.last());
    assert(v.history =~= es);
}

/// The mathematical value of a [`Cursor`].
pub ghost struct CursorView {
    /// The identifier this subscription was given, distinct per subscriber.
    pub id: nat,
    /// The index into the relay's history of the next envelope to read.
    pub pos: nat,
}

/// One subscriber's read position in the relay.
#[derive(Clone, Copy, Debug)]
pub struct Cursor {
    id: u64,
    pos: u64,
}

impl View for Cursor {
    type V = CursorView;

    closed spec fn view(&self) -> CursorView {
        CursorView { id: self.id as nat, pos: self.pos as nat }
    }
}

impl Cursor {
    /// The identifier this subscription was given.
    pub fn id(&self) -> (r: u64)
        ensures
            r == self@.id,
    {
        self.id
    }

    /// The history index of the next envelope this cursor will read.
    pub fn position(&self) -> (r: u64)
        ensures
            r == self@.pos,
    {
        self.pos
    }
}

/// One read outcome handed to a subscriber.
#[derive(Debug)]
pub enum RelayRead {
    /// The next envelope for this cursor.
    Envelope(Protocol),
    /// This many entries were evicted unread for this consumer, which now
    /// resumes from the relay's oldest retained entry.
    Lagged(u64),
    /// The relay is closed and fully drained for this cursor.
    Closed,
    /// Nothing to read yet; the running bridge suspends the reader here.
    Pending,
}

impl View for RelayRead {
    type V = ReadView;

    open spec fn view(&self) -> ReadView {
        match self {
            RelayRead::Envelope(p) => ReadView::Envelope(p@),
            RelayRead::Lagged(n) => ReadView::Lagged(*n as nat),
            RelayRead::Closed => ReadView::Closed,
            RelayRead::Pending => ReadView::Pending,
        }
    }
}

/// The bounded fan-out channel shared by all producers and subscribers of
/// one bridge instance.
pub struct Relay {
    capacity: usize,
    base: u64,
    buffer: Vec<Protocol>,
    closed: bool,
    next_cursor_id: u64,
    hist: Ghost<Seq<ProtocolView>>,
}

impl View for Relay {
    type V = RelayView;

    closed spec fn view(&self) -> RelayView {
        RelayView {
            history: self.hist@,
            base: self.base as nat,
            capacity: self.capacity as nat,
            closed: self.closed,
            next_cursor_id: self.next_cursor_id as nat,
        }
    }
}

impl Relay {
    /// Internal coherence: the buffer holds exactly the retained suffix of
    /// the publish history.
    pub closed spec fn wf(&self) -> bool {
        &&& self@.wf()
        &&& self.base + self.buffer@.len() == self.hist@.len()
        &&& forall|i: int|
            0 <= i < self.buffer@.len() ==> (#[trigger] self.buffer@[i])@ == self.hist@[self.base
                + i]
    }

    /// A fresh relay of the given capacity: empty history, no subscribers.
    pub fn new(capacity: usize) -> (r: Relay)
        requires
            capacity > 0,
        ensures
            r.wf(),
            r@ == (RelayView {
                history: Seq::<ProtocolView>::empty(),
                base: 0,
                capacity: capacity as nat,
                closed: false,
                next_cursor_id: 0,
            }),
    {
        Relay {
            capacity,
            base: 0,
            buffer: Vec::new(),
            closed: false,
            next_cursor_id: 0,
            hist: Ghost(Seq::empty()),
        }
    }

    /// The configured capacity.
    pub fn capacity(&self) -> (r: usize)
        requires
            self.wf(),
        ensures
            r == self@.capacity,
    {
        self.capacity
    }

    /// How many envelopes are currently retained.
    pub fn buffered_len(&self) -> (r: usize)
        requires
            self.wf(),
        ensures
            r == self@.buffered(),
    {
        self.buffer.len()
    }

    /// How many envelopes were ever published.
    pub fn total_published(&self) -> (r: u64)
        requires
            self.wf(),
        ensures
            r == self@.history.len(),
    {
        self.base + self.buffer.len() as u64
    }

    /// How many subscriptions were handed out.
    pub fn subscriptions(&self) -> (r: u64)
        requires
            self.wf(),
        ensures
            r == self@.next_cursor_id,
    {
        self.next_cursor_id
    }

    /// Whether the relay was closed.
    pub fn is_closed(&self) -> (r: bool)
        requires
            self.wf(),
        ensures
            r == self@.closed,
    {
        self.closed
    }

    /// Publishes one envelope. Never blocks the caller: when the buffer is
    /// full, the oldest retained envelope is evicted system-wide instead.
    pub fn publish(&mut self, e: Protocol)
        requires
            old(self).wf(),
            e@.wf(),
            old(self)@.history.len() < u64::MAX,
        ensures
            final(self).wf(),
            final(self)@ == spec_publish(old(self)@, e@),
            final(self)@.wf(),
    {
        if self.buffer.len() >= self.capacity {
            self.buffer.remove(0);
            self.base = self.base + 1;
        }
        let ghost new_hist = self.hist@.push(e@);
        self.buffer.push(e);
        self.hist = Ghost(new_hist);
    }

    /// Registers a new subscriber. The cursor starts at the current end of
    /// the history, so it observes exactly the envelopes published after
    /// this call, and its identifier differs from every one handed out
    /// before.
    pub fn subscribe(&mut self) -> (c: Cursor)
        requires
            old(self).wf(),
            old(self)@.next_cursor_id < u64::MAX,
        ensures
            final(self).wf(),
            final(self)@ == (RelayView {
                next_cursor_id: old(self)@.next_cursor_id + 1,
                ..old(self)@
            }),
            c@.id == old(self)@.next_cursor_id,
            c@.pos == old(self)@.history.len(),
    {
        let id = self.next_cursor_id;
        self.next_cursor_id = self.next_cursor_id + 1;
        Cursor { id, pos: self.base + self.buffer.len() as u64 }
    }

    /// Reads the next envelope for the given cursor, if any, copying it to
    /// the subscriber; a cursor that was evicted past is told how much it
    /// lost and resumes from the oldest retained entry.
    pub fn try_next(&self, cursor: &mut Cursor) -> (r: RelayRead)
        requires
            self.wf(),
        ensures
            r@ == spec_read_result(self@, old(cursor)@.pos),
            final(cursor)@.pos == spec_read_pos(self@, old(cursor)@.pos),
            final(cursor)@.id == old(cursor)@.id,
    {
        if cursor.pos < self.base {
            let missed = self.base - cursor.pos;
            cursor.pos = self.base;
            RelayRead::Lagged(missed)
        } else if cursor.pos - self.base < self.buffer.len() as u64 {
            let idx = (cursor.pos - self.base) as usize;
            let e = self.buffer[idx].duplicate();
            cursor.pos = cursor.pos + 1;
            RelayRead::Envelope(e)
        } else if self.closed {
            RelayRead::Closed
        } else {
            RelayRead::Pending
        }
    }

    /// Closes the relay for shutdown; cursors still drain what is retained.
    pub fn close(&mut self)
        requires
            old(self).wf(),
        ensures
            final(self).wf(),
            final(self)@ == (RelayView { closed: true, ..old(self)@ }),
    {
        self.closed = true;
    }
}

} // verus!
