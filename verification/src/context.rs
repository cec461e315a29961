//! Reply context handed to a worker actor for each command.
//!
//! Replies are recorded in a log shared by every clone of the context, so a
//! test (or the worker runtime) can read them after the handler is done.
//! Each reply carries the correlation ID it is routed with: only the first
//! reply of an RPC command carries it and so resolves the caller's call; later
//! replies carry none and go to the caller's event stream.

use std::rc::Rc;
use vstd::prelude::*;
use vstd::cell::invcell::InvCell;
use vstd::predicate::Predicate;

use crate::message::WorkerEvent;

verus! {

/// One reply, with the correlation ID it is routed with.
pub struct Reply<Evt> {
    /// `Some` only for the first reply to an RPC command.
    pub correlation_id: Option<u64>,
    /// The event sent back.
    pub payload: Evt,
    /// Optional binary sidecar.
    pub bytes: Option<Vec<u8>>,
}

/// The replies of one command, whether its correlation ID was used, and
/// whether the reply that carries it has been drained.
pub struct ReplyLog<Evt> {
    routed: bool,
    drained: bool,
    entries: Vec<Reply<Evt>>,
}

/// The correlation ID the next reply is routed with, given whether the
/// command's `correlation_id` was already used, and whether it is used after:
/// it goes to the first reply and to no other.
pub open spec fn spec_take_correlation_id(routed: bool, correlation_id: Option<u64>) -> (Option<u64>, bool) {
    if routed {
        (None, true)
    } else {
        (correlation_id, true)
    }
}

/// What every reply log of a context with `correlation_id` satisfies: before
/// any reply it is empty; once a reply was made and until it is drained, the
/// log starts with that first reply, which carries the correlation ID; no
/// other reply carries one.
pub open spec fn replies_routed_once<Evt>(
    correlation_id: Option<u64>,
    routed: bool,
    drained: bool,
    entries: Seq<Reply<Evt>>,
) -> bool {
    &&& (!routed ==> entries.len() == 0 && !drained)
    &&& (routed && !drained ==> entries.len() > 0 && entries[0].correlation_id == correlation_id)
    &&& forall|i: int| 0 <= i < entries.len() && (#[trigger] entries[i]).correlation_id is Some
            ==> i == 0 && !drained && entries[i].correlation_id == correlation_id
}

/// The invariant kept on a context's shared reply log.
pub struct RoutingRule {
    /// The correlation ID of the context's command.
    pub correlation_id: Option<u64>,
}

impl<Evt> Predicate<ReplyLog<Evt>> for RoutingRule {
    closed spec fn predicate(&self, log: ReplyLog<Evt>) -> bool {
        replies_routed_once(self.correlation_id, log.routed, log.drained, log.entries@)
    }
}

impl<Evt> ReplyLog<Evt> {
    /// Whether the correlation ID has been handed out.
    pub closed spec fn spec_routed(&self) -> bool {
        self.routed
    }

    /// Whether the replies were drained after the first reply was made.
    pub closed spec fn spec_drained(&self) -> bool {
        self.drained
    }

    /// The recorded replies, oldest first.
    pub closed spec fn spec_entries(&self) -> Seq<Reply<Evt>> {
        self.entries@
    }

    /// An empty log whose correlation ID is still unused.
    pub fn new() -> (r: Self)
        ensures
            !r.spec_routed(),
            !r.spec_drained(),
            r.spec_entries().len() == 0,
    {
        ReplyLog { routed: false, drained: false, entries: Vec::new() }
    }

    fn placeholder() -> (r: Self)
        ensures
            r.routed,
            r.drained,
            r.entries@.len() == 0,
    {
        ReplyLog { routed: true, drained: true, entries: Vec::new() }
    }

    /// Take the correlation ID for a reply: the first reply gets it, every
    /// later one gets `None`.
    fn take_correlation_id(&mut self, correlation_id: Option<u64>) -> (r: Option<u64>)
        ensures
            (r, final(self).routed) == spec_take_correlation_id(old(self).routed, correlation_id),
            final(self).entries@ == old(self).entries@,
            final(self).drained == old(self).drained,
    {
        if self.routed {
            return None;
        }
        self.routed = true;
        correlation_id
    }

    /// Record a reply to the command with `correlation_id`, routed with the
    /// correlation ID if it is the first reply and with none otherwise.
    pub fn record(&mut self, correlation_id: Option<u64>, payload: Evt, bytes: Option<Vec<u8>>)
        ensures
            final(self).spec_routed(),
            final(self).spec_drained() == old(self).spec_drained(),
            final(self).spec_entries() == old(self).spec_entries().push(
                Reply {
                    correlation_id: spec_take_correlation_id(old(self).spec_routed(), correlation_id).0,
                    payload,
                    bytes,
                },
            ),
    {
        let routed_id = self.take_correlation_id(correlation_id);
        self.entries.push(Reply { correlation_id: routed_id, payload, bytes });
    }

    /// Remove and return the recorded replies; the routing state stays, and
    /// once the first reply was made it counts as drained.
    pub fn drain(&mut self) -> (r: Vec<Reply<Evt>>)
        ensures
            r@ == old(self).spec_entries(),
            final(self).spec_entries().len() == 0,
            final(self).spec_routed() == old(self).spec_routed(),
            final(self).spec_drained() == (old(self).spec_drained() || old(self).spec_routed()),
    {
        self.drained = self.drained || self.routed;
        let mut entries: Vec<Reply<Evt>> = Vec::new();
        std::mem::swap(&mut entries, &mut self.entries);
        entries
    }
}

struct ContextInner<Evt> {
    correlation_id: Option<u64>,
    bytes: Option<Vec<u8>>,
    log: InvCell<ReplyLog<Evt>, RoutingRule>,
}

/// How many handles share a context's state.
///
/// Trusted: calls `Rc::strong_count`; claims nothing of the result, which
/// depends on how many clones are alive elsewhere.
#[verifier::external_body]
fn holders<Evt>(inner: &Rc<ContextInner<Evt>>) -> usize {
    Rc::strong_count(inner)
}

/// Reply context for dispatching events back to the main thread.
///
/// `Clone + 'static`: clones share one reply log, so the context is safe to
/// move into spawned tasks and its replies stay visible to every clone.
pub struct Context<Evt> {
    inner: Rc<ContextInner<Evt>>,
}

impl<Evt> Context<Evt> {
    /// Well-formedness: the log's invariant speaks of this context's correlation ID.
    pub closed spec fn wf(&self) -> bool {
        self.inner.log.predicate() == (RoutingRule { correlation_id: self.inner.correlation_id })
    }

    /// The correlation ID of the command this context answers (`None` for
    /// fire-and-forget commands).
    pub closed spec fn spec_correlation_id(&self) -> Option<u64> {
        self.inner.correlation_id
    }

    /// The binary payload of the incoming command.
    pub closed spec fn spec_bytes(&self) -> Option<Seq<u8>> {
        match self.inner.bytes {
            Some(b) => Some(b@),
            None => None,
        }
    }

    /// Create a context for a fire-and-forget command with optional incoming bytes.
    pub fn new(bytes: Option<Vec<u8>>) -> (r: Self)
        ensures
            r.wf(),
            r.spec_correlation_id() is None,
            r.spec_bytes() == (match bytes { Some(b) => Some(b@), None => None::<Seq<u8>> }),
    {
        Self::with_correlation(None, bytes)
    }

    /// Create a context for a command with the given correlation ID and incoming bytes.
    pub fn with_correlation(correlation_id: Option<u64>, bytes: Option<Vec<u8>>) -> (r: Self)
        ensures
            r.wf(),
            r.spec_correlation_id() == correlation_id,
            r.spec_bytes() == (match bytes { Some(b) => Some(b@), None => None::<Seq<u8>> }),
    {
        let log = InvCell::new(ReplyLog::new(), Ghost(RoutingRule { correlation_id }));
        Context { inner: Rc::new(ContextInner { correlation_id, bytes, log }) }
    }

    /// Access the binary payload of the incoming command (if any).
    pub fn bytes(&self) -> (r: Option<&[u8]>)
        ensures
            r is Some == self.spec_bytes() is Some,
            r matches Some(s) ==> s@ == self.spec_bytes()->0,
    {
        match &self.inner.bytes {
            Some(b) => Some(b.as_slice()),
            None => None,
        }
    }

    /// Whether a clone of this context is alive elsewhere (so more replies
    /// may still be recorded).
    pub fn is_shared(&self) -> (r: bool) {
        holders(&self.inner) > 1
    }

    /// The correlation ID of the command this context answers.
    pub fn correlation_id(&self) -> (r: Option<u64>)
        ensures
            r == self.spec_correlation_id(),
    {
        self.inner.correlation_id
    }

    fn record(&self, payload: Evt, bytes: Option<Vec<u8>>)
        requires
            self.wf(),
    {
        let mut log = self.inner.log.replace(ReplyLog::placeholder());
        let ghost before = log.entries@;
        log.record(self.inner.correlation_id, payload, bytes);
        assert(replies_routed_once(self.inner.correlation_id, log.routed, log.drained, log.entries@)) by {
            if before.len() > 0 {
                assert(log.entries@[0] == before[0]);
            }
            assert forall|i: int| 0 <= i < log.entries@.len() && (#[trigger] log.entries@[i]).correlation_id is Some
                implies i == 0 && !log.drained && log.entries@[i].correlation_id == self.inner.correlation_id by {
                if i < before.len() {
                    assert(log.entries@[i] == before[i]);
                }
            }
        }
        self.inner.log.set(log);
    }

    /// Send an event back to the main thread (recorded in the shared log).
    pub fn respond(&self, evt: Evt)
        requires
            self.wf(),
    {
        self.record(evt, None)
    }

    /// Send an event with a binary sidecar back to the main thread.
    pub fn respond_bytes(&self, evt: Evt, bytes: Vec<u8>)
        requires
            self.wf(),
    {
        self.record(evt, Some(bytes))
    }

    /// Send an event back to the main thread (same as `respond`).
    pub fn reply(&self, evt: Evt)
        requires
            self.wf(),
    {
        self.respond(evt)
    }

    /// Send an event with a binary sidecar back (same as `respond_bytes`).
    pub fn reply_with_bytes(&self, evt: Evt, bytes: Vec<u8>)
        requires
            self.wf(),
    {
        self.respond_bytes(evt, bytes)
    }

    /// Number of replies recorded so far and not yet drained.
    pub fn response_count(&self) -> (r: usize)
        requires
            self.wf(),
    {
        let log = self.inner.log.replace(ReplyLog::placeholder());
        let n: usize = log.entries.len();
        self.inner.log.set(log);
        n
    }

    /// Number of replies recorded so far (same as `response_count`).
    pub fn reply_count(&self) -> (r: usize)
        requires
            self.wf(),
    {
        self.response_count()
    }

    /// Remove and return the recorded replies, each with its routing, and
    /// whether they hold the command's first reply.
    ///
    /// The first reply ever made to the command is routed with the command's
    /// correlation ID; it is the first of the drained replies in exactly the
    /// drain that returns `true`. No other reply carries a correlation ID.
    pub fn drain_replies(&self) -> (r: (Vec<Reply<Evt>>, bool))
        requires
            self.wf(),
        ensures
            r.1 ==> r.0@.len() > 0 && r.0@[0].correlation_id == self.spec_correlation_id(),
            forall|i: int| 0 <= i < r.0@.len() && (#[trigger] r.0@[i]).correlation_id is Some
                ==> i == 0 && r.1 && r.0@[i].correlation_id == self.spec_correlation_id(),
    {
        let mut log = self.inner.log.replace(ReplyLog::placeholder());
        let first = log.routed && !log.drained;
        let entries = log.drain();
        self.inner.log.set(log);
        (entries, first)
    }
}

impl<Evt: Clone> Context<Evt> {
    /// All replies recorded so far and not yet drained, as (event, sidecar) pairs,
    /// in the order they were sent.
    pub fn responses(&self) -> (r: Vec<(Evt, Option<Vec<u8>>)>)
        requires
            self.wf(),
    {
        let log = self.inner.log.replace(ReplyLog::placeholder());
        let mut out: Vec<(Evt, Option<Vec<u8>>)> = Vec::new();
        let mut i: usize = 0;
        while i < log.entries.len()
            invariant
                i <= log.entries@.len(),
            decreases log.entries@.len() - i,
        {
            let entry = &log.entries[i];
            out.push((entry.payload.clone(), entry.bytes.clone()));
            i = i + 1;
        }
        self.inner.log.set(log);
        out
    }

    /// All replies recorded so far (same as `responses`).
    pub fn replies(&self) -> (r: Vec<(Evt, Option<Vec<u8>>)>)
        requires
            self.wf(),
    {
        self.responses()
    }
}

impl<Evt> Context<Evt> {
    /// Remove and return the recorded replies as events with their sidecars.
    pub fn take_responses(&self) -> (r: Vec<WorkerEvent<Evt>>)
        requires
            self.wf(),
    {
        let (mut drained, _) = self.drain_replies();
        let mut out: Vec<WorkerEvent<Evt>> = Vec::new();
        while drained.len() > 0
            decreases drained@.len(),
        {
            let reply = drained.remove(0);
            out.push(WorkerEvent { payload: reply.payload, bytes: reply.bytes });
        }
        out
    }
}

/// Only the first reply of a command carries its correlation ID: once a reply
/// has taken it, every later reply gets none.
pub proof fn lemma_correlation_id_taken_once(correlation_id: Option<u64>, routed: bool)
    ensures
        spec_take_correlation_id(false, correlation_id).0 == correlation_id,
        spec_take_correlation_id(routed, correlation_id).1,
        spec_take_correlation_id(spec_take_correlation_id(routed, correlation_id).1, correlation_id).0 is None,
{
}

/// The correlation IDs that `n` successive replies are routed with, from
/// routing state `routed`.
pub open spec fn spec_routed_ids(routed: bool, correlation_id: Option<u64>, n: nat) -> Seq<Option<u64>>
    decreases n,
{
    if n == 0 {
        Seq::empty()
    } else {
        let (id, next) = spec_take_correlation_id(routed, correlation_id);
        seq![id] + spec_routed_ids(next, correlation_id, (n - 1) as nat)
    }
}

/// Of the replies to one command, the first carries the command's correlation
/// ID (and so resolves the caller's call) and every other carries none (and so
/// goes to the caller's event stream).
pub proof fn lemma_first_reply_resolves_rest_are_events(correlation_id: Option<u64>, n: nat)
    requires
        n > 0,
    ensures
        spec_routed_ids(false, correlation_id, n).len() == n,
        spec_routed_ids(false, correlation_id, n)[0] == correlation_id,
        forall|i: int| 0 < i < n ==> (#[trigger] spec_routed_ids(false, correlation_id, n)[i]) is None,
{
    lemma_routed_ids_after_first(correlation_id, (n - 1) as nat);
    let rest = spec_routed_ids(true, correlation_id, (n - 1) as nat);
    let all = spec_routed_ids(false, correlation_id, n);
    assert(all == seq![correlation_id] + rest);
    assert forall|i: int| 0 < i < n implies (#[trigger] all[i]) is None by {
        assert(all[i] == rest[i - 1]);
    }
}

proof fn lemma_routed_ids_after_first(correlation_id: Option<u64>, n: nat)
    ensures
        spec_routed_ids(true, correlation_id, n).len() == n,
        forall|i: int| 0 <= i < n ==> (#[trigger] spec_routed_ids(true, correlation_id, n)[i]) is None,
    decreases n,
{
    if n > 0 {
        lemma_routed_ids_after_first(correlation_id, (n - 1) as nat);
        let rest = spec_routed_ids(true, correlation_id, (n - 1) as nat);
        let all = spec_routed_ids(true, correlation_id, n);
        assert(all == seq![None::<u64>] + rest);
        assert forall|i: int| 0 <= i < n implies (#[trigger] all[i]) is None by {
            if i > 0 {
                assert(all[i] == rest[i - 1]);
            }
        }
    }
}

impl<Evt> Clone for Context<Evt> {
    /// A clone shares the reply log with the original.
    fn clone(&self) -> (r: Self)
        ensures
            self.wf() ==> r.wf(),
            r.spec_correlation_id() == self.spec_correlation_id(),
            r.spec_bytes() == self.spec_bytes(),
    {
        Context { inner: Rc::clone(&self.inner) }
    }
}

} // verus!
