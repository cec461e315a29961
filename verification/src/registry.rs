//! Main-thread bookkeeping of a worker bridge: whether the worker was
//! terminated, the correlation-ID counter, and the RPC calls still waiting
//! for their response.
//!
//! `V` is whatever the runtime uses to complete a call (a one-shot sender).

use std::collections::HashMap;
use vstd::prelude::*;

use crate::error::BridgeError;

verus! {

broadcast use vstd::std_specs::hash::group_hash_axioms;

/// Where an incoming message from the worker goes.
pub enum Route<V> {
    /// An uncorrelated event: it goes to the event stream.
    Event,
    /// A response to the call with this correlation ID; `Some` holds the
    /// call's completion handle, `None` means no call was waiting (stale).
    Response(u64, Option<V>),
}

/// Correlation state of one worker bridge.
pub struct CallRegistry<V> {
    terminated: bool,
    counter: u64,
    pending: HashMap<u64, V>,
}

/// The abstract state of a `CallRegistry`.
pub struct RegistryView<V> {
    /// Whether the worker has been terminated.
    pub terminated: bool,
    /// The correlation ID the next call gets.
    pub next_id: u64,
    /// The calls waiting for a response, by correlation ID.
    pub pending: Map<u64, V>,
}

impl<V> View for CallRegistry<V> {
    type V = RegistryView<V>;

    closed spec fn view(&self) -> RegistryView<V> {
        RegistryView { terminated: self.terminated, next_id: self.counter, pending: self.pending@ }
    }
}

/// The correlation ID that follows `id` (IDs wrap after `u64::MAX`).
pub open spec fn spec_next_after(id: u64) -> u64 {
    if id == u64::MAX { 0 } else { (id + 1) as u64 }
}

/// The state of a fresh bridge.
pub open spec fn spec_initial<V>() -> RegistryView<V> {
    RegistryView { terminated: false, next_id: 0, pending: Map::empty() }
}

/// Registering a call: it gets the next ID and waits under it.
pub open spec fn spec_register<V>(s: RegistryView<V>, completion: V) -> (RegistryView<V>, u64) {
    (
        RegistryView {
            terminated: s.terminated,
            next_id: spec_next_after(s.next_id),
            pending: s.pending.insert(s.next_id, completion),
        },
        s.next_id,
    )
}

/// Removing the call with correlation ID `id`, returning its completion.
pub open spec fn spec_take<V>(s: RegistryView<V>, id: u64) -> (RegistryView<V>, Option<V>) {
    (
        RegistryView { terminated: s.terminated, next_id: s.next_id, pending: s.pending.remove(id) },
        if s.pending.contains_key(id) { Some(s.pending[id]) } else { None },
    )
}

/// Routing a message that carries `correlation_id`.
pub open spec fn spec_route<V>(s: RegistryView<V>, correlation_id: Option<u64>) -> (RegistryView<V>, Route<V>) {
    match correlation_id {
        None => (s, Route::Event),
        Some(id) => (spec_take(s, id).0, Route::Response(id, spec_take(s, id).1)),
    }
}

/// Terminating: the first time, every pending call is handed back for rejection.
pub open spec fn spec_terminate<V>(s: RegistryView<V>) -> (RegistryView<V>, Option<Map<u64, V>>) {
    if s.terminated {
        (s, None)
    } else {
        (RegistryView { terminated: true, next_id: s.next_id, pending: Map::empty() }, Some(s.pending))
    }
}

/// Closing when the last handle goes: terminate if needed, hand back every pending call.
pub open spec fn spec_close<V>(s: RegistryView<V>) -> (RegistryView<V>, (bool, Map<u64, V>)) {
    (RegistryView { terminated: true, next_id: s.next_id, pending: Map::empty() }, (!s.terminated, s.pending))
}

impl<V> CallRegistry<V> {
    /// A fresh bridge: open, no call issued yet.
    pub fn new() -> (r: Self)
        ensures
            r@ == spec_initial::<V>(),
    {
        CallRegistry { terminated: false, counter: 0, pending: HashMap::new() }
    }

    /// Check if the worker has been terminated.
    pub fn is_terminated(&self) -> (r: bool)
        ensures
            r == self@.terminated,
    {
        self.terminated
    }

    /// The check made before posting anything to the worker: fails with
    /// `Terminated` exactly when the worker has been terminated.
    pub fn ensure_open(&self) -> (r: Result<(), BridgeError>)
        ensures
            r is Ok <==> !self@.terminated,
            r matches Err(e) ==> e is Terminated,
    {
        if self.terminated {
            Err(BridgeError::Terminated)
        } else {
            Ok(())
        }
    }

    /// Register a call waiting for its response; returns its correlation ID.
    /// Calls are registered only while the worker is open.
    pub fn register(&mut self, completion: V) -> (id: u64)
        requires
            !old(self)@.terminated,
        ensures
            (final(self)@, id) == spec_register(old(self)@, completion),
    {
        let id: u64 = self.counter;
        self.counter = self.counter.wrapping_add(1);
        self.pending.insert(id, completion);
        id
    }

    /// Start an RPC call: refused with `Terminated` once the worker has been
    /// terminated; otherwise the call is registered and gets its correlation ID.
    pub fn open_call(&mut self, completion: V) -> (r: Result<u64, BridgeError>)
        ensures
            old(self)@.terminated ==> (r matches Err(e) && e is Terminated) && final(self)@ == old(self)@,
            !old(self)@.terminated ==> (r matches Ok(id) && (final(self)@, id) == spec_register(old(self)@, completion)),
    {
        if self.terminated {
            return Err(BridgeError::Terminated);
        }
        Ok(self.register(completion))
    }

    /// Remove the call with this correlation ID (its response arrived, its
    /// post failed, or it was cancelled) and return its completion handle.
    pub fn take_pending(&mut self, id: u64) -> (r: Option<V>)
        ensures
            (final(self)@, r) == spec_take(old(self)@, id),
    {
        self.pending.remove(&id)
    }

    /// Route a message from the worker by its correlation ID: uncorrelated
    /// messages are events; correlated ones complete (and unregister) the call.
    pub fn route(&mut self, correlation_id: Option<u64>) -> (r: Route<V>)
        ensures
            (final(self)@, r) == spec_route(old(self)@, correlation_id),
    {
        match correlation_id {
            None => Route::Event,
            Some(id) => {
                let completion = self.take_pending(id);
                Route::Response(id, completion)
            },
        }
    }

    /// Mark the worker terminated. The first call returns every pending call,
    /// which the runtime then rejects with `Terminated`; later calls return
    /// `None` and change nothing.
    pub fn terminate(&mut self) -> (r: Option<HashMap<u64, V>>)
        ensures
            final(self)@ == spec_terminate(old(self)@).0,
            spec_terminate(old(self)@).1 matches Some(m) ==> r matches Some(h) && h@ == m,
            spec_terminate(old(self)@).1 is None ==> r is None,
    {
        if self.terminated {
            return None;
        }
        self.terminated = true;
        let mut drained: HashMap<u64, V> = HashMap::new();
        std::mem::swap(&mut drained, &mut self.pending);
        Some(drained)
    }

    /// Close the bridge for good (its last handle is gone): returns whether
    /// the worker still has to be terminated, and every pending call, which the
    /// runtime rejects with `Terminated`.
    pub fn close(&mut self) -> (r: (bool, HashMap<u64, V>))
        ensures
            final(self)@ == spec_close(old(self)@).0,
            r.0 == spec_close(old(self)@).1.0,
            r.1@ == spec_close(old(self)@).1.1,
    {
        let was_open = !self.terminated;
        self.terminated = true;
        let mut drained: HashMap<u64, V> = HashMap::new();
        std::mem::swap(&mut drained, &mut self.pending);
        (was_open, drained)
    }
}

/// A response that carries the correlation ID a call was registered with
/// completes exactly that call, and only once: a second response with the same
/// ID finds no call waiting.
pub proof fn lemma_response_completes_its_call<V>(s: RegistryView<V>, completion: V)
    ensures
        ({
            let (s1, id) = spec_register(s, completion);
            let (s2, first) = spec_route(s1, Some(id));
            let (_s3, second) = spec_route(s2, Some(id));
            &&& first == Route::Response(id, Some(completion))
            &&& second == Route::<V>::Response(id, None)
        }),
{
}

/// Registering the calls `completions`, in order, one after another.
pub open spec fn spec_register_all<V>(s: RegistryView<V>, completions: Seq<V>) -> (RegistryView<V>, Seq<u64>)
    decreases completions.len(),
{
    if completions.len() == 0 {
        (s, Seq::empty())
    } else {
        let (s1, ids) = spec_register_all(s, completions.drop_last());
        let (s2, id) = spec_register(s1, completions.last());
        (s2, ids.push(id))
    }
}

/// Calls registered one after another get the IDs `c, c + 1, c + 2, ...`
/// from the counter `c`: as long as they stay below `2^64` the IDs are
/// pairwise distinct, and each call stays pending under its own ID with its
/// own completion handle; no other pending call is touched.
pub proof fn lemma_register_all<V>(s: RegistryView<V>, completions: Seq<V>)
    requires
        s.next_id + completions.len() <= u64::MAX + 1,
    ensures
        ({
            let (t, ids) = spec_register_all(s, completions);
            &&& ids.len() == completions.len()
            &&& forall|i: int| 0 <= i < ids.len() ==> #[trigger] ids[i] == s.next_id + i
            &&& forall|i: int, j: int| 0 <= i < j < ids.len() ==> ids[i] != ids[j]
            &&& forall|i: int| 0 <= i < ids.len() ==> t.pending.contains_key(#[trigger] ids[i])
                && t.pending[ids[i]] == completions[i]
            &&& forall|k: u64| !(s.next_id <= k < s.next_id + completions.len()) ==> #[trigger] t.pending.get(k)
                == s.pending.get(k)
            &&& t.terminated == s.terminated
            &&& s.next_id + completions.len() <= u64::MAX ==> t.next_id == s.next_id + completions.len()
        }),
    decreases completions.len(),
{
    let n = completions.len();
    if n > 0 {
        let front = completions.drop_last();
        lemma_register_all(s, front);
        let (s1, ids1) = spec_register_all(s, front);
        let (t, ids) = spec_register_all(s, completions);
        assert(s1.next_id == s.next_id + n - 1);
        assert(ids == ids1.push(s1.next_id));
        assert forall|i: int| 0 <= i < ids.len() implies t.pending.contains_key(#[trigger] ids[i])
            && t.pending[ids[i]] == completions[i] by {
            if i < n - 1 {
                assert(ids[i] == ids1[i]);
                assert(front[i] == completions[i]);
            }
        }
        assert forall|k: u64| !(s.next_id <= k < s.next_id + n) implies #[trigger] t.pending.get(k)
            == s.pending.get(k) by {
            assert(s1.pending.get(k) == s.pending.get(k));
        }
    }
}

/// Terminating `k` times in a row: the final state, how many times the
/// worker itself was terminated (a terminate that hands back the pending
/// calls), and all calls handed back for rejection.
pub open spec fn spec_terminate_times<V>(s: RegistryView<V>, k: nat) -> (RegistryView<V>, nat, Map<u64, V>)
    decreases k,
{
    if k == 0 {
        (s, 0, Map::empty())
    } else {
        let (s1, count, rejected) = spec_terminate_times(s, (k - 1) as nat);
        match spec_terminate(s1) {
            (s2, Some(m)) => (s2, count + 1, rejected.union_prefer_right(m)),
            (s2, None) => (s2, count, rejected),
        }
    }
}

/// What every reachable bridge state satisfies: a terminated bridge has no
/// pending call.
pub open spec fn spec_registry_inv<V>(s: RegistryView<V>) -> bool {
    s.terminated ==> s.pending.is_empty()
}

/// Every operation keeps the state invariant: a fresh bridge satisfies it,
/// calls are registered only while open (`open_call` leaves a terminated
/// bridge unchanged, `register` requires an open one), and taking, routing,
/// terminating and closing keep it.
pub proof fn lemma_registry_inv_preserved<V>(s: RegistryView<V>, completion: V, id: u64, correlation_id: Option<u64>)
    requires
        spec_registry_inv(s),
    ensures
        spec_registry_inv(spec_initial::<V>()),
        !s.terminated ==> spec_registry_inv(spec_register(s, completion).0),
        spec_registry_inv(spec_take(s, id).0),
        spec_registry_inv(spec_route(s, correlation_id).0),
        spec_registry_inv(spec_terminate(s).0),
        spec_registry_inv(spec_close(s).0),
{
    if s.terminated {
        assert(s.pending.remove(id) =~= s.pending);
    }
}

/// However many times a bridge is terminated (through any of its handles,
/// zero or more times), followed by the drop of its last handle: the worker
/// is terminated exactly once over the bridge's life (here, unless an earlier
/// terminate already did), every call pending before is handed back for
/// rejection with `Terminated`, none stays pending, and the bridge ends
/// terminated; after the first of these terminates it reports terminated.
pub proof fn lemma_terminate_once_overall<V>(s: RegistryView<V>, k: nat)
    requires
        spec_registry_inv(s),
    ensures
        ({
            let (s1, count, rejected) = spec_terminate_times(s, k);
            let (s2, (was_open, rest)) = spec_close(s1);
            &&& count + (if was_open { 1int } else { 0int }) == (if s.terminated { 0int } else { 1int })
            &&& rejected.union_prefer_right(rest) == s.pending
            &&& s2.terminated
            &&& s2.pending.is_empty()
            &&& k > 0 ==> s1.terminated && s1.pending.is_empty()
        }),
{
    lemma_terminate_times(s, k);
    let (s1, count, rejected) = spec_terminate_times(s, k);
    let (s2, (was_open, rest)) = spec_close(s1);
    assert(rejected.union_prefer_right(rest) =~= s.pending);
}

proof fn lemma_terminate_times<V>(s: RegistryView<V>, k: nat)
    ensures
        (k == 0 || s.terminated) ==> spec_terminate_times(s, k) == (s, 0nat, Map::<u64, V>::empty()),
        (k > 0 && !s.terminated) ==> spec_terminate_times(s, k) == (spec_terminate(s).0, 1nat, s.pending),
    decreases k,
{
    if k > 0 {
        lemma_terminate_times(s, (k - 1) as nat);
        if k == 1 && !s.terminated {
            assert(Map::<u64, V>::empty().union_prefer_right(s.pending) =~= s.pending);
        }
    }
}

/// Taking (or routing a response to) the call with correlation ID `id`
/// returns that call's completion handle if it is pending, removes only that
/// call, and leaves every other pending call, the counter and the terminated
/// flag as they were. An uncorrelated message changes nothing.
pub proof fn lemma_take_touches_only_its_id<V>(s: RegistryView<V>, id: u64, other: u64)
    requires
        other != id,
    ensures
        spec_take(s, id).1 == s.pending.get(id),
        spec_take(s, id).0.pending.get(id) is None,
        spec_take(s, id).0.pending.get(other) == s.pending.get(other),
        spec_take(s, id).0.next_id == s.next_id,
        spec_take(s, id).0.terminated == s.terminated,
        spec_route(s, Some(id)).1 == Route::Response(id, s.pending.get(id)),
        spec_route(s, Some(id)).0.pending.get(id) is None,
        spec_route(s, Some(id)).0.pending.get(other) == s.pending.get(other),
        spec_route(s, Some(id)).0.next_id == s.next_id,
        spec_route(s, Some(id)).0.terminated == s.terminated,
        spec_route(s, None) == (s, Route::<V>::Event),
{
}

/// Registering a call leaves every other pending call as it was.
pub proof fn lemma_register_keeps_other_calls<V>(s: RegistryView<V>, completion: V, other: u64)
    requires
        other != s.next_id,
    ensures
        spec_register(s, completion).0.pending.get(other) == s.pending.get(other),
{
}

/// Two consecutive calls get distinct correlation IDs.
pub proof fn lemma_ids_distinct<V>(s: RegistryView<V>, a: V, b: V)
    ensures
        ({
            let (s1, id1) = spec_register(s, a);
            let (_s2, id2) = spec_register(s1, b);
            id1 != id2
        }),
{
}

/// Termination is final: no operation makes a terminated bridge open again,
/// so every later send or call is refused with `Terminated`.
pub proof fn lemma_terminated_is_final<V>(s: RegistryView<V>, completion: V, id: u64, correlation_id: Option<u64>)
    requires
        s.terminated,
    ensures
        spec_register(s, completion).0.terminated,
        spec_take(s, id).0.terminated,
        spec_route(s, correlation_id).0.terminated,
        spec_terminate(s).0.terminated,
        spec_close(s).0.terminated,
{
}

/// Terminating hands back every pending call exactly once and leaves none
/// waiting; terminating again hands back nothing and changes nothing.
pub proof fn lemma_terminate_drains_once<V>(s: RegistryView<V>, id: u64)
    requires
        !s.terminated,
    ensures
        spec_terminate(s).1 == Some(s.pending),
        spec_terminate(s).0.pending.is_empty(),
        spec_route(spec_terminate(s).0, Some(id)).1 == Route::<V>::Response(id, None),
        spec_terminate(spec_terminate(s).0) == (spec_terminate(s).0, None::<Map<u64, V>>),
{
}

} // verus!
