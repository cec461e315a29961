//! Routing of commands across a pool of workers.

use vstd::prelude::*;

verus! {

/// Strategy for routing commands to workers.
#[derive(Debug, Clone, Copy, PartialEq, Eq, Structural)]
pub enum RoutingStrategy {
    /// Round-robin across all workers. Simple, fair.
    RoundRobin,
    /// Always route to worker 0. Use for ordered commands
    /// where sequencing matters (e.g., `OpenDataset` then `FetchPage`).
    Pinned,
}

/// A pool of N workers with command routing.
///
/// `H` is the handle type of one worker. The routing counter wraps after
/// `usize::MAX`.
#[derive(Clone)]
pub struct WorkerPool<H> {
    handles: Vec<H>,
    counter: usize,
    strategy: RoutingStrategy,
}

/// The worker index chosen by one routing step, and the counter after it.
pub open spec fn spec_pick(strategy: RoutingStrategy, counter: usize, size: nat) -> (usize, usize) {
    match strategy {
        RoutingStrategy::Pinned => (0, counter),
        RoutingStrategy::RoundRobin => (
            ((counter as int) % (size as int)) as usize,
            if counter == usize::MAX { 0 } else { (counter + 1) as usize },
        ),
    }
}

/// The worker indices chosen by `k` successive routing steps from `counter`.
pub open spec fn spec_picks(strategy: RoutingStrategy, counter: usize, size: nat, k: nat) -> Seq<usize>
    decreases k,
{
    if k == 0 {
        Seq::empty()
    } else {
        let (idx, next) = spec_pick(strategy, counter, size);
        seq![idx] + spec_picks(strategy, next, size, (k - 1) as nat)
    }
}

impl<H> WorkerPool<H> {
    /// The worker handles, in index order.
    pub closed spec fn spec_handles(&self) -> Seq<H> {
        self.handles@
    }

    /// The routing counter.
    pub closed spec fn spec_counter(&self) -> usize {
        self.counter
    }

    /// The routing strategy.
    pub closed spec fn spec_strategy(&self) -> RoutingStrategy {
        self.strategy
    }

    /// A pool always holds at least one worker.
    pub closed spec fn wf(&self) -> bool {
        self.handles@.len() > 0
    }

    /// Create a pool from pre-built handles (at least one).
    pub fn new(handles: Vec<H>, strategy: RoutingStrategy) -> (r: Self)
        requires
            handles@.len() > 0,
        ensures
            r.wf(),
            r.spec_handles() == handles@,
            r.spec_counter() == 0,
            r.spec_strategy() == strategy,
    {
        WorkerPool { handles, counter: 0, strategy }
    }

    /// Number of workers in the pool.
    pub fn size(&self) -> (r: usize)
        ensures
            r == self.spec_handles().len(),
    {
        self.handles.len()
    }

    /// The routing strategy.
    pub fn strategy(&self) -> (r: RoutingStrategy)
        ensures
            r == self.spec_strategy(),
    {
        self.strategy
    }

    /// Choose the worker for the next command (per routing strategy).
    pub fn pick(&mut self) -> (r: usize)
        requires
            old(self).wf(),
        ensures
            (r, final(self).spec_counter()) == spec_pick(
                old(self).spec_strategy(),
                old(self).spec_counter(),
                old(self).spec_handles().len(),
            ),
            r < final(self).spec_handles().len(),
            final(self).wf(),
            final(self).spec_handles() == old(self).spec_handles(),
            final(self).spec_strategy() == old(self).spec_strategy(),
    {
        match self.strategy {
            RoutingStrategy::Pinned => 0,
            RoutingStrategy::RoundRobin => {
                let idx: usize = self.counter;
                self.counter = self.counter.wrapping_add(1);
                idx % self.handles.len()
            },
        }
    }

    /// The worker with this index.
    pub fn worker(&self, worker_idx: usize) -> (r: &H)
        requires
            worker_idx < self.spec_handles().len(),
        ensures
            *r == self.spec_handles()[worker_idx as int],
    {
        &self.handles[worker_idx]
    }

    /// Choose the worker for the next command and return it.
    pub fn next_worker(&mut self) -> (r: &H)
        requires
            old(self).wf(),
        ensures
            *r == old(self).spec_handles()[spec_pick(
                old(self).spec_strategy(),
                old(self).spec_counter(),
                old(self).spec_handles().len(),
            ).0 as int],
            final(self).spec_counter() == spec_pick(
                old(self).spec_strategy(),
                old(self).spec_counter(),
                old(self).spec_handles().len(),
            ).1,
            final(self).wf(),
            final(self).spec_handles() == old(self).spec_handles(),
            final(self).spec_strategy() == old(self).spec_strategy(),
    {
        let idx: usize = self.pick();
        &self.handles[idx]
    }

    /// All workers, in index order.
    pub fn workers(&self) -> (r: &[H])
        ensures
            r@ == self.spec_handles(),
    {
        self.handles.as_slice()
    }
}

/// Round-robin routing visits the workers in order and wraps around: the
/// `i`-th of `k` routing steps from counter `c` picks worker `(c + i) % n`,
/// as long as the counter does not pass `usize::MAX`.
pub proof fn lemma_round_robin_in_order(counter: usize, size: nat, k: nat)
    requires
        size > 0,
        counter + k <= usize::MAX + 1,
    ensures
        spec_picks(RoutingStrategy::RoundRobin, counter, size, k).len() == k,
        forall|i: int| 0 <= i < k ==> #[trigger] spec_picks(RoutingStrategy::RoundRobin, counter, size, k)[i]
            == (counter + i) % (size as int),
    decreases k,
{
    if k > 0 {
        lemma_round_robin_in_order_tail(counter, size, k);
    }
}

proof fn lemma_round_robin_in_order_tail(counter: usize, size: nat, k: nat)
    requires
        size > 0,
        k > 0,
        counter + k <= usize::MAX + 1,
    ensures
        spec_picks(RoutingStrategy::RoundRobin, counter, size, k).len() == k,
        forall|i: int| 0 <= i < k ==> #[trigger] spec_picks(RoutingStrategy::RoundRobin, counter, size, k)[i]
            == (counter + i) % (size as int),
    decreases k,
{
    let (idx, next) = spec_pick(RoutingStrategy::RoundRobin, counter, size);
    let rest = spec_picks(RoutingStrategy::RoundRobin, next, size, (k - 1) as nat);
    let all = spec_picks(RoutingStrategy::RoundRobin, counter, size, k);
    assert(all == seq![idx] + rest);
    if k > 1 {
        assert(next == counter + 1);
        lemma_round_robin_in_order_tail(next, size, (k - 1) as nat);
    }
    assert forall|i: int| 0 <= i < k implies #[trigger] spec_picks(RoutingStrategy::RoundRobin, counter, size, k)[i]
        == (counter + i) % (size as int) by {
        if i > 0 {
            assert(all[i] == rest[i - 1]);
        } else {
            assert(all[0] == idx);
            assert(0 <= (counter as int) % (size as int) <= counter) by (nonlinear_arith)
                requires
                    size > 0,
                    counter >= 0,
            ;
        }
    }
}

/// Round-robin routing is fair: any `n` consecutive routing steps over a pool
/// of `n` workers (without the counter passing `usize::MAX`) give every worker
/// one of the commands.
pub proof fn lemma_round_robin_covers_all(counter: usize, size: nat, worker_idx: nat)
    requires
        size > 0,
        worker_idx < size,
        counter + size <= usize::MAX + 1,
    ensures
        exists|i: int| 0 <= i < size && #[trigger] spec_picks(RoutingStrategy::RoundRobin, counter, size, size)[i]
            == worker_idx,
{
    lemma_round_robin_in_order(counter, size, size);
    let n: int = size as int;
    let c: int = counter as int;
    let r: int = c % n;
    vstd::arithmetic::div_mod::lemma_fundamental_div_mod(c, n);
    let i: int = if worker_idx >= r { worker_idx - r } else { worker_idx + n - r };
    assert(0 <= i < n);
    if worker_idx >= r {
        assert(c + i == n * (c / n) + worker_idx);
    } else {
        assert(c + i == n * (c / n + 1) + worker_idx) by (nonlinear_arith)
            requires
                c == n * (c / n) + r,
                i == worker_idx + n - r,
        ;
        assert(c + i == n * (c / n + 1) + worker_idx);
    }
    let q: int = if worker_idx >= r { c / n } else { c / n + 1 };
    assert(c + i == n * q + worker_idx);
    vstd::arithmetic::div_mod::lemma_mod_multiples_vanish(q, worker_idx as int, n);
    vstd::arithmetic::div_mod::lemma_small_mod(worker_idx, size);
    assert(spec_picks(RoutingStrategy::RoundRobin, counter, size, size)[i] == worker_idx);
}

/// Pinned routing always picks worker 0 and leaves the counter alone.
pub proof fn lemma_pinned_always_first(counter: usize, size: nat)
    ensures
        spec_pick(RoutingStrategy::Pinned, counter, size) == (0usize, counter),
{
}

} // verus!
