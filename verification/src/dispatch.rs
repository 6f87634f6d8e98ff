use vstd::prelude::*;
use crate::aggregate::{Aggregator, BatchResult};
use crate::bounded::BoundedScheduler;
use crate::fetch::{outcome_of, settle_fetch, FetchObservation};
use crate::outcome::Outcome;
use crate::partition::{chunks_tile, partition};
use crate::task::TaskSet;

verus! {

/// Which strategy fans the batch out across execution contexts.
#[derive(Clone, Copy, Debug, PartialEq, Eq, Structural)]
pub enum DispatchConfig {
    /// One execution context per task, no limit: appropriate only when the
    /// batch is small or the host can absorb that many connections at once.
    Unbounded,
    /// A capacity-bounded handoff queue feeding a fixed pool of long-lived
    /// workers; the submitter blocks once `capacity` tasks sit unclaimed.
    BoundedQueue { capacity: usize, workers: usize },
    /// The task set split into contiguous chunks across a pool of `workers`,
    /// with no handoff queue at all.
    DataParallel { workers: usize },
}

impl DispatchConfig {
    /// A configuration is valid when every count it carries is at least one:
    /// a queue that can hold something and a pool with at least one worker.
    pub open spec fn valid(&self) -> bool {
        match *self {
            DispatchConfig::Unbounded => true,
            DispatchConfig::BoundedQueue { capacity, workers } => capacity >= 1 && workers >= 1,
            DispatchConfig::DataParallel { workers } => workers >= 1,
        }
    }

    /// Whether this configuration is valid.
    pub fn is_valid(&self) -> (b: bool)
        ensures
            b == self.valid(),
    {
        match *self {
            DispatchConfig::Unbounded => true,
            DispatchConfig::BoundedQueue { capacity, workers } => capacity >= 1 && workers >= 1,
            DispatchConfig::DataParallel { workers } => workers >= 1,
        }
    }
}

/// The outcome of every task in a batch, each from its own observation
/// alone: position `i` holds `outcome_of(observations[i])`.
pub open spec fn outcomes_of(observations: Seq<FetchObservation>) -> Seq<Outcome> {
    observations.map_values(|obs: FetchObservation| outcome_of(obs))
}

/// Run one batch under the chosen strategy and aggregate its outcomes.
///
/// `observations` holds, for each task in order, what that task's fetch
/// observed: whether its destination already existed and, if not, how its
/// transfer ended. Whatever the strategy — and so in whatever order the
/// tasks would come off a queue or out of a chunk — the batch result holds
/// exactly one outcome per task, the outcome of that task's own observation.
/// An empty task set yields an empty result at once.
pub fn dispatch(tasks: &TaskSet, config: DispatchConfig, observations: &Vec<FetchObservation>) -> (r:
    BatchResult)
    requires
        config.valid(),
        observations@.len() == tasks@.len(),
    ensures
        r@.len() == tasks@.len(),
        r@ == outcomes_of(observations@),
{
    let n = tasks.len();
    let r = match config {
        DispatchConfig::Unbounded => dispatch_unbounded(n, observations),
        DispatchConfig::BoundedQueue { capacity, workers } => dispatch_bounded(
            n,
            capacity,
            workers,
            observations,
        ),
        DispatchConfig::DataParallel { workers } => dispatch_data_parallel(n, workers, observations),
    };
    proof {
        assert(r@ =~= outcomes_of(observations@));
    }
    r
}

/// The unbounded fan-out strategy: every task gets an execution context of
/// its own, and each settles its own slot independently of all the others.
fn dispatch_unbounded(n: usize, observations: &Vec<FetchObservation>) -> (r: BatchResult)
    requires
        observations@.len() == n,
    ensures
        r@.len() == n,
        forall|i: int| 0 <= i < n ==> #[trigger] r@[i] == outcome_of(observations@[i]),
{
    let mut agg = Aggregator::new(n);
    let mut i: usize = 0;
    while i < n
        invariant
            i <= n,
            n == observations@.len(),
            agg@.len() == n,
            forall|j: int|
                0 <= j < i ==> #[trigger] agg@[j] == Some(outcome_of(observations@[j])),
            forall|j: int| i <= j < n ==> (#[trigger] agg@[j]) is None,
        decreases n - i,
    {
        let o = settle_fetch(observations[i]);
        agg.record(i, o);
        i = i + 1;
    }
    agg.into_result()
}

/// The bounded-queue strategy: the submitter feeds the queue while it has
/// room, and otherwise a worker claims the oldest queued task and settles
/// it. The scheduler's invariant keeps the queue within `capacity` and the
/// busy workers within the pool the whole way.
fn dispatch_bounded(n: usize, capacity: usize, workers: usize, observations: &Vec<
    FetchObservation,
>) -> (r: BatchResult)
    requires
        capacity >= 1,
        workers >= 1,
        observations@.len() == n,
    ensures
        r@.len() == n,
        forall|i: int| 0 <= i < n ==> #[trigger] r@[i] == outcome_of(observations@[i]),
{
    let mut sched = BoundedScheduler::new(n, capacity, workers);
    while !sched.is_done()
        invariant
            sched.inv(),
            sched.total == n,
            sched.capacity == capacity,
            sched.workers == workers,
            n == observations@.len(),
            sched.running@.len() == 0,
            forall|i: int|
                0 <= i < n && (#[trigger] sched.results@[i]) is Some ==> sched.results@[i] == Some(
                    outcome_of(observations@[i]),
                ),
        decreases 2 * (sched.total - sched.next) + sched.queue@.len(),
    {
        if sched.can_enqueue() {
            sched.enqueue();
        } else {
            let i = sched.claim();
            let o = settle_fetch(observations[i]);
            proof {
                assert(sched.running@[0] == i);
                assert(sched.running@.contains(i));
            }
            sched.complete(i, o);
        }
    }
    sched.finish()
}

/// The data-parallel strategy: the batch is tiled into contiguous chunks,
/// one per worker, and each worker settles every task of its own chunk.
fn dispatch_data_parallel(n: usize, workers: usize, observations: &Vec<FetchObservation>) -> (r:
    BatchResult)
    requires
        workers >= 1,
        observations@.len() == n,
    ensures
        r@.len() == n,
        forall|i: int| 0 <= i < n ==> #[trigger] r@[i] == outcome_of(observations@[i]),
{
    let chunks = partition(n, workers);
    let mut agg = Aggregator::new(n);
    let mut k: usize = 0;
    let mut bound: usize = 0;
    while k < chunks.len()
        invariant
            k <= chunks@.len(),
            n == observations@.len(),
            agg@.len() == n,
            chunks_tile(chunks@, n as int),
            if k == 0 {
                bound == 0
            } else {
                bound == chunks@[k - 1].1
            },
            k == chunks@.len() ==> bound == n,
            bound <= n,
            forall|j: int|
                0 <= j < bound ==> #[trigger] agg@[j] == Some(outcome_of(observations@[j])),
            forall|j: int| bound <= j < n ==> (#[trigger] agg@[j]) is None,
        decreases chunks@.len() - k,
    {
        let (s, e) = chunks[k];
        proof {
            assert(chunks@[k as int].0 == bound);
        }
        let mut i = s;
        while i < e
            invariant
                s <= i <= e,
                e <= n,
                n == observations@.len(),
                agg@.len() == n,
                forall|j: int|
                    0 <= j < i ==> #[trigger] agg@[j] == Some(outcome_of(observations@[j])),
                forall|j: int| i <= j < n ==> (#[trigger] agg@[j]) is None,
            decreases e - i,
        {
            let o = settle_fetch(observations[i]);
            agg.record(i, o);
            i = i + 1;
        }
        bound = e;
        k = k + 1;
    }
    agg.into_result()
}

} // verus!
