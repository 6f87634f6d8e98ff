use vstd::prelude::*;
use crate::aggregate::{fully_recorded, Aggregator, BatchResult};
use crate::outcome::Outcome;

verus! {

/// No position occurs twice in `s`.
pub open spec fn distinct(s: Seq<usize>) -> bool {
    forall|k1: int, k2: int| 0 <= k1 < k2 < s.len() ==> s[k1] != s[k2]
}

/// No position occurs in both `a` and `b`.
pub open spec fn disjoint(a: Seq<usize>, b: Seq<usize>) -> bool {
    forall|k1: int, k2: int|
        0 <= k1 < a.len() && 0 <= k2 < b.len() ==> a[k1] != b[k2]
}

/// The bounded-queue dispatch strategy as a state machine over task
/// positions. A capacity-bounded handoff queue feeds a fixed pool of
/// workers: the submitting side enqueues task positions in order and blocks
/// once `capacity` of them sit unclaimed; a free worker claims the oldest
/// queued position; a finished worker settles its position with an outcome.
/// The execution contexts themselves live outside this crate — they drive
/// this machine, which decides what each step may do and guarantees that
/// every task is claimed and settled exactly once.
pub struct BoundedScheduler {
    /// How many tasks the batch holds.
    pub total: usize,
    /// The most task positions that may sit queued-but-unclaimed at once.
    pub capacity: usize,
    /// The most task positions that may be claimed-but-unsettled at once.
    pub workers: usize,
    /// The next task position the submitter will enqueue; positions below it
    /// have been handed in already.
    pub next: usize,
    /// The queued-but-unclaimed positions, oldest first.
    pub queue: Vec<usize>,
    /// The claimed-but-unsettled positions, one per busy worker.
    pub running: Vec<usize>,
    /// One slot per task; a slot is filled when its task is settled.
    pub results: Aggregator,
}

impl BoundedScheduler {
    /// The state invariant: every operation establishes and preserves it, so
    /// it holds in every reachable state. The queue never exceeds the
    /// capacity, the busy workers never exceed the pool size, and every task
    /// position is in exactly one place — not yet enqueued, queued, claimed,
    /// or settled.
    pub open spec fn inv(&self) -> bool {
        &&& self.capacity >= 1
        &&& self.workers >= 1
        &&& self.next <= self.total
        &&& self.results@.len() == self.total
        &&& self.queue@.len() <= self.capacity
        &&& self.running@.len() <= self.workers
        &&& forall|k: int| 0 <= k < self.queue@.len() ==> #[trigger] self.queue@[k] < self.next
        &&& forall|k: int|
            0 <= k < self.running@.len() ==> #[trigger] self.running@[k] < self.next
        &&& distinct(self.queue@)
        &&& distinct(self.running@)
        &&& disjoint(self.queue@, self.running@)
        &&& forall|i: int| self.next <= i < self.total ==> (#[trigger] self.results@[i]) is None
        &&& forall|i: int|
            0 <= i < self.next ==> ((#[trigger] self.results@[i]) is Some <==> !self.queue@.contains(
                i as usize,
            ) && !self.running@.contains(i as usize))
    }

    /// All work has been handed in, claimed, and settled.
    pub open spec fn done(&self) -> bool {
        self.next == self.total && self.queue@.len() == 0 && self.running@.len() == 0
    }

    /// A fresh machine for a batch of `total` tasks: nothing enqueued,
    /// nobody busy, no slot filled.
    pub fn new(total: usize, capacity: usize, workers: usize) -> (s: BoundedScheduler)
        requires
            capacity >= 1,
            workers >= 1,
        ensures
            s.inv(),
            s.total == total,
            s.capacity == capacity,
            s.workers == workers,
            s.next == 0,
            s.queue@ =~= Seq::<usize>::empty(),
            s.running@ =~= Seq::<usize>::empty(),
            forall|i: int| 0 <= i < total ==> (#[trigger] s.results@[i]) is None,
    {
        BoundedScheduler {
            total,
            capacity,
            workers,
            next: 0,
            queue: Vec::new(),
            running: Vec::new(),
            results: Aggregator::new(total),
        }
    }

    /// Whether the submitter may push the next task position: work remains
    /// and the queue is not full. When the queue is full the submitter
    /// blocks — this is the backpressure that keeps it at most `capacity`
    /// tasks ahead of the workers.
    pub fn can_enqueue(&self) -> (b: bool)
        ensures
            b == (self.next < self.total && self.queue@.len() < self.capacity),
    {
        self.next < self.total && self.queue.len() < self.capacity
    }

    /// The submitter pushes the next task position onto the queue.
    pub fn enqueue(&mut self)
        requires
            old(self).inv(),
            old(self).next < old(self).total,
            old(self).queue@.len() < old(self).capacity,
        ensures
            final(self).inv(),
            final(self).next == old(self).next + 1,
            final(self).queue@ == old(self).queue@.push(old(self).next),
            final(self).running == old(self).running,
            final(self).results == old(self).results,
            final(self).total == old(self).total,
            final(self).capacity == old(self).capacity,
            final(self).workers == old(self).workers,
    {
        let i = self.next;
        self.queue.push(i);
        self.next = i + 1;
        proof {
            assert forall|x: usize| self.queue@.contains(x) implies old(self).queue@.contains(x)
                || x == i by {
                let k = choose|k: int| 0 <= k < self.queue@.len() && self.queue@[k] == x;
                if k < old(self).queue@.len() {
                    assert(old(self).queue@[k] == x);
                }
            }
            assert forall|x: usize| old(self).queue@.contains(x) implies self.queue@.contains(
                x,
            ) by {
                let k = choose|k: int| 0 <= k < old(self).queue@.len() && old(self).queue@[k] == x;
                assert(self.queue@[k] == x);
            }
            assert(self.queue@.contains(i)) by {
                assert(self.queue@[self.queue@.len() - 1] == i);
            }
        }
    }

    /// Whether a free worker may take work: something is queued and the pool
    /// is not saturated.
    pub fn can_claim(&self) -> (b: bool)
        ensures
            b == (self.queue@.len() > 0 && self.running@.len() < self.workers),
    {
        self.queue.len() > 0 && self.running.len() < self.workers
    }

    /// A free worker claims the oldest queued position — submission order is
    /// preserved up to the moment of being taken.
    pub fn claim(&mut self) -> (i: usize)
        requires
            old(self).inv(),
            old(self).queue@.len() > 0,
            old(self).running@.len() < old(self).workers,
        ensures
            final(self).inv(),
            i == old(self).queue@[0],
            i < old(self).total,
            final(self).queue@ == old(self).queue@.remove(0),
            final(self).running@ == old(self).running@.push(i),
            final(self).results == old(self).results,
            final(self).next == old(self).next,
            final(self).total == old(self).total,
            final(self).capacity == old(self).capacity,
            final(self).workers == old(self).workers,
    {
        let i = self.queue.remove(0);
        self.running.push(i);
        proof {
            assert forall|x: usize| self.queue@.contains(x) implies old(self).queue@.contains(x)
                && x != i by {
                let k = choose|k: int| 0 <= k < self.queue@.len() && self.queue@[k] == x;
                assert(old(self).queue@[k + 1] == x);
            }
            assert forall|x: usize| old(self).queue@.contains(x) && x != i implies self
                .queue@
                .contains(x) by {
                let k = choose|k: int| 0 <= k < old(self).queue@.len() && old(self).queue@[k] == x;
                assert(k != 0);
                assert(self.queue@[k - 1] == x);
            }
            assert forall|x: usize| self.running@.contains(x) implies old(
                self,
            ).running@.contains(x) || x == i by {
                let k = choose|k: int| 0 <= k < self.running@.len() && self.running@[k] == x;
                if k < old(self).running@.len() {
                    assert(old(self).running@[k] == x);
                }
            }
            assert forall|x: usize| old(self).running@.contains(x) implies self
                .running@
                .contains(x) by {
                let k = choose|k: int|
                    0 <= k < old(self).running@.len() && old(self).running@[k] == x;
                assert(self.running@[k] == x);
            }
            assert(self.running@.contains(i)) by {
                assert(self.running@[self.running@.len() - 1] == i);
            }
            assert(old(self).queue@.contains(i)) by {
                assert(old(self).queue@[0] == i);
            }
        }
        i
    }

    /// A worker settles the position it claimed with that task's outcome.
    pub fn complete(&mut self, i: usize, outcome: Outcome)
        requires
            old(self).inv(),
            old(self).running@.contains(i),
        ensures
            final(self).inv(),
            final(self).results@ == old(self).results@.update(i as int, Some(outcome)),
            final(self).running@.len() == old(self).running@.len() - 1,
            exists|k: int|
                0 <= k < old(self).running@.len() && old(self).running@[k] == i
                    && final(self).running@ == old(self).running@.remove(k),
            final(self).queue@ == old(self).queue@,
            final(self).next == old(self).next,
            final(self).total == old(self).total,
            final(self).capacity == old(self).capacity,
            final(self).workers == old(self).workers,
    {
        let ghost pre = *self;
        let mut k: usize = 0;
        while self.running[k] != i
            invariant
                *self == pre,
                pre.inv(),
                pre.running@.contains(i),
                k < pre.running@.len(),
                forall|j: int| 0 <= j < k ==> pre.running@[j] != i,
            decreases pre.running@.len() - k,
        {
            k = k + 1;
            proof {
                let w = choose|w: int|
                    0 <= w < pre.running@.len() && pre.running@[w] == i;
                assert(w >= k);
            }
        }
        self.running.remove(k);
        proof {
            assert(pre.running@[k as int] == i);
            assert(pre.results@[i as int] is None) by {
                assert(pre.running@.contains(i));
            }
        }
        self.results.record(i, outcome);
        proof {
            let post = *self;
            assert forall|x: usize| post.running@.contains(x) implies pre.running@.contains(x)
                && x != i by {
                let m = choose|m: int| 0 <= m < post.running@.len() && post.running@[m] == x;
                if m < k {
                    assert(pre.running@[m] == x);
                    assert(x != i) by {
                        if x == i {
                            assert(pre.running@[m] == pre.running@[k as int]);
                        }
                    }
                } else {
                    assert(pre.running@[m + 1] == x);
                    assert(x != i) by {
                        if x == i {
                            assert(pre.running@[m + 1] == pre.running@[k as int]);
                        }
                    }
                }
            }
            assert forall|x: usize| pre.running@.contains(x) && x != i implies post
                .running@
                .contains(x) by {
                let m = choose|m: int| 0 <= m < pre.running@.len() && pre.running@[m] == x;
                if m < k {
                    assert(post.running@[m] == x);
                } else {
                    assert(m != k);
                    assert(post.running@[m - 1] == x);
                }
            }
        }
    }

    /// Whether every task has been handed in, claimed, and settled.
    pub fn is_done(&self) -> (b: bool)
        ensures
            b == self.done(),
    {
        self.next == self.total && self.queue.len() == 0 && self.running.len() == 0
    }

    /// Once the machine is done, every slot is filled.
    pub proof fn lemma_done_fully_recorded(&self)
        requires
            self.inv(),
            self.done(),
        ensures
            fully_recorded(self.results@),
    {
        assert forall|i: int| 0 <= i < self.results@.len() implies (#[trigger] self.results@[i])
            is Some by {
            assert(!self.queue@.contains(i as usize));
            assert(!self.running@.contains(i as usize));
        }
    }

    /// Hand out the batch result. Only a machine that is done may do so:
    /// the result is complete, one outcome per task.
    pub fn finish(self) -> (r: BatchResult)
        requires
            self.inv(),
            self.done(),
        ensures
            r@.len() == self.total,
            forall|i: int| 0 <= i < self.total ==> self.results@[i] == Some(#[trigger] r@[i]),
    {
        proof {
            self.lemma_done_fully_recorded();
        }
        self.results.into_result()
    }
}

} // verus!
