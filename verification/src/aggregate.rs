use vstd::prelude::*;
use crate::outcome::Outcome;

verus! {

/// Every slot holds an outcome: the batch is fully recorded.
pub open spec fn fully_recorded(slots: Seq<Option<Outcome>>) -> bool {
    forall|i: int| 0 <= i < slots.len() ==> (#[trigger] slots[i]) is Some
}

/// The aggregated result of one batch: exactly one outcome per task, indexed
/// by the task's position in the task set. Built only from an aggregator
/// whose every slot has been recorded, so a caller can never observe a batch
/// result with missing entries.
pub struct BatchResult {
    outcomes: Vec<Outcome>,
}

impl View for BatchResult {
    type V = Seq<Outcome>;

    closed spec fn view(&self) -> Seq<Outcome> {
        self.outcomes@
    }
}

impl BatchResult {
    /// How many outcomes the result holds: one per task.
    pub fn len(&self) -> (n: usize)
        ensures
            n == self@.len(),
    {
        self.outcomes.len()
    }

    /// The outcome of the task at position `i`.
    pub fn get(&self, i: usize) -> (o: Outcome)
        requires
            i < self@.len(),
        ensures
            o == self@[i as int],
    {
        self.outcomes[i]
    }
}

/// Collects one outcome per task as execution contexts finish, in whatever
/// order they finish. A slot is written exactly once; the batch result is
/// handed out only once every slot is filled.
pub struct Aggregator {
    slots: Vec<Option<Outcome>>,
}

impl View for Aggregator {
    type V = Seq<Option<Outcome>>;

    closed spec fn view(&self) -> Seq<Option<Outcome>> {
        self.slots@
    }
}

impl Aggregator {
    /// An aggregator for a batch of `n` tasks, with every slot still empty.
    pub fn new(n: usize) -> (a: Aggregator)
        ensures
            a@.len() == n,
            forall|i: int| 0 <= i < n ==> (#[trigger] a@[i]) is None,
    {
        let mut slots: Vec<Option<Outcome>> = Vec::new();
        let mut i: usize = 0;
        while i < n
            invariant
                i <= n,
                slots@.len() == i,
                forall|j: int| 0 <= j < i ==> (#[trigger] slots@[j]) is None,
            decreases n - i,
        {
            slots.push(None);
            i = i + 1;
        }
        Aggregator { slots }
    }

    /// Record the outcome of the task at position `i`. The slot must still be
    /// empty: each task's outcome is produced exactly once.
    pub fn record(&mut self, i: usize, outcome: Outcome)
        requires
            i < old(self)@.len(),
            old(self)@[i as int] is None,
        ensures
            final(self)@ == old(self)@.update(i as int, Some(outcome)),
    {
        self.slots.set(i, Some(outcome));
    }

    /// Whether every slot has been recorded.
    pub fn is_complete(&self) -> (b: bool)
        ensures
            b == fully_recorded(self@),
    {
        let n = self.slots.len();
        let mut i: usize = 0;
        while i < n
            invariant
                i <= n,
                n == self@.len(),
                forall|j: int| 0 <= j < i ==> (#[trigger] self@[j]) is Some,
            decreases n - i,
        {
            if self.slots[i].is_none() {
                return false;
            }
            i = i + 1;
        }
        true
    }

    /// Hand the batch result out. Only a fully recorded aggregator may be
    /// turned into a result: partial results are never exposed.
    pub fn into_result(self) -> (r: BatchResult)
        requires
            fully_recorded(self@),
        ensures
            r@.len() == self@.len(),
            forall|i: int| 0 <= i < self@.len() ==> self@[i] == Some(#[trigger] r@[i]),
    {
        let n = self.slots.len();
        let mut outcomes: Vec<Outcome> = Vec::new();
        let mut i: usize = 0;
        while i < n
            invariant
                i <= n,
                n == self@.len(),
                fully_recorded(self@),
                outcomes@.len() == i,
                forall|j: int| 0 <= j < i ==> self@[j] == Some(#[trigger] outcomes@[j]),
            decreases n - i,
        {
            let o = self.slots[i].unwrap();
            outcomes.push(o);
            i = i + 1;
        }
        BatchResult { outcomes }
    }
}

} // verus!
