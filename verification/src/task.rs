use vstd::prelude::*;

verus! {

/// One unit of work: retrieve `source` and write the bytes to `destination`.
/// Immutable once created.
pub struct Task {
    /// The URL the bytes come from.
    pub source: String,
    /// The local path the bytes go to.
    pub destination: String,
}

/// An ordered batch of tasks, submitted as one unit. Sources and
/// destinations pair up one to one; that pairing is enforced when the set is
/// built, not at dispatch time, so a task set is read-only afterwards.
pub struct TaskSet {
    tasks: Vec<Task>,
}

impl View for TaskSet {
    type V = Seq<Task>;

    closed spec fn view(&self) -> Seq<Task> {
        self.tasks@
    }
}

impl TaskSet {
    /// Pair each source with the destination at the same position. Returns
    /// `None` exactly when the two lists differ in length.
    pub fn new(sources: &Vec<String>, destinations: &Vec<String>) -> (r: Option<TaskSet>)
        ensures
            r is Some <==> sources@.len() == destinations@.len(),
            r matches Some(ts) ==> {
                &&& ts@.len() == sources@.len()
                &&& forall|i: int|
                    0 <= i < ts@.len() ==> (#[trigger] ts@[i]).source == sources@[i]
                        && ts@[i].destination == destinations@[i]
            },
    {
        if sources.len() != destinations.len() {
            return None;
        }
        let n = sources.len();
        let mut tasks: Vec<Task> = Vec::new();
        let mut i: usize = 0;
        while i < n
            invariant
                i <= n,
                n == sources@.len(),
                n == destinations@.len(),
                tasks@.len() == i,
                forall|j: int|
                    0 <= j < i ==> (#[trigger] tasks@[j]).source == sources@[j]
                        && tasks@[j].destination == destinations@[j],
            decreases n - i,
        {
            tasks.push(
                Task { source: sources[i].clone(), destination: destinations[i].clone() },
            );
            i = i + 1;
        }
        Some(TaskSet { tasks })
    }

    /// How many tasks the set holds.
    pub fn len(&self) -> (n: usize)
        ensures
            n == self@.len(),
    {
        self.tasks.len()
    }

    /// The task at position `i`.
    pub fn get(&self, i: usize) -> (t: &Task)
        requires
            i < self@.len(),
        ensures
            *t == self@[i as int],
    {
        &self.tasks[i]
    }
}

} // verus!
