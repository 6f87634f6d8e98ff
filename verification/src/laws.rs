use vstd::prelude::*;
use crate::bounded::BoundedScheduler;
use crate::dispatch::outcomes_of;
use crate::fetch::{action_of, outcome_of, FetchAction, FetchObservation, TransportEvent, STATUS_OK};
use crate::outcome::{Outcome, SkipReason};

verus! {

/// Idempotence of the fetch primitive: once a destination exists — as it
/// does after a first fetch of it succeeded — every later fetch of that
/// destination is planned as a skip before any network access, and its
/// outcome is `Skipped(AlreadyExists)` whatever the transport would have
/// reported. Nothing is transferred, so the file is left as it was.
pub proof fn lemma_fetch_idempotent()
    ensures
        action_of(true) == FetchAction::SkipExisting,
        outcome_of(FetchObservation::DestinationExists) == Outcome::Skipped(
            SkipReason::AlreadyExists,
        ),
        outcome_of(FetchObservation::Transferred(TransportEvent::Status(STATUS_OK)))
            == Outcome::Completed,
{
}

/// Completeness of a batch: the outcomes of a batch hold exactly one entry
/// per task, however many of them succeed or fail. Every strategy returns
/// exactly these outcomes, so this holds of `dispatch` for every
/// configuration.
pub proof fn lemma_batch_complete(observations: Seq<FetchObservation>)
    ensures
        outcomes_of(observations).len() == observations.len(),
{
}

/// Isolation: each task's outcome is a function of that task's own
/// observation alone. Two batches whose observations agree at a position
/// agree in that position's outcome, however every other task in either
/// batch fared — in particular, one task's bad status leaves every other
/// task's outcome untouched.
pub proof fn lemma_isolation(
    a: Seq<FetchObservation>,
    b: Seq<FetchObservation>,
    i: int,
)
    requires
        0 <= i < a.len(),
        0 <= i < b.len(),
        a[i] == b[i],
    ensures
        outcomes_of(a)[i] == outcomes_of(b)[i],
{
}

/// Backpressure: in every state of the bounded-queue scheduler that
/// satisfies its invariant — and every operation establishes and preserves
/// it, so every reachable state does — at most `capacity` tasks sit
/// queued-but-unclaimed and at most `workers` tasks are claimed and
/// executing at once.
pub proof fn lemma_backpressure(s: &BoundedScheduler)
    requires
        s.inv(),
    ensures
        s.queue@.len() <= s.capacity,
        s.running@.len() <= s.workers,
{
}

} // verus!
