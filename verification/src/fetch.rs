use vstd::prelude::*;
use crate::outcome::{FailReason, Outcome, SkipReason};

verus! {

/// The status code that counts as success.
pub const STATUS_OK: u32 = 200;

/// What the transport reported for one attempted transfer.
#[derive(Clone, Copy, Debug, PartialEq, Eq, Structural)]
pub enum TransportEvent {
    /// The transfer ran to the end and the remote answered with this status.
    Status(u32),
    /// The transfer failed below the protocol: name resolution, connection,
    /// or writing the received bytes.
    TransportError,
}

/// Everything one fetch can observe about its task: either the destination
/// was already present when checked, or a transfer was run and the transport
/// reported an event.
#[derive(Clone, Copy, Debug, PartialEq, Eq, Structural)]
pub enum FetchObservation {
    /// The destination existed before the fetch; nothing was transferred.
    DestinationExists,
    /// The destination was absent; a transfer ran and ended with this event.
    Transferred(TransportEvent),
}

/// The move the fetch makes once the destination has been checked.
#[derive(Clone, Copy, Debug, PartialEq, Eq, Structural)]
pub enum FetchAction {
    /// Return at once; touch neither the network nor the file.
    SkipExisting,
    /// Create the destination and stream the source into it.
    Transfer,
}

/// The action a fetch takes, as a function of the existence check alone.
pub open spec fn action_of(destination_exists: bool) -> FetchAction {
    if destination_exists {
        FetchAction::SkipExisting
    } else {
        FetchAction::Transfer
    }
}

/// The outcome of one fetch, as a function of what it observed.
pub open spec fn outcome_of(obs: FetchObservation) -> Outcome {
    match obs {
        FetchObservation::DestinationExists => Outcome::Skipped(SkipReason::AlreadyExists),
        FetchObservation::Transferred(TransportEvent::Status(code)) => if code == STATUS_OK {
            Outcome::Completed
        } else {
            Outcome::Failed(FailReason::BadStatus(code))
        },
        FetchObservation::Transferred(TransportEvent::TransportError) => Outcome::Failed(
            FailReason::IoError,
        ),
    }
}

/// Decide, from the destination's existence, whether to transfer at all.
/// A fetch whose destination exists is skipped before any network access.
pub fn plan_fetch(destination_exists: bool) -> (action: FetchAction)
    ensures
        action == action_of(destination_exists),
{
    if destination_exists {
        FetchAction::SkipExisting
    } else {
        FetchAction::Transfer
    }
}

/// Turn what a fetch observed into its task's outcome: an existing
/// destination is skipped; a transfer that ended with the success status is
/// completed; any other status is a failure carrying that status; a
/// transport-level error is an I/O failure.
pub fn settle_fetch(obs: FetchObservation) -> (outcome: Outcome)
    ensures
        outcome == outcome_of(obs),
{
    match obs {
        FetchObservation::DestinationExists => Outcome::Skipped(SkipReason::AlreadyExists),
        FetchObservation::Transferred(TransportEvent::Status(code)) => if code == STATUS_OK {
            Outcome::Completed
        } else {
            Outcome::Failed(FailReason::BadStatus(code))
        },
        FetchObservation::Transferred(TransportEvent::TransportError) => Outcome::Failed(
            FailReason::IoError,
        ),
    }
}

} // verus!
