use vstd::prelude::*;

verus! {

/// Why a task was skipped without any transfer being attempted.
#[derive(Clone, Copy, Debug, PartialEq, Eq, Structural)]
pub enum SkipReason {
    /// The destination file was already present, so the fetch short-circuits.
    AlreadyExists,
}

/// Why a task failed.
#[derive(Clone, Copy, Debug, PartialEq, Eq, Structural)]
pub enum FailReason {
    /// A local file error or a transport-level error (name resolution,
    /// connection, a failed write).
    IoError,
    /// The remote answered, but with a status other than success.
    BadStatus(u32),
}

/// The result of one task. Exactly one outcome is produced per task.
#[derive(Clone, Copy, Debug, PartialEq, Eq, Structural)]
pub enum Outcome {
    /// The transfer ran to the end and the remote reported success.
    Completed,
    /// No transfer was attempted.
    Skipped(SkipReason),
    /// The transfer was attempted and did not succeed. The destination file
    /// may still have been created and partially written.
    Failed(FailReason),
}

} // verus!
