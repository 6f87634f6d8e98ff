//! Batch retrieval of remote resources: tasks pair a source URL with a
//! destination path, a dispatch strategy fans the batch out across workers,
//! and an aggregator collects exactly one outcome per task.
//!
//! The transport itself (an HTTP GET streamed to a file) and the execution
//! contexts that run tasks concurrently live outside this crate; here stand
//! the decisions they follow: when a fetch is skipped, how a transport report
//! becomes an outcome, how a bounded queue hands work to a worker pool, how a
//! task set is split across parallel workers, and when a batch result is
//! complete.

pub mod aggregate;
pub mod bounded;
pub mod dispatch;
pub mod fetch;
pub mod laws;
pub mod outcome;
pub mod partition;
pub mod task;
