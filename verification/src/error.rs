//! Error taxonomy of the deployment core.

use vstd::prelude::*;

verus! {

/// Failure of one external-command invocation.
#[derive(Debug)]
pub enum ExecError {
    /// The process could not even be spawned; carries the cause.
    SpawnFailed(String),
    /// The process ran and exited with a non-zero code; carries the code and
    /// the captured standard-error text.
    NonZeroExit(i32, String),
}

/// Failure of one host operation.
#[derive(Debug)]
pub enum HostError {
    /// An external command failed.
    Exec(ExecError),
    /// A line of realize output did not parse as a store path; carries the
    /// offending line.
    InvalidStorePath(String),
    /// Installing one key failed; carries the key name and the cause.
    KeyFailed(String, String),
}

} // verus!
