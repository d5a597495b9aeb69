//! External commands: what to run, and how a run ended.
use vstd::prelude::*;

verus! {

/// A command to run: a program, its arguments in order, and where its output
/// goes (a file that takes both standard output and standard error, or, when
/// `None`, buffers in memory).
#[derive(Debug, Clone, PartialEq, Eq)]
pub struct CommandSpec {
    pub program: String,
    pub args: Vec<String>,
    pub output_file: Option<String>,
}

/// How one run of a command ended.
#[derive(Debug, Clone, PartialEq, Eq)]
pub enum ExecutionOutcome {
    /// The process ran and exited, whatever its exit code (`None` when a
    /// signal ended it). Output sent to a file leaves both texts empty.
    Success { stdout: String, stderr: String, exit_code: Option<i32> },
    /// The process could not be started (missing binary, no execute permission).
    SpawnFailed { reason: String },
    /// Waiting for the process failed.
    WaitFailed { reason: String },
}

impl ExecutionOutcome {
    /// Whether the process ran and exited.
    pub fn is_success(&self) -> (r: bool)
        ensures
            r == (self is Success),
    {
        match self {
            ExecutionOutcome::Success { .. } => true,
            _ => false,
        }
    }
}

} // verus!
