//! How the service ends: the first supervised unit to finish decides why the
//! process shuts down and with which exit status.
//!
//! The driver starts the listener, the interrupt watcher and the foreground
//! command (if any) together, waits for the first of them to finish, and
//! hands that to [`plan_shutdown`]. It then fires the shutdown signal, logs
//! the plan's message and exits with its status; it kills no task, each one
//! observes the signal itself. A failed setup step, before any unit starts,
//! goes to [`plan_startup_failure`] instead.
use vstd::prelude::*;
use vstd::string::*;

verus! {

/// The commands of the tool.
#[derive(Debug, Clone, Copy, PartialEq, Eq, Structural)]
pub enum CommandKind {
    Benchmark,
    Stress,
    Discover,
    Overwatch,
    DatabaseOps,
    AiModel,
}

/// Whether the end of command `kind` ends the service. A one-shot command
/// does; the sampling loop of `Overwatch` runs beside the status page, and
/// when it stops, for whatever reason, the page keeps running.
pub fn command_ends_service(kind: CommandKind) -> (r: bool)
    ensures
        r == !(kind is Overwatch),
{
    match kind {
        CommandKind::Overwatch => false,
        _ => true,
    }
}

/// The first supervised unit to finish.
#[derive(Debug, PartialEq, Eq)]
pub enum FirstCompletion {
    /// The HTTP listener ended, normally or with this error.
    Listener(Result<(), String>),
    /// The operating system's interrupt arrived.
    Interrupt,
    /// The foreground command finished.
    Command,
}

/// Why the service shuts down.
#[derive(Debug, Clone, PartialEq, Eq)]
pub enum ShutdownReason {
    ListenerStopped,
    ListenerFailed(String),
    Interrupted,
    CommandFinished,
    StartupFailed(String),
}

/// How the service shuts down.
#[derive(Debug, Clone, PartialEq, Eq)]
pub struct ShutdownPlan {
    pub reason: ShutdownReason,
    /// The process's exit status: zero for an orderly end.
    pub exit_code: i32,
    /// The last line to log.
    pub message: String,
    /// Whether there are tasks to signal.
    pub fire_signal: bool,
}

/// Exit status for a failure.
pub const FAILURE_EXIT_CODE: i32 = 1;

/// The reason, exit status and final message for the first unit to finish:
/// a listener error fails the process and its message carries the error; an
/// interrupt, a finished command or a listener that ended normally is an
/// orderly end.
pub open spec fn shutdown_spec(first: FirstCompletion) -> (ShutdownReason, i32, Seq<char>) {
    match first {
        FirstCompletion::Listener(Err(e)) => (ShutdownReason::ListenerFailed(e), FAILURE_EXIT_CODE, "web server failed: "@ + e@),
        FirstCompletion::Listener(Ok(())) => (ShutdownReason::ListenerStopped, 0, "web server has stopped"@),
        FirstCompletion::Interrupt => (ShutdownReason::Interrupted, 0, "interrupt received, shutting down"@),
        FirstCompletion::Command => (ShutdownReason::CommandFinished, 0, "command finished, shutting down"@),
    }
}

/// Decides how the service ends once `first` has finished; the other units
/// are told through the shutdown signal.
pub fn plan_shutdown(first: FirstCompletion) -> (r: ShutdownPlan)
    ensures
        r.reason == shutdown_spec(first).0,
        r.exit_code == shutdown_spec(first).1,
        r.message@ == shutdown_spec(first).2,
        r.fire_signal,
{
    match first {
        FirstCompletion::Listener(Err(e)) => {
            let mut message = String::from_str("web server failed: ");
            message.append(e.as_str());
            ShutdownPlan { reason: ShutdownReason::ListenerFailed(e), exit_code: FAILURE_EXIT_CODE, message, fire_signal: true }
        },
        FirstCompletion::Listener(Ok(())) => ShutdownPlan {
            reason: ShutdownReason::ListenerStopped,
            exit_code: 0,
            message: String::from_str("web server has stopped"),
            fire_signal: true,
        },
        FirstCompletion::Interrupt => ShutdownPlan {
            reason: ShutdownReason::Interrupted,
            exit_code: 0,
            message: String::from_str("interrupt received, shutting down"),
            fire_signal: true,
        },
        FirstCompletion::Command => ShutdownPlan {
            reason: ShutdownReason::CommandFinished,
            exit_code: 0,
            message: String::from_str("command finished, shutting down"),
            fire_signal: true,
        },
    }
}

/// Decides how the service ends when a setup step (reading the
/// configuration, opening the storage) failed with `error`: no unit is
/// started, and the process fails.
pub fn plan_startup_failure(error: String) -> (r: ShutdownPlan)
    ensures
        r.reason == ShutdownReason::StartupFailed(error),
        r.exit_code == FAILURE_EXIT_CODE,
        r.message@ == "startup failed: "@ + error@,
        !r.fire_signal,
{
    let mut message = String::from_str("startup failed: ");
    message.append(error.as_str());
    ShutdownPlan { reason: ShutdownReason::StartupFailed(error), exit_code: FAILURE_EXIT_CODE, message, fire_signal: false }
}

} // verus!
