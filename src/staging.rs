//! Staging: putting the load generator's executable on disk, once per path.
//!
//! A [`Stager`] decides; its driver touches the file system. The driver first
//! probes the path and hands the result to [`Stager::step`], then performs each
//! returned action and hands back what came of it, until the stager is done.
//! An existing file is never rewritten and its permissions are never reset.
use vstd::prelude::*;
use crate::platform::StressNgArch;

verus! {

/// Permission bits given to a freshly written executable: read, write and
/// execute for the owner, read and execute for group and others.
pub const EXECUTABLE_MODE: u32 = 0o755;

/// Whether permission bits `mode` let someone execute the file.
pub open spec fn mode_is_executable(mode: u32) -> bool {
    mode & 0o111u32 != 0
}

/// Whether permission bits `mode` let someone execute the file.
pub fn has_execute_permission(mode: u32) -> (r: bool)
    ensures
        r == mode_is_executable(mode),
{
    mode & 0o111 != 0
}

/// The executable as staged.
#[derive(Debug, Clone, PartialEq, Eq)]
pub struct StagedBinary {
    pub variant: StressNgArch,
    pub path: String,
    /// Whether the file has an execute permission bit.
    pub is_executable: bool,
    /// Whether this staging wrote the file (false when it was already there).
    pub written: bool,
}

/// Why staging failed.
#[derive(Debug, Clone, PartialEq, Eq)]
pub enum StageError {
    /// Writing the payload failed.
    WriteFailed(String),
    /// Setting the permission bits failed.
    PermissionFailed(String),
    /// An event came that answers no pending action.
    OutOfOrder,
}

/// What became of an attempt to create the file and write the payload.
#[derive(Debug, Clone, PartialEq, Eq)]
pub enum WriteResult {
    Written,
    /// The file appeared meanwhile; it was left untouched.
    AlreadyExists,
    Failed(String),
}

/// What the driver reports.
#[derive(Debug, PartialEq, Eq)]
pub enum StageEvent {
    /// The path was probed: the permission bits of the file there, if any.
    Probed(Option<u32>),
    /// The payload write was tried.
    WriteDone(WriteResult),
    /// Setting the permission bits was tried.
    ModeSet(Result<(), String>),
}

/// What the driver is asked to do.
#[derive(Debug, PartialEq, Eq)]
pub enum StageAction {
    /// Probe the path: does a file exist there, with which permission bits.
    Probe,
    /// Create the file, failing if it exists, and write the variant's payload.
    WritePayload,
    /// Set these permission bits on the file.
    SetMode(u32),
    /// Staging is over.
    Done(Result<StagedBinary, StageError>),
}

#[derive(Debug, Clone, Copy, PartialEq, Eq, Structural)]
pub enum StagePhase {
    Probing,
    Writing,
    SettingMode,
    Finished,
}

/// One staging of `variant` at `path`.
#[derive(Debug)]
pub struct Stager {
    pub variant: StressNgArch,
    pub path: String,
    pub phase: StagePhase,
}

/// What staging reports when it ends well.
pub open spec fn staged(variant: StressNgArch, path: String, is_executable: bool, written: bool) -> StageAction {
    StageAction::Done(Ok(StagedBinary { variant, path, is_executable, written }))
}

/// The stager's phase after `event`, and the action it asks for.
pub open spec fn step_spec(variant: StressNgArch, path: String, phase: StagePhase, event: StageEvent) -> (StagePhase, StageAction) {
    match (phase, event) {
        (StagePhase::Probing, StageEvent::Probed(Some(mode))) =>
            (StagePhase::Finished, staged(variant, path, mode_is_executable(mode), false)),
        (StagePhase::Probing, StageEvent::Probed(None)) => (StagePhase::Writing, StageAction::WritePayload),
        (StagePhase::Writing, StageEvent::WriteDone(WriteResult::Written)) =>
            (StagePhase::SettingMode, StageAction::SetMode(EXECUTABLE_MODE)),
        (StagePhase::Writing, StageEvent::WriteDone(WriteResult::AlreadyExists)) => (StagePhase::Probing, StageAction::Probe),
        (StagePhase::Writing, StageEvent::WriteDone(WriteResult::Failed(e))) =>
            (StagePhase::Finished, StageAction::Done(Err(StageError::WriteFailed(e)))),
        (StagePhase::SettingMode, StageEvent::ModeSet(Ok(()))) => (StagePhase::Finished, staged(variant, path, true, true)),
        (StagePhase::SettingMode, StageEvent::ModeSet(Err(e))) =>
            (StagePhase::Finished, StageAction::Done(Err(StageError::PermissionFailed(e)))),
        _ => (StagePhase::Finished, StageAction::Done(Err(StageError::OutOfOrder))),
    }
}

impl Stager {
    /// A staging of `variant` at `path`; the driver starts by probing the path.
    pub fn new(variant: StressNgArch, path: String) -> (r: Stager)
        ensures
            r.variant == variant,
            r.path == path,
            r.phase == StagePhase::Probing,
    {
        Stager { variant, path, phase: StagePhase::Probing }
    }

    fn done(&self, is_executable: bool, written: bool) -> (r: StageAction)
        ensures
            r == staged(self.variant, self.path, is_executable, written),
    {
        let path = self.path.clone();
        StageAction::Done(Ok(StagedBinary { variant: self.variant, path, is_executable, written }))
    }

    /// Takes what the driver reports and says what to do next: a file found at
    /// the path is taken as staged, as it is; an absent one is written and then
    /// made executable.
    pub fn step(&mut self, event: StageEvent) -> (r: StageAction)
        ensures
            final(self).variant == old(self).variant,
            final(self).path == old(self).path,
            (final(self).phase, r) == step_spec(old(self).variant, old(self).path, old(self).phase, event),
    {
        let phase = self.phase;
        self.phase = StagePhase::Finished;
        match (phase, event) {
            (StagePhase::Probing, StageEvent::Probed(Some(mode))) => self.done(has_execute_permission(mode), false),
            (StagePhase::Probing, StageEvent::Probed(None)) => {
                self.phase = StagePhase::Writing;
                StageAction::WritePayload
            },
            (StagePhase::Writing, StageEvent::WriteDone(WriteResult::Written)) => {
                self.phase = StagePhase::SettingMode;
                StageAction::SetMode(EXECUTABLE_MODE)
            },
            (StagePhase::Writing, StageEvent::WriteDone(WriteResult::AlreadyExists)) => {
                self.phase = StagePhase::Probing;
                StageAction::Probe
            },
            (StagePhase::Writing, StageEvent::WriteDone(WriteResult::Failed(e))) =>
                StageAction::Done(Err(StageError::WriteFailed(e))),
            (StagePhase::SettingMode, StageEvent::ModeSet(Ok(()))) => self.done(true, true),
            (StagePhase::SettingMode, StageEvent::ModeSet(Err(e))) =>
                StageAction::Done(Err(StageError::PermissionFailed(e))),
            _ => StageAction::Done(Err(StageError::OutOfOrder)),
        }
    }
}

/// Staging the same path twice, for every variant. The first staging, on a
/// path where no file stands, writes the payload once and makes it
/// executable (`EXECUTABLE_MODE`). The second finds that file and succeeds at
/// once, reporting it executable, with the same variant and path: it writes
/// nothing and changes no permission. More generally, a staging that finds a
/// file, whatever its permission bits, leaves it as it is and succeeds.
pub proof fn lemma_staging_is_idempotent(variant: StressNgArch, path: String, mode: u32)
    ensures
        step_spec(variant, path, StagePhase::Probing, StageEvent::Probed(None)) == (
            StagePhase::Writing,
            StageAction::WritePayload,
        ),
        step_spec(variant, path, StagePhase::Writing, StageEvent::WriteDone(WriteResult::Written)) == (
            StagePhase::SettingMode,
            StageAction::SetMode(EXECUTABLE_MODE),
        ),
        step_spec(variant, path, StagePhase::SettingMode, StageEvent::ModeSet(Ok(()))) == (
            StagePhase::Finished,
            staged(variant, path, true, true),
        ),
        step_spec(variant, path, StagePhase::Probing, StageEvent::Probed(Some(EXECUTABLE_MODE))) == (
            StagePhase::Finished,
            staged(variant, path, true, false),
        ),
        step_spec(variant, path, StagePhase::Probing, StageEvent::Probed(Some(mode))) == (
            StagePhase::Finished,
            staged(variant, path, mode_is_executable(mode), false),
        ),
{
    assert(0o755u32 & 0o111u32 != 0) by (bit_vector);
}

} // verus!
