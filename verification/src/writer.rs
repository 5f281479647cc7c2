//! The atomic write-replace protocol, as a state machine.
//!
//! The shell drives the protocol for one file: it performs the
//! filesystem step that the current state calls for, reports whether the
//! step succeeded, and lets `writer_advance` decide what happens next.
//! The machine guarantees the protocol's shape: the rename is the single
//! visibility-changing operation, the run commits only through a
//! successful rename, and every failure path disposes of the temporary
//! file before the error is reported — the target itself is never
//! touched on failure.

use vstd::prelude::*;

verus! {

/// Where the protocol stands: which filesystem step is awaited.
#[derive(Debug, PartialEq, Eq, Structural, Clone, Copy)]
pub enum WriterState {
    /// Probing whether the generated temporary path is already taken.
    /// This is the initial state; nothing is on disk yet.
    Checking,
    /// Creating the temporary file, writing the full new content, and
    /// forcing it to durable storage.
    Writing,
    /// Copying the target's permission bits onto the temporary file,
    /// which now exists on disk.
    SettingPerms,
    /// Renaming the temporary file onto the target: the one atomic,
    /// visibility-changing step.
    Renaming,
    /// Removing the temporary file after a failed step, so that no
    /// artifact outlives the run.
    Removing,
    /// The rename committed: the target holds the new content and the
    /// temporary name is gone.
    Committed,
    /// The protocol failed; the temporary file is gone and the target
    /// is untouched.
    Aborted,
}

/// The outcome of the filesystem step the shell just performed.
#[derive(Debug, PartialEq, Eq, Structural, Clone, Copy)]
pub enum WriterEvent {
    StepOk,
    StepFailed,
}

/// The single instruction the shell must carry out next.
#[derive(Debug, PartialEq, Eq, Structural, Clone, Copy)]
pub enum WriterAction {
    /// Create the temporary file, write the new content, sync it.
    WriteTemp,
    /// Copy the original permission bits onto the temporary file.
    CopyPerms,
    /// Atomically rename the temporary file onto the target.
    RenameTemp,
    /// Delete the temporary file; its absence must not mask the
    /// original error.
    RemoveTemp,
    /// Report the file as processed: the new content is in place.
    ReportProcessed,
    /// Report the step's error; there is nothing left to clean up.
    ReportFailure,
}

/// A state in which the protocol has finished.
pub open spec fn is_terminal(s: WriterState) -> bool {
    s is Committed || s is Aborted
}

/// A state in which the temporary file may be on disk. A failed
/// creation may have left a partial file, so the writing and removing
/// states count as live.
pub open spec fn temp_live(s: WriterState) -> bool {
    s is Writing || s is SettingPerms || s is Renaming || s is Removing
}

/// The transition relation of the protocol.
pub open spec fn spec_writer_step(s: WriterState, ev: WriterEvent) -> (WriterState, WriterAction) {
    match (s, ev) {
        (WriterState::Checking, WriterEvent::StepOk) => (WriterState::Writing, WriterAction::WriteTemp),
        (WriterState::Checking, WriterEvent::StepFailed) => (
            WriterState::Aborted,
            WriterAction::ReportFailure,
        ),
        (WriterState::Writing, WriterEvent::StepOk) => (
            WriterState::SettingPerms,
            WriterAction::CopyPerms,
        ),
        (WriterState::Writing, WriterEvent::StepFailed) => (
            WriterState::Removing,
            WriterAction::RemoveTemp,
        ),
        (WriterState::SettingPerms, WriterEvent::StepOk) => (
            WriterState::Renaming,
            WriterAction::RenameTemp,
        ),
        (WriterState::SettingPerms, WriterEvent::StepFailed) => (
            WriterState::Removing,
            WriterAction::RemoveTemp,
        ),
        (WriterState::Renaming, WriterEvent::StepOk) => (
            WriterState::Committed,
            WriterAction::ReportProcessed,
        ),
        (WriterState::Renaming, WriterEvent::StepFailed) => (
            WriterState::Removing,
            WriterAction::RemoveTemp,
        ),
        (WriterState::Removing, _) => (WriterState::Aborted, WriterAction::ReportFailure),
        (WriterState::Committed, _) => (WriterState::Committed, WriterAction::ReportProcessed),
        (WriterState::Aborted, _) => (WriterState::Aborted, WriterAction::ReportFailure),
    }
}

/// The state the protocol starts in: probing the temporary path. The
/// shell's first step is that probe; a path that is already taken is a
/// name-collision anomaly and fails the run without a retry.
pub fn writer_start() -> (s: WriterState)
    ensures
        s is Checking,
{
    WriterState::Checking
}

/// Advances the protocol by one observed step outcome and returns the
/// next state with the instruction the shell must carry out. The two
/// terminal states are absorbing: their instruction only repeats the
/// report.
pub fn writer_advance(s: WriterState, ev: WriterEvent) -> (r: (WriterState, WriterAction))
    ensures
        r == spec_writer_step(s, ev),
{
    match (s, ev) {
        (WriterState::Checking, WriterEvent::StepOk) => (
            WriterState::Writing,
            WriterAction::WriteTemp,
        ),
        (WriterState::Checking, WriterEvent::StepFailed) => (
            WriterState::Aborted,
            WriterAction::ReportFailure,
        ),
        (WriterState::Writing, WriterEvent::StepOk) => (
            WriterState::SettingPerms,
            WriterAction::CopyPerms,
        ),
        (WriterState::Writing, WriterEvent::StepFailed) => (
            WriterState::Removing,
            WriterAction::RemoveTemp,
        ),
        (WriterState::SettingPerms, WriterEvent::StepOk) => (
            WriterState::Renaming,
            WriterAction::RenameTemp,
        ),
        (WriterState::SettingPerms, WriterEvent::StepFailed) => (
            WriterState::Removing,
            WriterAction::RemoveTemp,
        ),
        (WriterState::Renaming, WriterEvent::StepOk) => (
            WriterState::Committed,
            WriterAction::ReportProcessed,
        ),
        (WriterState::Renaming, WriterEvent::StepFailed) => (
            WriterState::Removing,
            WriterAction::RemoveTemp,
        ),
        (WriterState::Removing, _) => (WriterState::Aborted, WriterAction::ReportFailure),
        (WriterState::Committed, _) => (WriterState::Committed, WriterAction::ReportProcessed),
        (WriterState::Aborted, _) => (WriterState::Aborted, WriterAction::ReportFailure),
    }
}

/// No artifact outlives the protocol, and the target changes only
/// through the one rename: a run commits only when the rename itself
/// succeeded, and it aborts only out of the removing state — where the
/// instruction just carried out deleted the temporary file — or from
/// the initial probe, before anything was created.
pub proof fn lemma_every_exit_disposes(s: WriterState, ev: WriterEvent)
    requires
        !is_terminal(s),
    ensures
        spec_writer_step(s, ev).0 is Committed ==> s is Renaming && ev is StepOk,
        spec_writer_step(s, ev).0 is Aborted ==> (s is Removing && spec_writer_step(s, ev).1
            is ReportFailure) || (s is Checking && ev is StepFailed),
        temp_live(s) && !temp_live(spec_writer_step(s, ev).0) ==> (s is Renaming && ev is StepOk)
            || s is Removing,
{
}

/// The steps keep their order: content is written only after the
/// collision probe passed, the permission bits are copied only after
/// the content is durable, and the rename — the one step that changes
/// what the target path shows — is ordered only after the permission
/// copy succeeded. The new content is thus fully durable and correctly
/// permissioned before it ever becomes visible.
pub proof fn lemma_protocol_order(s: WriterState, ev: WriterEvent)
    requires
        !is_terminal(s),
    ensures
        spec_writer_step(s, ev).1 is WriteTemp ==> s is Checking && ev is StepOk,
        spec_writer_step(s, ev).1 is CopyPerms ==> s is Writing && ev is StepOk,
        spec_writer_step(s, ev).1 is RenameTemp ==> s is SettingPerms && ev is StepOk,
{
}

} // verus!
