use rtrim::writer::writer_advance;
use rtrim::writer::writer_start;
use rtrim::writer::WriterAction;
use rtrim::writer::WriterEvent;
use rtrim::writer::WriterState;

#[test]
fn test_writer_happy_path_commits_after_rename() {
    // write -> sync -> copy perms -> rename, and success is reported
    // only after the rename commits.
    let s0 = writer_start();
    assert_eq!(s0, WriterState::Checking);
    let (s1, a1) = writer_advance(s0, WriterEvent::StepOk);
    assert_eq!((s1, a1), (WriterState::Writing, WriterAction::WriteTemp));
    let (s2, a2) = writer_advance(s1, WriterEvent::StepOk);
    assert_eq!((s2, a2), (WriterState::SettingPerms, WriterAction::CopyPerms));
    let (s3, a3) = writer_advance(s2, WriterEvent::StepOk);
    assert_eq!((s3, a3), (WriterState::Renaming, WriterAction::RenameTemp));
    let (s4, a4) = writer_advance(s3, WriterEvent::StepOk);
    assert_eq!(
        (s4, a4),
        (WriterState::Committed, WriterAction::ReportProcessed)
    );
}

#[test]
fn test_writer_collision_fails_without_cleanup() {
    // The temporary path already exists: the run fails at once, and
    // there is nothing of ours on disk to remove.
    let (s, a) = writer_advance(WriterState::Checking, WriterEvent::StepFailed);
    assert_eq!((s, a), (WriterState::Aborted, WriterAction::ReportFailure));
}

#[test]
fn test_writer_write_failure_removes_temp() {
    let (s, a) = writer_advance(WriterState::Writing, WriterEvent::StepFailed);
    assert_eq!((s, a), (WriterState::Removing, WriterAction::RemoveTemp));
    let (s2, a2) = writer_advance(s, WriterEvent::StepOk);
    assert_eq!((s2, a2), (WriterState::Aborted, WriterAction::ReportFailure));
}

#[test]
fn test_writer_perm_failure_removes_temp() {
    // Permission-copy failure: the temporary file is deleted and the
    // error propagates; the target is untouched.
    let (s, a) = writer_advance(WriterState::SettingPerms, WriterEvent::StepFailed);
    assert_eq!((s, a), (WriterState::Removing, WriterAction::RemoveTemp));
}

#[test]
fn test_writer_rename_failure_removes_temp() {
    let (s, a) = writer_advance(WriterState::Renaming, WriterEvent::StepFailed);
    assert_eq!((s, a), (WriterState::Removing, WriterAction::RemoveTemp));
}

#[test]
fn test_writer_abort_even_if_removal_fails() {
    // Removal is best-effort: the run ends aborted and reports the
    // original error whether or not the delete itself succeeded.
    let (s, a) = writer_advance(WriterState::Removing, WriterEvent::StepFailed);
    assert_eq!((s, a), (WriterState::Aborted, WriterAction::ReportFailure));
}
