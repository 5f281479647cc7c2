//! Decisions of the recursive walk and of the per-file guard.
//!
//! Every filesystem entry is classified from metadata read without
//! following symlinks, and the classification is consulted twice: once
//! when the walk meets the entry, and once again when a file is about to
//! be processed — defence in depth against the tree changing between
//! traversal and processing.

use crate::ignore::should_ignore_dir;
use crate::ignore::spec_should_ignore_dir;
use vstd::prelude::*;

verus! {

/// The kind of a filesystem entry, as metadata reports it when symlinks
/// are not followed.
#[derive(Debug, PartialEq, Eq, Structural, Clone, Copy)]
pub enum EntryKind {
    Symlink,
    Directory,
    RegularFile,
    Other,
}

/// What the walk does with one directory entry.
#[derive(Debug, PartialEq, Eq, Structural, Clone, Copy)]
pub enum WalkAction {
    /// A symlink: never followed, never opened, never written through.
    SkipSymlink,
    /// A directory on the denylist or hidden: its whole subtree is
    /// skipped.
    SkipIgnoredDir,
    /// An ordinary directory: the walk descends into it.
    Recurse,
    /// A regular file: handed to the single-file pipeline.
    ProcessFile,
    /// Anything else (a device, a socket, ...): left alone.
    SkipOther,
}

/// The walk's decision for one entry: symlinks are dismissed before
/// anything else, directories are held against the ignore predicate,
/// regular files go to the pipeline.
pub open spec fn spec_classify_entry(kind: EntryKind, path: Seq<char>) -> WalkAction {
    match kind {
        EntryKind::Symlink => WalkAction::SkipSymlink,
        EntryKind::Directory => if spec_should_ignore_dir(path) {
            WalkAction::SkipIgnoredDir
        } else {
            WalkAction::Recurse
        },
        EntryKind::RegularFile => WalkAction::ProcessFile,
        EntryKind::Other => WalkAction::SkipOther,
    }
}

/// Classifies one directory entry for the walk.
pub fn classify_entry(kind: EntryKind, path: &str) -> (a: WalkAction)
    ensures
        a == spec_classify_entry(kind, path@),
{
    match kind {
        EntryKind::Symlink => WalkAction::SkipSymlink,
        EntryKind::Directory => {
            if should_ignore_dir(path) {
                WalkAction::SkipIgnoredDir
            } else {
                WalkAction::Recurse
            }
        },
        EntryKind::RegularFile => WalkAction::ProcessFile,
        EntryKind::Other => WalkAction::SkipOther,
    }
}

/// How a run on a root directory begins.
#[derive(Debug, PartialEq, Eq, Structural, Clone, Copy)]
pub enum RootPlan {
    /// The root is a symlink: the whole call is a no-op skip.
    SkipSymlink,
    /// The root is not a directory: the run fails before touching
    /// anything.
    NotADirectory,
    /// The root is a directory: the walk may begin.
    Walk,
}

/// Validates the root of a recursive run: a symlink is a no-op, only a
/// directory may be walked.
pub fn plan_root(kind: EntryKind) -> (p: RootPlan)
    ensures
        kind is Symlink ==> p is SkipSymlink,
        kind is Directory ==> p is Walk,
        !(kind is Symlink) && !(kind is Directory) ==> p is NotADirectory,
{
    match kind {
        EntryKind::Symlink => RootPlan::SkipSymlink,
        EntryKind::Directory => RootPlan::Walk,
        EntryKind::RegularFile => RootPlan::NotADirectory,
        EntryKind::Other => RootPlan::NotADirectory,
    }
}

/// The guard in front of the single-file pipeline.
#[derive(Debug, PartialEq, Eq, Structural, Clone, Copy)]
pub enum FileGuard {
    /// A symlink: skipped without being opened, read or written.
    SkipSymlink,
    /// Not a plain regular file (a directory, a device, ...): a
    /// path-type error — the run on this target fails without touching
    /// anything.
    NotRegular,
    /// A regular file: its content may be read.
    Read,
}

/// Re-checks an entry right before it is processed: only a regular
/// file — never a symlink — may be opened; any other kind is a
/// path-type error.
pub fn guard_file(kind: EntryKind) -> (g: FileGuard)
    ensures
        kind is Symlink ==> g is SkipSymlink,
        kind is RegularFile ==> g is Read,
        !(kind is Symlink) && !(kind is RegularFile) ==> g is NotRegular,
{
    match kind {
        EntryKind::Symlink => FileGuard::SkipSymlink,
        EntryKind::RegularFile => FileGuard::Read,
        EntryKind::Directory => FileGuard::NotRegular,
        EntryKind::Other => FileGuard::NotRegular,
    }
}

} // verus!
