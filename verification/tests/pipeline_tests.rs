use rtrim::content::plan_content;
use rtrim::content::ContentPlan;
use rtrim::walker::classify_entry;
use rtrim::walker::guard_file;
use rtrim::walker::plan_root;
use rtrim::walker::EntryKind;
use rtrim::walker::FileGuard;
use rtrim::walker::RootPlan;
use rtrim::walker::WalkAction;

#[test]
fn test_plan_content_binary_is_untouched() {
    // Invalid encoding classifies the file as binary: no rewrite is
    // ever ordered, so the bytes round-trip identically.
    let bytes = [0xFFu8, 0xFE, 0x00, 0x01];
    let plan = plan_content(&bytes);
    assert!(matches!(plan, ContentPlan::Binary));
}

#[test]
fn test_plan_content_clean_orders_no_write() {
    let plan = plan_content(b"hello\nworld\n");
    assert!(matches!(plan, ContentPlan::Clean));
}

#[test]
fn test_plan_content_rewrite_carries_trimmed_text() {
    let plan = plan_content(b"hello   \nworld\t\n");
    match plan {
        ContentPlan::Rewrite(content) => assert_eq!(content, "hello\nworld\n"),
        _ => panic!("a file with trailing whitespace must be rewritten"),
    }
}

#[test]
fn test_plan_content_end_to_end_values() {
    // The two files of the recursive scenario, as the pipeline sees
    // them: both are rewritten with their trimmed content.
    match plan_content(b"line1   \n") {
        ContentPlan::Rewrite(content) => assert_eq!(content, "line1\n"),
        _ => panic!("file1 must be rewritten"),
    }
    match plan_content(b"line2\t\n") {
        ContentPlan::Rewrite(content) => assert_eq!(content, "line2\n"),
        _ => panic!("file2 must be rewritten"),
    }
}

#[test]
fn test_plan_content_empty_is_clean() {
    assert!(matches!(plan_content(b""), ContentPlan::Clean));
}

#[test]
fn test_classify_entry_symlink_always_skipped() {
    // A symlink is dismissed before the ignore predicate or anything
    // else can look at it.
    assert_eq!(
        classify_entry(EntryKind::Symlink, "/project/link.txt"),
        WalkAction::SkipSymlink
    );
    assert_eq!(
        classify_entry(EntryKind::Symlink, "/project/.git"),
        WalkAction::SkipSymlink
    );
}

#[test]
fn test_classify_entry_ignored_dir_cuts_subtree() {
    assert_eq!(
        classify_entry(EntryKind::Directory, "/project/.git"),
        WalkAction::SkipIgnoredDir
    );
    assert_eq!(
        classify_entry(EntryKind::Directory, "/project/node_modules"),
        WalkAction::SkipIgnoredDir
    );
}

#[test]
fn test_classify_entry_plain_dir_recurses() {
    assert_eq!(
        classify_entry(EntryKind::Directory, "/project/subdir"),
        WalkAction::Recurse
    );
}

#[test]
fn test_classify_entry_regular_file_processed() {
    assert_eq!(
        classify_entry(EntryKind::RegularFile, "/project/file1.txt"),
        WalkAction::ProcessFile
    );
}

#[test]
fn test_classify_entry_other_left_alone() {
    assert_eq!(
        classify_entry(EntryKind::Other, "/dev/null"),
        WalkAction::SkipOther
    );
}

#[test]
fn test_plan_root_decisions() {
    assert_eq!(plan_root(EntryKind::Symlink), RootPlan::SkipSymlink);
    assert_eq!(plan_root(EntryKind::Directory), RootPlan::Walk);
    assert_eq!(plan_root(EntryKind::RegularFile), RootPlan::NotADirectory);
    assert_eq!(plan_root(EntryKind::Other), RootPlan::NotADirectory);
}

#[test]
fn test_guard_file_decisions() {
    // The guard runs again right before processing: a symlink that
    // appeared between traversal and processing is still never opened,
    // and any other non-regular target is a path-type error.
    assert_eq!(guard_file(EntryKind::Symlink), FileGuard::SkipSymlink);
    assert_eq!(guard_file(EntryKind::RegularFile), FileGuard::Read);
    assert_eq!(guard_file(EntryKind::Directory), FileGuard::NotRegular);
    assert_eq!(guard_file(EntryKind::Other), FileGuard::NotRegular);
}
