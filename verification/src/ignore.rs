//! The ignore predicate of the recursive walk: a directory is skipped,
//! subtree and all, when its name stands on a fixed denylist or begins
//! with the hidden-entry marker.

use crate::pathname::base_name;
use crate::pathname::name_bounds;
use crate::strutil::str_eq;
use vstd::prelude::*;
use vstd::string::StrSliceExecFns;

verus! {

/// A directory name that the walk must not enter: one of the fixed
/// denylist, or any name that begins with the hidden-entry marker.
/// The names `"."` and `".."` begin with the marker and are ignored.
pub open spec fn is_ignored_name(n: Seq<char>) -> bool {
    n.len() > 0 && (n[0] == '.' || n == ".git"@ || n == ".svn"@ || n == ".hg"@
        || n == "node_modules"@ || n == "target"@ || n == "__pycache__"@ || n == ".venv"@
        || n == "venv"@ || n == ".idea"@ || n == ".vscode"@)
}

/// Whether the walk skips the directory at this path, judged by the
/// path's name (its final component, trailing separators disregarded).
pub open spec fn spec_should_ignore_dir(p: Seq<char>) -> bool {
    is_ignored_name(base_name(p))
}

/// Checks whether a directory path must be ignored by the recursive
/// walk: its name is on the denylist or begins with the hidden-entry
/// marker.
pub fn should_ignore_dir(path: &str) -> (r: bool)
    ensures
        r == spec_should_ignore_dir(path@),
{
    let ghost cs = path@;
    let bounds = name_bounds(path);
    let name = path.substring_char(bounds.0, bounds.1);
    proof {
        assert(name@ =~= base_name(cs));
    }
    if name.unicode_len() == 0 {
        proof {
            lemma_denylist_nonempty();
        }
        return false;
    }
    if name.get_char(0) == '.' {
        return true;
    }
    proof {
        lemma_denylist_dotted();
    }
    str_eq(name, "node_modules") || str_eq(name, "target") || str_eq(name, "__pycache__") || str_eq(
        name,
        "venv",
    )
}

/// Every name of the denylist is non-empty.
proof fn lemma_denylist_nonempty()
    ensures
        ".git"@.len() > 0,
        ".svn"@.len() > 0,
        ".hg"@.len() > 0,
        "node_modules"@.len() > 0,
        "target"@.len() > 0,
        "__pycache__"@.len() > 0,
        ".venv"@.len() > 0,
        "venv"@.len() > 0,
        ".idea"@.len() > 0,
        ".vscode"@.len() > 0,
{
    reveal_strlit(".git");
    reveal_strlit(".svn");
    reveal_strlit(".hg");
    reveal_strlit("node_modules");
    reveal_strlit("target");
    reveal_strlit("__pycache__");
    reveal_strlit(".venv");
    reveal_strlit("venv");
    reveal_strlit(".idea");
    reveal_strlit(".vscode");
}

/// The denylist names that begin with the hidden-entry marker, and the
/// first characters of those that do not.
proof fn lemma_denylist_dotted()
    ensures
        ".git"@[0] == '.',
        ".svn"@[0] == '.',
        ".hg"@[0] == '.',
        ".venv"@[0] == '.',
        ".idea"@[0] == '.',
        ".vscode"@[0] == '.',
        "node_modules"@[0] == 'n',
        "target"@[0] == 't',
        "__pycache__"@[0] == '_',
        "venv"@[0] == 'v',
        ".git"@.len() > 0,
        ".svn"@.len() > 0,
        ".hg"@.len() > 0,
        ".venv"@.len() > 0,
        ".idea"@.len() > 0,
        ".vscode"@.len() > 0,
{
    reveal_strlit(".git");
    reveal_strlit(".svn");
    reveal_strlit(".hg");
    reveal_strlit("node_modules");
    reveal_strlit("target");
    reveal_strlit("__pycache__");
    reveal_strlit(".venv");
    reveal_strlit(".idea");
    reveal_strlit(".vscode");
    reveal_strlit("venv");
}

} // verus!
