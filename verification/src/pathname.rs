//! Path names as the tool reads them: the final component of a path and
//! the directory part in front of it.
//!
//! Trailing separators are disregarded, so `"/x/target/"` names `target`
//! just as `"/x/target"` does. A path whose stripped form holds no name
//! (the root, or an empty path) names nothing. The components `"."` and
//! `".."` are taken as written: both begin with the hidden-entry marker.

use crate::trim::first_occ;
use vstd::prelude::*;
use vstd::string::StrSliceExecFns;

verus! {

/// The path with its trailing separators removed.
pub open spec fn strip_seps(p: Seq<char>) -> Seq<char>
    decreases p.len(),
{
    if p.len() > 0 && p.last() == '/' {
        strip_seps(p.drop_last())
    } else {
        p
    }
}

/// The text after the last separator, in a path that does not end in
/// one; the whole path if it holds no separator at all.
pub open spec fn after_last_sep(p: Seq<char>) -> Seq<char>
    decreases p.len(),
{
    if p.len() == 0 {
        p
    } else {
        let k = first_occ(p, '/');
        if k < p.len() {
            after_last_sep(p.skip(k as int + 1))
        } else {
            p
        }
    }
}

/// The name of a path: its final component, with trailing separators
/// disregarded.
pub open spec fn base_name(p: Seq<char>) -> Seq<char> {
    after_last_sep(strip_seps(p))
}

/// The directory part of a path: everything up to and including the
/// separator in front of the name, or nothing when the name stands
/// alone.
pub open spec fn dir_prefix(p: Seq<char>) -> Seq<char> {
    strip_seps(p).take(strip_seps(p).len() - base_name(p).len())
}

/// A scan that stops at the last non-separator character has stripped
/// exactly the trailing separators.
proof fn lemma_strip_seps_from_scan(p: Seq<char>, e: int)
    requires
        0 <= e <= p.len(),
        forall|t: int| e <= t < p.len() ==> p[t] == '/',
        e > 0 ==> p[e - 1] != '/',
    ensures
        strip_seps(p) == p.take(e),
    decreases p.len(),
{
    if e == p.len() {
        assert(strip_seps(p) =~= p.take(e));
    } else {
        let v = p.drop_last();
        lemma_strip_seps_from_scan(v, e);
        assert(v.take(e) =~= p.take(e));
    }
}

/// A scan that found no separator from `start` to the end, and one right
/// before `start` unless `start` is the beginning, has found the text
/// after the last separator.
proof fn lemma_after_last_sep_from_scan(p: Seq<char>, start: int)
    requires
        0 <= start <= p.len(),
        start > 0 ==> p[start - 1] == '/',
        forall|t: int| start <= t < p.len() ==> p[t] != '/',
    ensures
        after_last_sep(p) == p.skip(start),
    decreases p.len(),
{
    crate::trim::lemma_first_occ(p, '/');
    if p.len() == 0 {
        assert(after_last_sep(p) =~= p.skip(start));
    } else {
        let k = first_occ(p, '/') as int;
        if k < p.len() {
            assert(start > 0) by {
                if start == 0 {
                    assert(p[k] != '/');
                }
            }
            let q = p.skip(k + 1);
            assert forall|t: int| start - k - 1 <= t < q.len() implies q[t] != '/' by {
                assert(q[t] == p[t + k + 1]);
            }
            if start - k - 1 > 0 {
                assert(q[start - k - 2] == p[start - 1]);
            }
            lemma_after_last_sep_from_scan(q, start - k - 1);
            assert(q.skip(start - k - 1) =~= p.skip(start));
        } else {
            assert(start == 0) by {
                if start > 0 {
                    assert(p[start - 1] == '/');
                }
            }
            assert(after_last_sep(p) =~= p.skip(start));
        }
    }
}

/// Finds the bounds of the path's name: the name is the text between
/// the two positions, and everything before the first is the directory
/// part.
pub fn name_bounds(path: &str) -> (r: (usize, usize))
    ensures
        r.0 <= r.1 <= path@.len(),
        path@.subrange(r.0 as int, r.1 as int) == base_name(path@),
        path@.take(r.0 as int) == dir_prefix(path@),
{
    let ghost cs = path@;
    let n = path.unicode_len();
    let mut end = n;
    while end > 0 && path.get_char(end - 1) == '/'
        invariant
            n == cs.len(),
            cs == path@,
            end <= n,
            forall|t: int| end <= t < n ==> cs[t] == '/',
        decreases end,
    {
        end = end - 1;
    }
    proof {
        lemma_strip_seps_from_scan(cs, end as int);
    }
    let ghost stripped = cs.take(end as int);
    let mut start: usize = 0;
    let mut i: usize = 0;
    while i < end
        invariant
            n == cs.len(),
            cs == path@,
            end <= n,
            start <= i <= end,
            start > 0 ==> cs[start as int - 1] == '/',
            forall|t: int| start <= t < i ==> cs[t] != '/',
        decreases end - i,
    {
        if path.get_char(i) == '/' {
            start = i + 1;
        }
        i = i + 1;
    }
    proof {
        assert forall|t: int| start <= t < stripped.len() implies stripped[t] != '/' by {
            assert(stripped[t] == cs[t]);
        }
        if start > 0 {
            assert(stripped[start as int - 1] == cs[start as int - 1]);
        }
        lemma_after_last_sep_from_scan(stripped, start as int);
        assert(stripped.skip(start as int) =~= cs.subrange(start as int, end as int));
        assert(stripped.take(start as int) =~= cs.take(start as int));
    }
    (start, end)
}

} // verus!
