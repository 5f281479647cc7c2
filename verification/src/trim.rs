//! The content transformer: removes trailing whitespace from every line
//! of a text buffer.
//!
//! A line is the text before a `\n` terminator; a `\r` immediately before
//! the `\n` belongs to the terminator, not to the line. Every line is
//! rebuilt with a single `\n` terminator, and a final line that had no
//! terminator keeps none. The transformer also reports whether any line
//! actually lost characters, so that an unchanged file is never rewritten.

use vstd::prelude::*;
use vstd::string::StrSliceExecFns;
use vstd::string::StringExecFns;

verus! {

broadcast use vstd::string::group_string_axioms;

/// A character that counts as trailing whitespace inside a line: space,
/// tab, carriage return, vertical tab and form feed — the ASCII
/// whitespace characters other than the `\n` terminator itself.
pub open spec fn is_trim_ws(c: char) -> bool {
    c == ' ' || c == '\t' || c == '\r' || c == '\u{b}' || c == '\u{c}'
}

/// A line with its trailing whitespace removed.
pub open spec fn rtrim(line: Seq<char>) -> Seq<char>
    decreases line.len(),
{
    if line.len() > 0 && is_trim_ws(line.last()) {
        rtrim(line.drop_last())
    } else {
        line
    }
}

/// A line with one carriage return dropped from its end: the content of
/// a line whose terminator was `\r\n`.
pub open spec fn strip_cr(line: Seq<char>) -> Seq<char> {
    if line.len() > 0 && line.last() == '\r' {
        line.drop_last()
    } else {
        line
    }
}

/// Index of the first occurrence of `c` in `s`, or `s.len()` if absent.
pub open spec fn first_occ(s: Seq<char>, c: char) -> nat
    decreases s.len(),
{
    if s.len() == 0 {
        0
    } else if s[0] == c {
        0
    } else {
        1 + first_occ(s.drop_first(), c)
    }
}

/// The whole buffer after trimming: every terminated line is replaced by
/// its trimmed content followed by a single `\n`, and a final
/// unterminated line by its trimmed content alone.
pub open spec fn trimmed_text(s: Seq<char>) -> Seq<char>
    decreases s.len(),
{
    if s.len() == 0 {
        Seq::<char>::empty()
    } else {
        let k = first_occ(s, '\n');
        if k < s.len() {
            rtrim(s.take(k as int)) + seq!['\n'] + trimmed_text(s.skip(k as int + 1))
        } else {
            rtrim(s)
        }
    }
}

/// Whether any line of the buffer carries trailing whitespace, i.e.
/// whether trimming shortens the content of at least one line. The
/// content of a terminated line excludes a `\r` that belonged to a
/// `\r\n` terminator, so a line ending in exactly `\r\n` does not count
/// as modified.
pub open spec fn any_modified(s: Seq<char>) -> bool
    decreases s.len(),
{
    if s.len() == 0 {
        false
    } else {
        let k = first_occ(s, '\n');
        if k < s.len() {
            rtrim(strip_cr(s.take(k as int))).len() != strip_cr(s.take(k as int)).len()
                || any_modified(s.skip(k as int + 1))
        } else {
            rtrim(s).len() != s.len()
        }
    }
}

/// The trimmed line is the prefix of the line that ends before its
/// trailing whitespace.
pub proof fn lemma_rtrim_props(u: Seq<char>)
    ensures
        rtrim(u).len() <= u.len(),
        rtrim(u) == u.take(rtrim(u).len() as int),
        forall|t: int| rtrim(u).len() <= t < u.len() ==> is_trim_ws(u[t]),
        rtrim(u).len() > 0 ==> !is_trim_ws(u[rtrim(u).len() - 1]),
    decreases u.len(),
{
    if u.len() > 0 && is_trim_ws(u.last()) {
        lemma_rtrim_props(u.drop_last());
        let v = u.drop_last();
        let e = rtrim(v).len() as int;
        assert(v.take(e) =~= u.take(e));
        assert forall|t: int| rtrim(u).len() <= t < u.len() implies is_trim_ws(u[t]) by {
            if t < u.len() - 1 {
                assert(u[t] == v[t]);
            }
        }
    } else {
        assert(rtrim(u) =~= u.take(u.len() as int));
    }
}

/// A scan that stops at the last non-whitespace character has found
/// exactly the trimmed line.
pub proof fn lemma_rtrim_from_scan(u: Seq<char>, e: int)
    requires
        0 <= e <= u.len(),
        forall|t: int| e <= t < u.len() ==> is_trim_ws(u[t]),
        e > 0 ==> !is_trim_ws(u[e - 1]),
    ensures
        rtrim(u) == u.take(e),
    decreases u.len(),
{
    if e == u.len() {
        assert(rtrim(u) =~= u.take(e));
    } else {
        assert(is_trim_ws(u.last()));
        let v = u.drop_last();
        lemma_rtrim_from_scan(v, e);
        assert(v.take(e) =~= u.take(e));
    }
}

/// Trimming is idempotent on a single line, and a trimmed line never
/// ends in a carriage return.
pub proof fn lemma_rtrim_idempotent(u: Seq<char>)
    ensures
        rtrim(rtrim(u)) == rtrim(u),
        strip_cr(rtrim(u)) == rtrim(u),
{
    lemma_rtrim_props(u);
    let r = rtrim(u);
    if r.len() > 0 {
        assert(r[r.len() - 1] == u[r.len() - 1]);
    }
}

/// Dropping a terminator's carriage return before trimming changes
/// nothing: the carriage return is trailing whitespace either way.
pub proof fn lemma_rtrim_strip_cr(u: Seq<char>)
    ensures
        rtrim(strip_cr(u)) == rtrim(u),
{
}

/// `first_occ` points at the first occurrence, or past the end.
pub proof fn lemma_first_occ(s: Seq<char>, c: char)
    ensures
        first_occ(s, c) <= s.len(),
        forall|t: int| 0 <= t < first_occ(s, c) ==> s[t] != c,
        first_occ(s, c) < s.len() ==> s[first_occ(s, c) as int] == c,
    decreases s.len(),
{
    if s.len() > 0 && s[0] != c {
        lemma_first_occ(s.drop_first(), c);
        assert forall|t: int| 0 <= t < first_occ(s, c) implies s[t] != c by {
            if t > 0 {
                assert(s.drop_first()[t - 1] == s[t]);
            }
        }
    }
}

/// A scan that saw no occurrence of `c` before position `k`, and one at
/// `k` unless the end was reached, has computed `first_occ`.
pub proof fn lemma_first_occ_from_scan(s: Seq<char>, c: char, k: int)
    requires
        0 <= k <= s.len(),
        forall|t: int| 0 <= t < k ==> s[t] != c,
        k < s.len() ==> s[k] == c,
    ensures
        first_occ(s, c) == k,
    decreases s.len(),
{
    if s.len() > 0 && s[0] != c {
        let v = s.drop_first();
        assert forall|t: int| 0 <= t < k - 1 implies v[t] != c by {
            assert(v[t] == s[t + 1]);
        }
        lemma_first_occ_from_scan(v, c, k - 1);
    }
}

/// Whether the buffer ends in a line terminator.
pub open spec fn ends_in_nl(s: Seq<char>) -> bool {
    s.len() > 0 && s.last() == '\n'
}

/// The text after the last terminator: the final, unterminated line.
/// The whole buffer if it holds no terminator at all.
pub open spec fn final_line(s: Seq<char>) -> Seq<char>
    decreases s.len(),
{
    if s.len() == 0 {
        s
    } else {
        let k = first_occ(s, '\n');
        if k < s.len() {
            final_line(s.skip(k as int + 1))
        } else {
            s
        }
    }
}

/// Where the input holds a terminator at position `k`, the output starts
/// with the trimmed first line, then that terminator, then the transform
/// of the remainder.
proof fn lemma_trimmed_split(s: Seq<char>)
    requires
        first_occ(s, '\n') < s.len(),
    ensures
        ({
            let k = first_occ(s, '\n') as int;
            let a = rtrim(s.take(k));
            let out = trimmed_text(s);
            &&& first_occ(out, '\n') == a.len()
            &&& out.len() == a.len() + 1 + trimmed_text(s.skip(k + 1)).len()
            &&& out.take(a.len() as int) == a
            &&& out[a.len() as int] == '\n'
            &&& out.skip(a.len() as int + 1) == trimmed_text(s.skip(k + 1))
        }),
{
    let k = first_occ(s, '\n') as int;
    let line = s.take(k);
    let a = rtrim(line);
    let b = trimmed_text(s.skip(k + 1));
    let out = trimmed_text(s);
    lemma_first_occ(s, '\n');
    lemma_rtrim_props(line);
    assert(out == a + seq!['\n'] + b);
    assert forall|t: int| 0 <= t < a.len() implies out[t] != '\n' by {
        assert(out[t] == a[t]);
        assert(a[t] == line[t]);
        assert(line[t] == s[t]);
    }
    assert(out[a.len() as int] == '\n');
    lemma_first_occ_from_scan(out, '\n', a.len() as int);
    assert(out.take(a.len() as int) =~= a);
    assert(out.skip(a.len() as int + 1) =~= b);
}

/// The transform is idempotent: its output is a fixed point, and running
/// it again reports nothing to modify.
pub proof fn lemma_trim_idempotent(s: Seq<char>)
    ensures
        trimmed_text(trimmed_text(s)) == trimmed_text(s),
        !any_modified(trimmed_text(s)),
    decreases s.len(),
{
    let out = trimmed_text(s);
    if s.len() == 0 {
    } else {
        let k = first_occ(s, '\n') as int;
        lemma_first_occ(s, '\n');
        if k < s.len() {
            let line = s.take(k);
            let a = rtrim(line);
            lemma_trimmed_split(s);
            lemma_rtrim_idempotent(line);
            lemma_trim_idempotent(s.skip(k + 1));
            assert(rtrim(a) == a) by {
                lemma_rtrim_props(line);
                if a.len() > 0 {
                    assert(a[a.len() - 1] == line[a.len() - 1]);
                }
                lemma_rtrim_from_scan(a, a.len() as int);
                assert(rtrim(line).take(a.len() as int) =~= a);
            }
            assert(trimmed_text(out) == rtrim(out.take(a.len() as int)) + seq!['\n']
                + trimmed_text(out.skip(a.len() as int + 1)));
            assert(trimmed_text(out) =~= out);
            assert(strip_cr(a) == a);
            assert(!any_modified(out));
        } else {
            let a = rtrim(s);
            lemma_rtrim_props(s);
            assert forall|t: int| 0 <= t < a.len() implies out[t] != '\n' by {
                assert(a[t] == s[t]);
            }
            lemma_first_occ_from_scan(out, '\n', a.len() as int);
            if a.len() > 0 {
                assert(a[a.len() - 1] == s[a.len() - 1]);
                lemma_rtrim_from_scan(a, a.len() as int);
                assert(a.take(a.len() as int) =~= a);
                assert(trimmed_text(out) == rtrim(a));
            }
        }
    }
}

/// No line of the output ends in trailing whitespace: a character that
/// stands at the end of the output or right before a terminator is never
/// a whitespace character.
pub proof fn lemma_no_trailing_whitespace(s: Seq<char>)
    ensures
        forall|i: int|
            0 <= i < trimmed_text(s).len() && (i + 1 == trimmed_text(s).len()
                || trimmed_text(s)[i + 1] == '\n') ==> !is_trim_ws(trimmed_text(s)[i]),
    decreases s.len(),
{
    let out = trimmed_text(s);
    if s.len() == 0 {
    } else {
        let k = first_occ(s, '\n') as int;
        lemma_first_occ(s, '\n');
        if k < s.len() {
            let line = s.take(k);
            let a = rtrim(line);
            let b = trimmed_text(s.skip(k + 1));
            lemma_trimmed_split(s);
            lemma_rtrim_props(line);
            lemma_no_trailing_whitespace(s.skip(k + 1));
            assert(out == a + seq!['\n'] + b);
            assert forall|i: int|
                0 <= i < out.len() && (i + 1 == out.len() || out[i + 1] == '\n') implies !is_trim_ws(
                out[i],
            ) by {
                if i < a.len() {
                    assert(out[i] == a[i]);
                    if i + 1 < a.len() {
                        assert(out[i + 1] == a[i + 1]);
                        assert(a[i + 1] == line[i + 1]);
                        assert(line[i + 1] == s[i + 1]);
                    } else {
                        assert(i == a.len() - 1);
                        assert(a[i] == line[i]);
                    }
                } else if i == a.len() {
                    assert(out[i] == '\n');
                } else {
                    let t = i - a.len() - 1;
                    assert(out[i] == b[t]);
                    if i + 1 < out.len() {
                        assert(out[i + 1] == b[t + 1]);
                    }
                }
            }
        } else {
            let a = rtrim(s);
            lemma_rtrim_props(s);
            assert forall|i: int|
                0 <= i < out.len() && (i + 1 == out.len() || out[i + 1] == '\n') implies !is_trim_ws(
                out[i],
            ) by {
                assert(out[i] == s[i]);
                if i + 1 < out.len() {
                    assert(out[i + 1] == s[i + 1]);
                }
            }
        }
    }
}

/// The transform keeps the final terminator: input ending in a
/// terminator gives output ending in one; input not ending in one gives
/// output not ending in one, provided the final line does not trim away
/// entirely (a final line of nothing but whitespace after a terminator
/// disappears, and the output then ends at that terminator).
pub proof fn lemma_terminator_preserved(s: Seq<char>)
    ensures
        ends_in_nl(s) ==> ends_in_nl(trimmed_text(s)),
        !ends_in_nl(s) && rtrim(final_line(s)).len() > 0 ==> trimmed_text(s).len() > 0
            && !ends_in_nl(trimmed_text(s)),
        first_occ(s, '\n') == s.len() ==> !ends_in_nl(trimmed_text(s)),
    decreases s.len(),
{
    let out = trimmed_text(s);
    if s.len() == 0 {
    } else {
        let k = first_occ(s, '\n') as int;
        lemma_first_occ(s, '\n');
        if k < s.len() {
            let line = s.take(k);
            let a = rtrim(line);
            let rest = s.skip(k + 1);
            let b = trimmed_text(rest);
            lemma_trimmed_split(s);
            lemma_terminator_preserved(rest);
            assert(out == a + seq!['\n'] + b);
            if rest.len() > 0 {
                assert(rest.last() == s.last());
            }
            if ends_in_nl(s) {
                if k == s.len() - 1 {
                    assert(b =~= trimmed_text(Seq::<char>::empty()));
                    assert(out.last() == '\n');
                } else {
                    assert(out.last() == b.last());
                }
            } else {
                assert(k < s.len() - 1);
                assert(final_line(s) == final_line(rest));
                if rtrim(final_line(s)).len() > 0 {
                    assert(out.last() == b.last());
                }
            }
        } else {
            let a = rtrim(s);
            lemma_rtrim_props(s);
            assert(final_line(s) == s);
            assert(!ends_in_nl(s));
            if a.len() > 0 {
                assert(out.last() == s[a.len() - 1]);
            }
        }
    }
}

/// The transformed content, together with the flag that says whether the
/// transformation changed anything.
#[derive(Debug)]
pub struct TrimResult {
    pub content: String,
    pub modified: bool,
}

fn is_trim_ws_exec(c: char) -> (r: bool)
    ensures
        r == is_trim_ws(c),
{
    c == ' ' || c == '\t' || c == '\r' || c == '\u{b}' || c == '\u{c}'
}

/// Removes trailing whitespace from each line of the input. Returns the
/// trimmed content and whether any line's content was shortened.
pub fn trim_trailing_whitespace(content: &str) -> (r: TrimResult)
    ensures
        r.content@ == trimmed_text(content@),
        r.modified == any_modified(content@),
{
    let ghost cs = content@;
    let n = content.unicode_len();
    let mut out = String::new();
    let mut modified = false;
    let mut pos: usize = 0;
    proof {
        assert(cs.skip(0) =~= cs);
        assert(Seq::<char>::empty() + trimmed_text(cs) =~= trimmed_text(cs));
    }
    while pos < n
        invariant
            n == cs.len(),
            cs == content@,
            pos <= n,
            trimmed_text(cs) == out@ + trimmed_text(cs.skip(pos as int)),
            any_modified(cs) == (modified || any_modified(cs.skip(pos as int))),
        decreases n - pos,
    {
        let ghost rest = cs.skip(pos as int);
        // Find the end of the current line: the next terminator or the
        // end of the buffer.
        let mut j = pos;
        while j < n && content.get_char(j) != '\n'
            invariant
                n == cs.len(),
                cs == content@,
                pos <= j <= n,
                forall|t: int| pos <= t < j ==> cs[t] != '\n',
            decreases n - j,
        {
            j = j + 1;
        }
        proof {
            assert forall|t: int| 0 <= t < j - pos implies rest[t] != '\n' by {
                assert(rest[t] == cs[t + pos]);
            }
            lemma_first_occ_from_scan(rest, '\n', j - pos);
        }
        // Scan back over the trailing whitespace of the line.
        let mut e = j;
        while e > pos && is_trim_ws_exec(content.get_char(e - 1))
            invariant
                n == cs.len(),
                cs == content@,
                pos <= e <= j <= n,
                forall|t: int| e <= t < j ==> is_trim_ws(cs[t]),
            decreases e,
        {
            e = e - 1;
        }
        let ghost line = cs.subrange(pos as int, j as int);
        proof {
            assert(line =~= rest.take(j - pos));
            assert forall|t: int| e - pos <= t < line.len() implies is_trim_ws(line[t]) by {
                assert(line[t] == cs[t + pos]);
            }
            if e > pos {
                assert(line[e - pos - 1] == cs[e - 1]);
            }
            lemma_rtrim_from_scan(line, e as int - pos as int);
            assert(rtrim(line) =~= cs.subrange(pos as int, e as int));
        }
        let piece = content.substring_char(pos, e);
        if j < n {
            // A terminated line: the `\r` of a `\r\n` terminator is not
            // counted as trimmable content.
            let line_end = if j > pos && content.get_char(j - 1) == '\r' {
                j - 1
            } else {
                j
            };
            proof {
                if j > pos {
                    assert(line.last() == cs[j - 1]);
                }
                assert(strip_cr(line).len() == line_end - pos);
                lemma_rtrim_strip_cr(line);
                assert(trimmed_text(rest) == rtrim(line) + seq!['\n'] + trimmed_text(
                    rest.skip(j - pos + 1),
                ));
                assert(rest.skip(j - pos + 1) =~= cs.skip(j as int + 1));
            }
            if e != line_end {
                modified = true;
            }
            out.append(piece);
            out.append("\n");
            proof {
                reveal_strlit("\n");
                assert("\n"@ =~= seq!['\n']);
                assert(trimmed_text(cs) =~= out@ + trimmed_text(cs.skip(j as int + 1)));
            }
            pos = j + 1;
        } else {
            // The final line carries no terminator, and keeps none.
            proof {
                assert(trimmed_text(rest) == rtrim(rest));
                assert(rtrim(rest) == rtrim(line)) by {
                    assert(line =~= rest);
                }
            }
            if e != n {
                modified = true;
            }
            out.append(piece);
            proof {
                assert(trimmed_text(cs) =~= out@ + trimmed_text(cs.skip(n as int)));
            }
            pos = n;
        }
    }
    proof {
        assert(cs.skip(n as int) =~= Seq::<char>::empty());
        assert(trimmed_text(cs) =~= out@);
    }
    TrimResult { content: out, modified }
}

} // verus!
