//! Naming of the temporary sibling file that carries the new content
//! before the atomic rename.
//!
//! The name is hidden behind a leading dot, sits in the same directory
//! as the target, and is derived from the target's own name, the process
//! identity and a high-resolution timestamp, so that two simultaneous
//! runs never pick the same name. The process identity and the clock
//! reading are explicit inputs: the function itself is pure.

use crate::pathname::base_name;
use crate::pathname::dir_prefix;
use crate::pathname::name_bounds;
use vstd::prelude::*;
use vstd::string::StrSliceExecFns;
use vstd::string::StringExecFns;

verus! {

/// The decimal digit for a value below ten.
pub open spec fn digit_char(d: nat) -> char {
    if d == 0 {
        '0'
    } else if d == 1 {
        '1'
    } else if d == 2 {
        '2'
    } else if d == 3 {
        '3'
    } else if d == 4 {
        '4'
    } else if d == 5 {
        '5'
    } else if d == 6 {
        '6'
    } else if d == 7 {
        '7'
    } else if d == 8 {
        '8'
    } else {
        '9'
    }
}

/// The decimal representation of a number, most significant digit first.
pub open spec fn dec_rep(n: nat) -> Seq<char>
    decreases n,
{
    if n < 10 {
        seq![digit_char(n)]
    } else {
        dec_rep(n / 10).push(digit_char(n % 10))
    }
}

/// The hidden, unique name of the temporary sibling: a leading dot, the
/// target's name, the process identity, the timestamp, and a closing
/// `.tmp`, dot-separated.
pub open spec fn temp_name_spec(name: Seq<char>, pid: u64, ts: u64) -> Seq<char> {
    seq!['.'] + name + seq!['.'] + dec_rep(pid as nat) + seq!['.'] + dec_rep(ts as nat) + seq![
        '.',
        't',
        'm',
        'p',
    ]
}

/// The full path of the temporary sibling: the target's directory, then
/// the hidden name built from the target's own name.
pub open spec fn temp_path_spec(p: Seq<char>, pid: u64, ts: u64) -> Seq<char> {
    dir_prefix(p) + temp_name_spec(base_name(p), pid, ts)
}

/// A decimal representation holds at least one digit, exactly one for a
/// value below ten, and never holds a dot.
proof fn lemma_dec_rep_shape(n: nat)
    ensures
        dec_rep(n).len() >= 1,
        dec_rep(n).len() == 1 <==> n < 10,
        forall|t: int| 0 <= t < dec_rep(n).len() ==> dec_rep(n)[t] != '.',
    decreases n,
{
    if n >= 10 {
        lemma_dec_rep_shape(n / 10);
    }
}

/// Distinct numbers have distinct decimal representations.
proof fn lemma_dec_rep_injective(a: nat, b: nat)
    requires
        dec_rep(a) == dec_rep(b),
    ensures
        a == b,
    decreases a,
{
    lemma_dec_rep_shape(a);
    lemma_dec_rep_shape(b);
    if a < 10 && b < 10 {
        assert(dec_rep(a)[0] == digit_char(a));
        assert(dec_rep(b)[0] == digit_char(b));
    } else if a >= 10 && b >= 10 {
        assert(dec_rep(a).last() == digit_char(a % 10));
        assert(dec_rep(b).last() == digit_char(b % 10));
        assert(dec_rep(a).drop_last() =~= dec_rep(a / 10));
        assert(dec_rep(b).drop_last() =~= dec_rep(b / 10));
        lemma_dec_rep_injective(a / 10, b / 10);
        assert(a == 10 * (a / 10) + a % 10);
        assert(b == 10 * (b / 10) + b % 10);
    }
}

/// The temporary names of two runs on the same target never collide:
/// a different process identity or a different timestamp gives a
/// different path. This is the sole safety mechanism between
/// simultaneous invocations racing on one tree.
pub proof fn lemma_temp_path_unique(p: Seq<char>, pid1: u64, ts1: u64, pid2: u64, ts2: u64)
    requires
        pid1 != pid2 || ts1 != ts2,
    ensures
        temp_path_spec(p, pid1, ts1) != temp_path_spec(p, pid2, ts2),
{
    let name = base_name(p);
    let s1 = temp_path_spec(p, pid1, ts1);
    let s2 = temp_path_spec(p, pid2, ts2);
    lemma_dec_rep_shape(pid1 as nat);
    lemma_dec_rep_shape(pid2 as nat);
    lemma_dec_rep_shape(ts1 as nat);
    lemma_dec_rep_shape(ts2 as nat);
    if s1 == s2 {
        let head = dir_prefix(p).len() + 1 + name.len() + 1;
        let r1 = s1.skip(head as int);
        let r2 = s2.skip(head as int);
        assert(r1 =~= dec_rep(pid1 as nat) + seq!['.'] + dec_rep(ts1 as nat) + seq![
            '.',
            't',
            'm',
            'p',
        ]);
        assert(r2 =~= dec_rep(pid2 as nat) + seq!['.'] + dec_rep(ts2 as nat) + seq![
            '.',
            't',
            'm',
            'p',
        ]);
        let w1 = dec_rep(pid1 as nat).len() as int;
        let w2 = dec_rep(pid2 as nat).len() as int;
        assert(forall|t: int| 0 <= t < w1 ==> r1[t] != '.');
        assert(r1[w1] == '.');
        assert(forall|t: int| 0 <= t < w2 ==> r2[t] != '.');
        assert(r2[w2] == '.');
        assert(w1 == w2) by {
            if w1 < w2 {
                assert(r2[w1] != '.');
            }
            if w2 < w1 {
                assert(r1[w2] != '.');
            }
        }
        assert(dec_rep(pid1 as nat) =~= r1.take(w1));
        assert(dec_rep(pid2 as nat) =~= r2.take(w2));
        lemma_dec_rep_injective(pid1 as nat, pid2 as nat);
        let u1 = dec_rep(ts1 as nat).len() as int;
        let u2 = dec_rep(ts2 as nat).len() as int;
        assert(u1 == u2) by {
            assert(r1.len() == w1 + 1 + u1 + 4);
            assert(r2.len() == w2 + 1 + u2 + 4);
        }
        assert(dec_rep(ts1 as nat) =~= r1.subrange(w1 + 1, w1 + 1 + u1));
        assert(dec_rep(ts2 as nat) =~= r2.subrange(w2 + 1, w2 + 1 + u2));
        lemma_dec_rep_injective(ts1 as nat, ts2 as nat);
    }
}

/// The decimal digit of a value below ten, as a string slice.
fn digit_str(d: u64) -> (r: &'static str)
    requires
        d < 10,
    ensures
        r@ == seq![digit_char(d as nat)],
{
    proof {
        reveal_strlit("0");
        reveal_strlit("1");
        reveal_strlit("2");
        reveal_strlit("3");
        reveal_strlit("4");
        reveal_strlit("5");
        reveal_strlit("6");
        reveal_strlit("7");
        reveal_strlit("8");
        reveal_strlit("9");
    }
    if d == 0 {
        proof {
            assert("0"@ =~= seq![digit_char(0)]);
        }
        "0"
    } else if d == 1 {
        proof {
            assert("1"@ =~= seq![digit_char(1)]);
        }
        "1"
    } else if d == 2 {
        proof {
            assert("2"@ =~= seq![digit_char(2)]);
        }
        "2"
    } else if d == 3 {
        proof {
            assert("3"@ =~= seq![digit_char(3)]);
        }
        "3"
    } else if d == 4 {
        proof {
            assert("4"@ =~= seq![digit_char(4)]);
        }
        "4"
    } else if d == 5 {
        proof {
            assert("5"@ =~= seq![digit_char(5)]);
        }
        "5"
    } else if d == 6 {
        proof {
            assert("6"@ =~= seq![digit_char(6)]);
        }
        "6"
    } else if d == 7 {
        proof {
            assert("7"@ =~= seq![digit_char(7)]);
        }
        "7"
    } else if d == 8 {
        proof {
            assert("8"@ =~= seq![digit_char(8)]);
        }
        "8"
    } else {
        proof {
            assert("9"@ =~= seq![digit_char(9)]);
        }
        "9"
    }
}

/// The decimal representation of a number, as a fresh string.
pub fn u64_to_dec(n: u64) -> (s: String)
    ensures
        s@ == dec_rep(n as nat),
    decreases n,
{
    if n < 10 {
        let mut s = String::new();
        s.append(digit_str(n));
        proof {
            assert(s@ =~= dec_rep(n as nat));
        }
        s
    } else {
        let mut s = u64_to_dec(n / 10);
        s.append(digit_str(n % 10));
        proof {
            assert(s@ =~= dec_rep(n as nat));
        }
        s
    }
}

/// Builds the unique, hidden temporary path beside the target. The
/// caller supplies the process identity and a high-resolution clock
/// reading; the result is a pure function of the three inputs.
pub fn generate_temp_path(original: &str, pid: u64, timestamp: u64) -> (r: String)
    ensures
        r@ == temp_path_spec(original@, pid, timestamp),
{
    let ghost cs = original@;
    let bounds = name_bounds(original);
    let dir = original.substring_char(0, bounds.0);
    let name = original.substring_char(bounds.0, bounds.1);
    proof {
        assert(name@ =~= base_name(cs));
        assert(dir@ =~= dir_prefix(cs));
        reveal_strlit(".");
        reveal_strlit(".tmp");
        assert("."@ =~= seq!['.']);
        assert(".tmp"@ =~= seq!['.', 't', 'm', 'p']);
    }
    let pid_digits = u64_to_dec(pid);
    let ts_digits = u64_to_dec(timestamp);
    let mut out = String::new();
    out.append(dir);
    out.append(".");
    out.append(name);
    out.append(".");
    out.append(pid_digits.as_str());
    out.append(".");
    out.append(ts_digits.as_str());
    out.append(".tmp");
    proof {
        assert(out@ =~= temp_path_spec(cs, pid, timestamp));
    }
    out
}

} // verus!
