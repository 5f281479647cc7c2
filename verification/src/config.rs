//! Configuration parsing: turns the raw argument list into the operation
//! mode, the target path and the verbose flag, or a usage error.
//!
//! A verbose flag may appear anywhere in the argument list; the first
//! remaining token after the program name selects the mode, and the next
//! one carries the target path where the mode needs one.

use crate::strutil::str_eq;
use vstd::prelude::*;

verus! {

/// The operation mode of one invocation.
#[derive(Debug, PartialEq, Eq, Structural, Clone, Copy)]
pub enum Mode {
    File,
    Folder,
    Help,
}

/// A validated configuration: the mode, the target path (empty for the
/// help mode) and the verbose flag.
#[derive(Debug)]
pub struct Config {
    pub mode: Mode,
    pub path: String,
    pub verbose: bool,
}

/// Whether one argument is the verbose flag, long or short.
pub open spec fn is_verbose_flag(s: Seq<char>) -> bool {
    s == "--verbose"@ || s == "-v"@
}

/// The argument list as character sequences.
pub open spec fn arg_views(args: Seq<String>) -> Seq<Seq<char>> {
    args.map_values(|a: String| a@)
}

/// The argument list with every verbose flag removed, order kept.
pub open spec fn keep_non_verbose(args: Seq<Seq<char>>) -> Seq<Seq<char>>
    decreases args.len(),
{
    if args.len() == 0 {
        Seq::<Seq<char>>::empty()
    } else {
        let rest = keep_non_verbose(args.drop_last());
        if is_verbose_flag(args.last()) {
            rest
        } else {
            rest.push(args.last())
        }
    }
}

/// Whether any argument is the verbose flag.
pub open spec fn has_verbose(args: Seq<Seq<char>>) -> bool {
    exists|i: int| 0 <= i < args.len() && is_verbose_flag(args[i])
}

/// Parses the command line. The first argument is the program name; the
/// verbose flag is picked up anywhere; the first remaining token selects
/// the mode; a missing or unknown token is a usage error.
pub fn parse_config(args: &Vec<String>) -> (r: Result<Config, &'static str>)
    ensures
        ({
            let vs = arg_views(args@);
            let f = keep_non_verbose(vs);
            if vs.len() < 2 || f.len() < 2 {
                r is Err && r->Err_0@
                    == "Usage: rtrim --file <path> | rtrim --folder <path> | rtrim --help"@
            } else if f[1] == "--help"@ || f[1] == "-h"@ {
                r is Ok && r->Ok_0.mode == Mode::Help && r->Ok_0.path@ == Seq::<char>::empty()
                    && r->Ok_0.verbose == has_verbose(vs)
            } else if f[1] == "--file"@ {
                if f.len() < 3 {
                    r is Err && r->Err_0@ == "Usage: rtrim --file <path>"@
                } else {
                    r is Ok && r->Ok_0.mode == Mode::File && r->Ok_0.path@ == f[2]
                        && r->Ok_0.verbose == has_verbose(vs)
                }
            } else if f[1] == "--folder"@ {
                if f.len() < 3 {
                    r is Err && r->Err_0@ == "Usage: rtrim --folder <path>"@
                } else {
                    r is Ok && r->Ok_0.mode == Mode::Folder && r->Ok_0.path@ == f[2]
                        && r->Ok_0.verbose == has_verbose(vs)
                }
            } else {
                r is Err && r->Err_0@ == "Invalid flag. Use --file, --folder, or --help."@
            }
        }),
{
    let ghost vs = arg_views(args@);
    if args.len() < 2 {
        return Err("Usage: rtrim --file <path> | rtrim --folder <path> | rtrim --help");
    }
    let mut verbose = false;
    let mut filtered: Vec<String> = Vec::new();
    let mut i: usize = 0;
    proof {
        assert(args@.take(0) =~= Seq::<String>::empty());
        assert(arg_views(args@.take(0)) =~= Seq::<Seq<char>>::empty());
    }
    while i < args.len()
        invariant
            i <= args@.len(),
            vs == arg_views(args@),
            filtered@.map_values(|a: String| a@) == keep_non_verbose(arg_views(args@.take(i as int))),
            verbose == has_verbose(arg_views(args@.take(i as int))),
        decreases args@.len() - i,
    {
        let a = &args[i];
        let is_verbose = str_eq(a.as_str(), "--verbose") || str_eq(a.as_str(), "-v");
        let ghost ovs = arg_views(args@.take(i as int));
        let ghost nvs = arg_views(args@.take(i as int + 1));
        proof {
            assert(nvs.drop_last() =~= ovs);
            assert(nvs.last() == args@[i as int]@);
            if has_verbose(ovs) {
                let t = choose|t: int| 0 <= t < ovs.len() && is_verbose_flag(ovs[t]);
                assert(nvs[t] == ovs[t]);
                assert(has_verbose(nvs));
            }
            if is_verbose_flag(args@[i as int]@) {
                assert(nvs[nvs.len() - 1] == args@[i as int]@);
                assert(has_verbose(nvs));
            }
            if has_verbose(nvs) && !has_verbose(ovs) && !is_verbose_flag(args@[i as int]@) {
                let t = choose|t: int| 0 <= t < nvs.len() && is_verbose_flag(nvs[t]);
                if t < nvs.len() - 1 {
                    assert(ovs[t] == nvs[t]);
                }
            }
        }
        if is_verbose {
            verbose = true;
        } else {
            filtered.push(a.clone());
            proof {
                assert(filtered@.map_values(|a: String| a@) =~= keep_non_verbose(ovs).push(
                    args@[i as int]@,
                ));
            }
        }
        i = i + 1;
    }
    proof {
        assert(args@.take(args@.len() as int) =~= args@);
    }
    let ghost f = keep_non_verbose(vs);
    if filtered.len() < 2 {
        return Err("Usage: rtrim --file <path> | rtrim --folder <path> | rtrim --help");
    }
    proof {
        assert(filtered@[1]@ == f[1]);
    }
    let second = &filtered[1];
    if str_eq(second.as_str(), "--help") || str_eq(second.as_str(), "-h") {
        return Ok(Config { mode: Mode::Help, path: String::new(), verbose });
    }
    if str_eq(second.as_str(), "--file") {
        if filtered.len() < 3 {
            return Err("Usage: rtrim --file <path>");
        }
        proof {
            assert(filtered@[2]@ == f[2]);
        }
        return Ok(Config { mode: Mode::File, path: filtered[2].clone(), verbose });
    }
    if str_eq(second.as_str(), "--folder") {
        if filtered.len() < 3 {
            return Err("Usage: rtrim --folder <path>");
        }
        proof {
            assert(filtered@[2]@ == f[2]);
        }
        return Ok(Config { mode: Mode::Folder, path: filtered[2].clone(), verbose });
    }
    Err("Invalid flag. Use --file, --folder, or --help.")
}

} // verus!
