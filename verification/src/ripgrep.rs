//! The pattern-filter tool's argument conventions: options rendered into
//! flags, with the pattern always last.

use vstd::prelude::*;
use crate::git::push_arg;
use crate::git::push_arg_string;

verus! {

/// Options of the pattern-filter stages.
#[derive(Debug, PartialEq, Eq, Clone, Copy, Structural)]
pub enum RipgrepOptions {
    /// Show this many context lines around each match (one to five).
    Context(u8),
    /// Match the pattern literally, not as a regular expression.
    FixedStrings,
    /// Match case-insensitively.
    IgnoreCase,
    /// Keep the lines that do not match.
    InvertMatch,
}

/// The flag one option renders to.
pub open spec fn option_flag(opt: RipgrepOptions) -> Seq<char> {
    match opt {
        RipgrepOptions::Context(n) => if n == 1 {
            "--context=1"@
        } else if n == 2 {
            "--context=2"@
        } else if n == 3 {
            "--context=3"@
        } else if n == 4 {
            "--context=4"@
        } else {
            "--context=5"@
        },
        RipgrepOptions::FixedStrings => "--fixed-strings"@,
        RipgrepOptions::IgnoreCase => "--ignore-case"@,
        RipgrepOptions::InvertMatch => "--invert-match"@,
    }
}

/// A context width the renderer supports.
pub open spec fn context_supported(opt: RipgrepOptions) -> bool {
    match opt {
        RipgrepOptions::Context(n) => 1 <= n <= 5,
        _ => true,
    }
}

pub struct Ripgrep {}

impl Ripgrep {
    /// Renders the options as an argument list, one flag per option in the
    /// given order, with the pattern added last.
    pub fn parse_options(options: &Vec<RipgrepOptions>, pattern: &String) -> (r: Vec<String>)
        requires
            forall|i: int| 0 <= i < options@.len() ==> context_supported(#[trigger] options@[i]),
        ensures
            r.deep_view() == options@.map_values(|o: RipgrepOptions| option_flag(o)).push(pattern@),
    {
        let mut args: Vec<String> = Vec::new();
        let mut i: usize = 0;
        proof {
            assert(args.deep_view() =~= options@.take(0).map_values(
                |o: RipgrepOptions| option_flag(o),
            ));
        }
        while i < options.len()
            invariant
                i <= options@.len(),
                forall|k: int| 0 <= k < options@.len() ==> context_supported(#[trigger] options@[k]),
                args.deep_view() == options@.take(i as int).map_values(
                    |o: RipgrepOptions| option_flag(o),
                ),
            decreases options@.len() - i,
        {
            let flag: &'static str = match options[i] {
                RipgrepOptions::Context(n) => {
                    if n == 1 {
                        "--context=1"
                    } else if n == 2 {
                        "--context=2"
                    } else if n == 3 {
                        "--context=3"
                    } else if n == 4 {
                        "--context=4"
                    } else {
                        "--context=5"
                    }
                },
                RipgrepOptions::FixedStrings => "--fixed-strings",
                RipgrepOptions::IgnoreCase => "--ignore-case",
                RipgrepOptions::InvertMatch => "--invert-match",
            };
            assert(flag@ == option_flag(options@[i as int]));
            push_arg(&mut args, flag);
            proof {
                assert(options@.take(i + 1) =~= options@.take(i as int).push(options@[i as int]));
                assert(options@.take(i + 1).map_values(|o: RipgrepOptions| option_flag(o))
                    =~= options@.take(i as int).map_values(|o: RipgrepOptions| option_flag(o)).push(
                    option_flag(options@[i as int]),
                ));
            }
            i += 1;
        }
        proof {
            assert(options@.take(options@.len() as int) =~= options@);
        }
        // the pattern comes last
        push_arg_string(&mut args, pattern.clone());
        args
    }
}

} // verus!
