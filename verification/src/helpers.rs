//! The numeric-count helper: counted verbs take an optional leading count in
//! their first user argument, fall back to a per-verb default when it is
//! absent or unparsable, and emit it as a single `--max-count=N` default
//! argument appended after the verb's own defaults.

use vstd::prelude::*;
use vstd::string::StringExecFns;
use crate::git::GitCommand;
use crate::numbers::dec_rep;
use crate::numbers::parsed_u8;
use crate::numbers::parses_as_u8;
use crate::numbers::parse_u8;
use crate::numbers::u16_to_string;

verus! {

/// The count a counted verb uses when the caller supplies none.
#[derive(Debug, PartialEq, Eq, Clone, Copy, Structural)]
pub struct DefaultMaxCount(pub u8);

/// The `--max-count=N` argument for a count of `n`.
pub open spec fn max_count_arg_spec(n: nat) -> Seq<char> {
    "--max-count="@ + dec_rep(n)
}

/// Renders the `--max-count=N` argument.
pub fn max_count_arg(n: u16) -> (r: String)
    ensures
        r@ == max_count_arg_spec(n as nat),
{
    let mut r = "--max-count=".to_owned();
    let digits = u16_to_string(n);
    r.append(digits.as_str());
    r
}

/// The count the verb uses: the first user argument if it parses as a count,
/// else the verb's default.
pub open spec fn effective_max_count(user_args: Seq<Seq<char>>, dflt: DefaultMaxCount) -> nat {
    if user_args.len() > 0 && parses_as_u8(user_args[0]) {
        parsed_u8(user_args[0])
    } else {
        dflt.0 as nat
    }
}

/// The user arguments the underlying call still sees: everything but a first
/// argument that was consumed as the count.
pub open spec fn remaining_user_args(user_args: Seq<Seq<char>>) -> Seq<Seq<char>> {
    if user_args.len() > 0 && parses_as_u8(user_args[0]) {
        user_args.drop_first()
    } else {
        user_args
    }
}

/// Resolves a counted verb into the exact invocation to execute: the first
/// user argument is consumed as the count when it parses as one, the default
/// count is used otherwise, and `--max-count=N` is appended after the
/// original default arguments.  No further validation is performed on the
/// count; an absurd value is passed through to the underlying tool.
pub fn parse_for_max_count_and_execute(command: GitCommand, default_max_count: DefaultMaxCount) -> (r:
    GitCommand)
    ensures
        r@.subcommand == command@.subcommand,
        r@.default_args == command@.default_args.push(
            max_count_arg_spec(effective_max_count(command@.user_args, default_max_count)),
        ),
        r@.user_args == remaining_user_args(command@.user_args),
{
    let ghost cv = command@;
    let mut count: u16 = default_max_count.0 as u16;
    let mut consumed_first = false;
    if command.user_args.len() > 0 {
        match parse_u8(command.user_args[0].as_str()) {
            Some(n) => {
                count = n as u16;
                consumed_first = true;
            },
            None => {},
        }
    }
    let user_args = if consumed_first {
        let r = crate::git::clone_args_from(&command.user_args, 1);
        proof {
            assert(cv.user_args.subrange(1, cv.user_args.len() as int)
                =~= cv.user_args.drop_first());
        }
        r
    } else {
        crate::git::clone_args(&command.user_args)
    };
    let mut default_args = command.default_args;
    let ghost defaults_before = default_args.deep_view();
    let arg = max_count_arg(count);
    default_args.push(arg);
    proof {
        assert(default_args.deep_view() =~= defaults_before.push(
            max_count_arg_spec(effective_max_count(cv.user_args, default_max_count)),
        ));
    }
    GitCommand {
        subcommand: command.subcommand,
        default_args,
        user_args,
    }
}

} // verus!
