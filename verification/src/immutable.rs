//! The read-only verbs: log and show variants that inspect history without
//! touching the working tree.  Each builds the exact invocation to execute;
//! the one-line log additionally post-processes captured output, removing
//! the single quotes the underlying tool wraps around each line when its
//! output is not a terminal.

use vstd::prelude::*;
use crate::git::clone_args;
use crate::git::push_arg;
use crate::git::spec_command;
use crate::git::GitCommand;
use crate::helpers::max_count_arg;
use crate::helpers::max_count_arg_spec;
use crate::numbers::count_or_default;
use crate::text::lines_spec;
use crate::text::split_lines;
use crate::text::trim_quote_bytes;
use crate::text::trim_quotes;

verus! {

/// The pretty format of the one-line log: hash, author date, author initials
/// and subject, each in its own color.
pub open spec fn one_line_pretty_spec() -> Seq<char> {
    "--pretty='%C(yellow)%h %C(magenta)%as %C(blue)%aL %C(cyan)%s%C(reset)'"@
}

#[derive(Debug, PartialEq, Eq, Clone, Copy, Structural)]
pub struct ImmutableCommands();

impl ImmutableCommands {
    /// `git log --compact-summary --max-count=NUM ARGS`, with NUM defaulting
    /// to one.
    pub fn compact_summary_log(num: Option<u16>, args: &Vec<String>) -> (r: GitCommand)
        ensures
            r@ == spec_command(
                "log"@,
                seq!["--compact-summary"@, max_count_arg_spec(count_or_default(num, 1))],
                args.deep_view(),
            ),
    {
        let n: u16 = match num {
            Some(n) => n,
            None => 1,
        };
        let mut defaults: Vec<String> = Vec::new();
        push_arg(&mut defaults, "--compact-summary");
        crate::git::push_arg_string(&mut defaults, max_count_arg(n));
        proof {
            assert(defaults.deep_view() =~= seq![
                "--compact-summary"@,
                max_count_arg_spec(count_or_default(num, 1)),
            ]);
        }
        GitCommand::new("log").with_default_args(defaults).with_user_args(clone_args(args))
    }

    /// `git log --pretty=... --max-count=NUM ARGS`, one line per commit,
    /// with NUM defaulting to twenty-five.
    pub fn one_line_log(num: Option<u16>, args: &Vec<String>) -> (r: GitCommand)
        ensures
            r@ == spec_command(
                "log"@,
                seq![one_line_pretty_spec(), max_count_arg_spec(count_or_default(num, 25))],
                args.deep_view(),
            ),
    {
        let n: u16 = match num {
            Some(n) => n,
            None => 25,
        };
        let mut defaults: Vec<String> = Vec::new();
        push_arg(
            &mut defaults,
            "--pretty='%C(yellow)%h %C(magenta)%as %C(blue)%aL %C(cyan)%s%C(reset)'",
        );
        crate::git::push_arg_string(&mut defaults, max_count_arg(n));
        proof {
            assert(defaults.deep_view() =~= seq![
                one_line_pretty_spec(),
                max_count_arg_spec(count_or_default(num, 25)),
            ]);
        }
        GitCommand::new("log").with_default_args(defaults).with_user_args(clone_args(args))
    }

    /// The lines of a captured one-line log with the wrapping single quotes
    /// removed: since the child saw no terminal, it quoted each line.
    pub fn trim_quoted_log_lines(output: &[u8]) -> (r: Vec<Vec<u8>>)
        ensures
            r.deep_view() == lines_spec(output@).map_values(|l: Seq<u8>| trim_quotes(l)),
    {
        let lines = split_lines(output);
        let ghost ls = lines_spec(output@);
        let mut out: Vec<Vec<u8>> = Vec::new();
        let mut k: usize = 0;
        while k < lines.len()
            invariant
                lines.deep_view() == ls,
                ls == lines_spec(output@),
                k <= lines@.len(),
                lines@.len() == ls.len(),
                out.deep_view() == ls.take(k as int).map_values(|l: Seq<u8>| trim_quotes(l)),
            decreases lines@.len() - k,
        {
            let line: &Vec<u8> = &lines[k];
            assert(line@ =~= ls[k as int]);
            let ghost before = out.deep_view();
            out.push(trim_quote_bytes(line.as_slice()));
            proof {
                assert(out.deep_view() =~~= before.push(trim_quotes(ls[k as int])));
                assert(ls.take(k + 1) =~= ls.take(k as int).push(ls[k as int]));
                assert(ls.take(k + 1).map_values(|l: Seq<u8>| trim_quotes(l)) =~= before.push(
                    trim_quotes(ls[k as int]),
                ));
            }
            k += 1;
        }
        proof {
            assert(ls.take(ls.len() as int) =~= ls);
        }
        out
    }

    /// `git show --expand-tabs=4 --max-count=NUM ARGS`, with NUM defaulting
    /// to one.
    pub fn show(num: Option<u16>, args: &Vec<String>) -> (r: GitCommand)
        ensures
            r@ == spec_command(
                "show"@,
                seq!["--expand-tabs=4"@, max_count_arg_spec(count_or_default(num, 1))],
                args.deep_view(),
            ),
    {
        let n: u16 = match num {
            Some(n) => n,
            None => 1,
        };
        let mut defaults: Vec<String> = Vec::new();
        push_arg(&mut defaults, "--expand-tabs=4");
        crate::git::push_arg_string(&mut defaults, max_count_arg(n));
        proof {
            assert(defaults.deep_view() =~= seq![
                "--expand-tabs=4"@,
                max_count_arg_spec(count_or_default(num, 1)),
            ]);
        }
        GitCommand::new("show").with_default_args(defaults).with_user_args(clone_args(args))
    }

    /// `git show --pretty= --name-only --max-count=NUM`: only the names of
    /// the files the last NUM commits changed, with NUM defaulting to one.
    pub fn show_files(num: Option<u16>) -> (r: GitCommand)
        ensures
            r@ == spec_command(
                "show"@,
                seq![
                    "--pretty="@,
                    "--name-only"@,
                    max_count_arg_spec(count_or_default(num, 1)),
                ],
                Seq::<Seq<char>>::empty(),
            ),
    {
        let n: u16 = match num {
            Some(n) => n,
            None => 1,
        };
        let mut defaults: Vec<String> = Vec::new();
        push_arg(&mut defaults, "--pretty=");
        push_arg(&mut defaults, "--name-only");
        crate::git::push_arg_string(&mut defaults, max_count_arg(n));
        proof {
            assert(defaults.deep_view() =~= seq![
                "--pretty="@,
                "--name-only"@,
                max_count_arg_spec(count_or_default(num, 1)),
            ]);
        }
        GitCommand::new("show").with_default_args(defaults)
    }
}

} // verus!
