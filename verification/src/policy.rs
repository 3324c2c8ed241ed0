//! The pre-commit policy engine: the checks a commit must pass before it is
//! allowed to finalize.  Step one holds the commit author email against the
//! allowed one; step two, only reached when step one passed, scans the added
//! lines of the staged diff for disallowed substrings.  A later check never
//! runs when an earlier one fails, and the diff is only ever requested when
//! the disallowed-substring list is configured at all.
//!
//! All text arrives as bytes: the caller reads the environment and captures
//! the diff, and hands the observed values in unchanged.

use vstd::prelude::*;
use crate::git::push_arg;
use crate::git::spec_command;
use crate::git::GitCommand;
use crate::outcome::GitCommandResult;
use crate::outcome::GitFailure;
use crate::outcome::PolicyVar;
use crate::text::ascii_lower;
use crate::text::contains_bytes;
use crate::text::contains_subslice;
use crate::text::lines_spec;
use crate::text::lower_bytes;
use crate::text::split_bytes;
use crate::text::split_on_byte;
use crate::text::split_lines;

verus! {

/// The delimiter of the disallowed-substring list.
pub const PATTERN_DELIMITER: u8 = 59;

/// The marker of an added line in a unified diff.
pub const ADDITION_MARKER: u8 = 43;

/// One environment variable as the caller observed it: present with a
/// value, absent, or present but unreadable.
pub enum EnvVarRead {
    Present(Vec<u8>),
    Missing,
    Unreadable,
}

/// What the identity phase decided: the verb is over, or the staged diff is
/// needed for the content check.
pub enum PolicyPhase {
    Done(Result<GitCommandResult, GitFailure>),
    NeedDiff { patterns: Vec<Vec<u8>>, diff_command: GitCommand },
}

/// The disallowed patterns a configuration value denotes: split on the
/// delimiter, each piece lower-cased, since matching is case-insensitive.
pub open spec fn disallowed_patterns(raw: Seq<u8>) -> Seq<Seq<u8>> {
    split_on_byte(raw, PATTERN_DELIMITER).map_values(|p: Seq<u8>| lower_bytes(p))
}

/// The invocation whose output the content check scans: the staged diff of
/// the commit in progress.
pub open spec fn staged_diff_index_spec() -> crate::git::GitCommandView {
    spec_command(
        "diff-index"@,
        seq!["--p"@, "--find-renames"@, "--cached"@, "HEAD"@],
        Seq::<Seq<char>>::empty(),
    )
}

/// An added line of a unified diff.
pub open spec fn added_line(l: Seq<u8>) -> bool {
    l.len() > 0 && l[0] == ADDITION_MARKER
}

/// An added line that contains one of the (lower-case) patterns,
/// case-insensitively.
pub open spec fn line_violates(l: Seq<u8>, patterns: Seq<Seq<u8>>) -> bool {
    added_line(l) && exists|j: int|
        0 <= j < patterns.len() && contains_bytes(lower_bytes(l), #[trigger] patterns[j])
}

/// The first violating line of the diff, if any: scanning stops at the
/// first match.
pub open spec fn first_violation(lines: Seq<Seq<u8>>, patterns: Seq<Seq<u8>>) -> Option<Seq<u8>>
    decreases lines.len(),
{
    if lines.len() == 0 {
        None
    } else if line_violates(lines[0], patterns) {
        Some(lines[0])
    } else {
        first_violation(lines.drop_first(), patterns)
    }
}

/// Parses the disallowed-substring configuration into the patterns the
/// content check matches.
pub fn parse_disallowed_patterns(raw: &[u8]) -> (r: Vec<Vec<u8>>)
    ensures
        r.deep_view() == disallowed_patterns(raw@),
{
    let pieces = split_bytes(raw, PATTERN_DELIMITER);
    let ghost ps = split_on_byte(raw@, PATTERN_DELIMITER);
    let mut out: Vec<Vec<u8>> = Vec::new();
    let mut k: usize = 0;
    while k < pieces.len()
        invariant
            pieces.deep_view() == ps,
            k <= pieces@.len(),
            pieces@.len() == ps.len(),
            out.deep_view() == ps.take(k as int).map_values(|p: Seq<u8>| lower_bytes(p)),
        decreases pieces@.len() - k,
    {
        let piece: &Vec<u8> = &pieces[k];
        assert(piece@ =~= ps[k as int]);
        let ghost before = out.deep_view();
        out.push(ascii_lower(piece.as_slice()));
        proof {
            assert(out.deep_view() =~~= before.push(lower_bytes(ps[k as int])));
            assert(ps.take(k + 1) =~= ps.take(k as int).push(ps[k as int]));
            assert(ps.take(k + 1).map_values(|p: Seq<u8>| lower_bytes(p)) =~= before.push(
                lower_bytes(ps[k as int]),
            ));
        }
        k += 1;
    }
    proof {
        assert(ps.take(ps.len() as int) =~= ps);
    }
    out
}

/// Does this added line contain any of the patterns, case-insensitively?
fn line_matches(line: &Vec<u8>, patterns: &Vec<Vec<u8>>) -> (r: bool)
    ensures
        r == line_violates(line@, patterns.deep_view()),
{
    if line.len() == 0 || line[0] != ADDITION_MARKER {
        return false;
    }
    let lowered = ascii_lower(line.as_slice());
    let mut j: usize = 0;
    while j < patterns.len()
        invariant
            added_line(line@),
            lowered@ == lower_bytes(line@),
            j <= patterns@.len(),
            patterns@.len() == patterns.deep_view().len(),
            forall|m: int|
                0 <= m < j ==> !contains_bytes(lower_bytes(line@), #[trigger] patterns.deep_view()[m]),
        decreases patterns@.len() - j,
    {
        let pattern: &Vec<u8> = &patterns[j];
        assert(pattern@ =~= patterns.deep_view()[j as int]);
        if contains_subslice(lowered.as_slice(), pattern.as_slice()) {
            return true;
        }
        j += 1;
    }
    false
}

#[derive(Debug, PartialEq, Eq, Clone, Copy, Structural)]
pub struct PreCommitHook {}

impl PreCommitHook {
    /// Step 1 — the identity check, and the decision whether step 2 is
    /// needed at all.  Checks run strictly in order: a missing or unreadable
    /// allowed email fails before the author email is even considered, an
    /// identity mismatch fails before the content check, and with no
    /// disallowed-substring configuration the verb succeeds at once — the
    /// diff pipeline is only requested when the list is present.
    pub fn run(allowed: &EnvVarRead, author: &EnvVarRead, disallowed: &EnvVarRead) -> (r:
        PolicyPhase)
        ensures
            !(allowed is Present) ==> r == PolicyPhase::Done(
                Err(
                    GitFailure::PolicyConfig {
                        var: PolicyVar::AllowedEmail,
                        missing: allowed is Missing,
                    },
                ),
            ),
            allowed is Present && !(author is Present) ==> r == PolicyPhase::Done(
                Err(
                    GitFailure::PolicyConfig {
                        var: PolicyVar::AuthorEmail,
                        missing: author is Missing,
                    },
                ),
            ),
            allowed is Present && author is Present && allowed->Present_0@ != author->Present_0@
                ==> (r matches PolicyPhase::Done(res) && res matches Err(f) && (
            f matches GitFailure::IdentityMismatch { expected, actual } && expected@
                == allowed->Present_0@ && actual@ == author->Present_0@)),
            allowed is Present && author is Present && allowed->Present_0@ == author->Present_0@
                ==> match disallowed {
                EnvVarRead::Missing => r == PolicyPhase::Done(Ok(GitCommandResult::Success)),
                EnvVarRead::Unreadable => r == PolicyPhase::Done(
                    Err(
                        GitFailure::PolicyConfig {
                            var: PolicyVar::DisallowedStrings,
                            missing: false,
                        },
                    ),
                ),
                EnvVarRead::Present(raw) => (r matches PolicyPhase::NeedDiff {
                    patterns,
                    diff_command,
                } && patterns.deep_view() == disallowed_patterns(raw@) && diff_command@
                    == staged_diff_index_spec()),
            },
    {
        let allowed_email = match allowed {
            EnvVarRead::Present(a) => a,
            EnvVarRead::Missing => {
                return PolicyPhase::Done(
                    Err(GitFailure::PolicyConfig { var: PolicyVar::AllowedEmail, missing: true }),
                );
            },
            EnvVarRead::Unreadable => {
                return PolicyPhase::Done(
                    Err(GitFailure::PolicyConfig { var: PolicyVar::AllowedEmail, missing: false }),
                );
            },
        };
        let author_email = match author {
            EnvVarRead::Present(b) => b,
            EnvVarRead::Missing => {
                return PolicyPhase::Done(
                    Err(GitFailure::PolicyConfig { var: PolicyVar::AuthorEmail, missing: true }),
                );
            },
            EnvVarRead::Unreadable => {
                return PolicyPhase::Done(
                    Err(GitFailure::PolicyConfig { var: PolicyVar::AuthorEmail, missing: false }),
                );
            },
        };
        if !bytes_equal(author_email, allowed_email) {
            return PolicyPhase::Done(
                Err(
                    GitFailure::IdentityMismatch {
                        expected: vstd::slice::slice_to_vec(allowed_email.as_slice()),
                        actual: vstd::slice::slice_to_vec(author_email.as_slice()),
                    },
                ),
            );
        }
        match disallowed {
            EnvVarRead::Missing => PolicyPhase::Done(Ok(GitCommandResult::Success)),
            EnvVarRead::Unreadable => PolicyPhase::Done(
                Err(
                    GitFailure::PolicyConfig { var: PolicyVar::DisallowedStrings, missing: false },
                ),
            ),
            EnvVarRead::Present(raw) => {
                let patterns = parse_disallowed_patterns(raw.as_slice());
                PolicyPhase::NeedDiff { patterns, diff_command: staged_diff_index_command() }
            },
        }
    }

    /// Step 2 — the content check, on the captured staged diff.  The first
    /// added line containing a disallowed substring fails the commit and is
    /// carried in the failure for diagnostics; scanning stops there.  A diff
    /// command that itself exited nonzero leaves nothing to scan and the
    /// check passes.
    pub fn content_check(patterns: &Vec<Vec<u8>>, diff_ok: bool, diff_output: &[u8]) -> (r: Result<
        GitCommandResult,
        GitFailure,
    >)
        ensures
            !diff_ok ==> r == Ok::<GitCommandResult, GitFailure>(GitCommandResult::Success),
            diff_ok ==> match first_violation(lines_spec(diff_output@), patterns.deep_view()) {
                Some(l) => (r matches Err(f) && f matches GitFailure::DisallowedContent { line }
                    && line@ == l),
                None => r == Ok::<GitCommandResult, GitFailure>(GitCommandResult::Success),
            },
    {
        if !diff_ok {
            return Ok(GitCommandResult::Success);
        }
        let lines = split_lines(diff_output);
        let ghost ls = lines_spec(diff_output@);
        let ghost pats = patterns.deep_view();
        let mut k: usize = 0;
        proof {
            assert(ls.skip(0) =~= ls);
        }
        while k < lines.len()
            invariant
                diff_ok,
                ls == lines_spec(diff_output@),
                lines.deep_view() == ls,
                pats == patterns.deep_view(),
                k <= lines@.len(),
                lines@.len() == ls.len(),
                first_violation(ls, pats) == first_violation(ls.skip(k as int), pats),
            decreases lines@.len() - k,
        {
            let line: &Vec<u8> = &lines[k];
            assert(line@ =~= ls[k as int]);
            proof {
                assert(ls.skip(k as int).len() > 0);
                assert(ls.skip(k as int)[0] == ls[k as int]);
            }
            if line_matches(line, patterns) {
                proof {
                    assert(first_violation(ls.skip(k as int), pats) == Some(ls[k as int]));
                }
                return Err(
                    GitFailure::DisallowedContent {
                        line: vstd::slice::slice_to_vec(line.as_slice()),
                    },
                );
            }
            proof {
                assert(ls.skip(k as int).drop_first() =~= ls.skip(k + 1));
                assert(first_violation(ls.skip(k as int), pats) == first_violation(
                    ls.skip(k + 1),
                    pats,
                ));
            }
            k += 1;
        }
        proof {
            assert(ls.skip(ls.len() as int) =~= Seq::<Seq<u8>>::empty());
            assert(first_violation(Seq::<Seq<u8>>::empty(), pats) is None);
        }
        Ok(GitCommandResult::Success)
    }
}

/// The invocation whose output the content check scans:
/// `git diff-index --p --find-renames --cached HEAD`.
pub fn staged_diff_index_command() -> (r: GitCommand)
    ensures
        r@ == staged_diff_index_spec(),
{
    let mut defaults: Vec<String> = Vec::new();
    push_arg(&mut defaults, "--p");
    push_arg(&mut defaults, "--find-renames");
    push_arg(&mut defaults, "--cached");
    push_arg(&mut defaults, "HEAD");
    proof {
        assert(defaults.deep_view() =~= seq!["--p"@, "--find-renames"@, "--cached"@, "HEAD"@]);
    }
    GitCommand::new("diff-index").with_default_args(defaults)
}

/// Are two byte strings identical?
fn bytes_equal(a: &Vec<u8>, b: &Vec<u8>) -> (r: bool)
    ensures
        r == (a@ == b@),
{
    if a.len() != b.len() {
        return false;
    }
    let mut i: usize = 0;
    while i < a.len()
        invariant
            a@.len() == b@.len(),
            i <= a@.len(),
            forall|k: int| 0 <= k < i ==> a@[k] == b@[k],
        decreases a@.len() - i,
    {
        if a[i] != b[i] {
            return false;
        }
        i += 1;
    }
    proof {
        assert(a@ =~= b@);
    }
    true
}

} // verus!
