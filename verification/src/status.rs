//! The working-tree state verifier: a strict classifier over the
//! machine-readable (porcelain) status output and over the staged-diff
//! name-only output.  It fails closed: a status line it does not understand
//! is never silently accepted, because misclassifying a dirty tree as clean
//! could let a destructive operation proceed against an unintended state.

use vstd::prelude::*;
use crate::git::Git;
use crate::git::GitCommand;
use crate::outcome::GitCommandResult;
use crate::text::lines_spec;
use crate::text::split_lines;

verus! {

/// The status codes porcelain output may carry in either of its two columns:
/// `M`, `A`, `D`, `C`, `R`, `U`, `?`, or a space meaning "unchanged in that
/// dimension".
pub open spec fn is_status_code(b: u8) -> bool {
    b == 77 || b == 65 || b == 68 || b == 67 || b == 82 || b == 85 || b == 63 || b == 32
}

/// A porcelain line of interest: two status codes, a space, then the path.
pub open spec fn line_well_formed(l: Seq<u8>) -> bool {
    &&& l.len() >= 3
    &&& is_status_code(l[0])
    &&& is_status_code(l[1])
    &&& l[2] == 32
}

/// A line is unstaged-dirty if its worktree column is a content code, or its
/// index column is a space; only a staged entry with an untouched worktree
/// (`X` followed by a space) is fully staged and counts as clean.
pub open spec fn line_dirty(l: Seq<u8>) -> bool
    recommends
        line_well_formed(l),
{
    l[1] != 32 || l[0] == 32
}

/// Every line of the porcelain output is one the parser understands.
pub open spec fn status_well_formed(text: Seq<u8>) -> bool {
    forall|i: int|
        0 <= i < lines_spec(text).len() ==> line_well_formed(#[trigger] lines_spec(text)[i])
}

/// No line of the porcelain output is unstaged-dirty.
pub open spec fn tree_clean(text: Seq<u8>) -> bool {
    forall|i: int| 0 <= i < lines_spec(text).len() ==> !line_dirty(#[trigger] lines_spec(text)[i])
}

/// One parsed line of porcelain status output.
pub struct StatusEntry {
    pub index_status: u8,
    pub worktree_status: u8,
    pub path: Vec<u8>,
}

impl StatusEntry {
    /// The dirtiness rule of `line_dirty`, on the parsed entry.
    pub open spec fn dirty(self) -> bool {
        self.worktree_status != 32 || self.index_status == 32
    }

    /// An entry counts as unstaged-dirty unless it is fully staged: content
    /// code in the index column, space in the worktree column.
    pub fn is_dirty(&self) -> (r: bool)
        ensures
            r == self.dirty(),
    {
        self.worktree_status != 32 || self.index_status == 32
    }
}

/// Is `b` one of the status codes the parser understands?
fn is_code(b: u8) -> (r: bool)
    ensures
        r == is_status_code(b),
{
    b == 77 || b == 65 || b == 68 || b == 67 || b == 82 || b == 85 || b == 63 || b == 32
}

/// Parses one porcelain line into a `StatusEntry`; `None` exactly on the
/// lines the parser must not silently accept.
pub fn parse_status_line(line: &[u8]) -> (r: Option<StatusEntry>)
    ensures
        r is Some <==> line_well_formed(line@),
        r matches Some(e) ==> {
            &&& e.index_status == line@[0]
            &&& e.worktree_status == line@[1]
            &&& e.path@ == line@.subrange(3, line@.len() as int)
            &&& e.dirty() == line_dirty(line@)
        },
{
    if line.len() < 3 {
        return None;
    }
    if !is_code(line[0]) || !is_code(line[1]) || line[2] != 32 {
        return None;
    }
    let rest = vstd::slice::slice_subrange(line, 3, line.len());
    Some(
        StatusEntry {
            index_status: line[0],
            worktree_status: line[1],
            path: vstd::slice::slice_to_vec(rest),
        },
    )
}

/// Checks every line of a porcelain output against the parser, so a caller
/// can tell a classifiable output from an internal-consistency violation.
pub fn status_is_well_formed(output: &[u8]) -> (b: bool)
    ensures
        b == status_well_formed(output@),
{
    let lines = split_lines(output);
    let ghost ls = lines_spec(output@);
    let mut k: usize = 0;
    while k < lines.len()
        invariant
            lines.deep_view() == ls,
            ls == lines_spec(output@),
            k <= lines@.len(),
            lines@.len() == ls.len(),
            forall|j: int| 0 <= j < k ==> line_well_formed(#[trigger] ls[j]),
        decreases lines@.len() - k,
    {
        let line: &Vec<u8> = &lines[k];
        assert(line@ =~= ls[k as int]);
        if parse_status_line(line.as_slice()).is_none() {
            return false;
        }
        k += 1;
    }
    true
}

/// Classifies the working tree from the porcelain output: `Success` exactly
/// when every entry is fully staged (no unstaged, untracked or conflicted
/// entry), so empty output is `Success`.  Output with a line the parser does
/// not understand is outside this function's domain: it must be treated as a
/// defect, never classified.
pub fn verify_no_unstaged_changes(output: &[u8]) -> (r: GitCommandResult)
    requires
        status_well_formed(output@),
    ensures
        r == GitCommandResult::Success <==> tree_clean(output@),
{
    let lines = split_lines(output);
    let ghost ls = lines_spec(output@);
    let mut k: usize = 0;
    while k < lines.len()
        invariant
            lines.deep_view() == ls,
            ls == lines_spec(output@),
            status_well_formed(output@),
            k <= lines@.len(),
            lines@.len() == ls.len(),
            forall|j: int| 0 <= j < k ==> !line_dirty(#[trigger] ls[j]),
        decreases lines@.len() - k,
    {
        let line: &Vec<u8> = &lines[k];
        assert(line@ =~= ls[k as int]);
        match parse_status_line(line.as_slice()) {
            Some(entry) => {
                if entry.is_dirty() {
                    return GitCommandResult::Error;
                }
            },
            None => {
                assert(false);
                return GitCommandResult::Error;
            },
        }
        k += 1;
    }
    GitCommandResult::Success
}

impl Git {
    /// `Success` if and only if the staged-diff name-only output is exactly
    /// empty bytes; any nonempty output, even a single changed file, is
    /// `Error` ("refuse to proceed").
    pub fn verify_staging_area_is_empty(output: &[u8]) -> (r: GitCommandResult)
        ensures
            r == GitCommandResult::Success <==> output@.len() == 0,
    {
        if output.len() == 0 {
            GitCommandResult::Success
        } else {
            GitCommandResult::Error
        }
    }
}

/// The invocation whose output `Git::verify_staging_area_is_empty`
/// classifies: `git diff --staged --name-only`.
pub fn staged_diff_command() -> (r: GitCommand)
    ensures
        r@.subcommand == "diff"@,
        r@.default_args == seq!["--staged"@, "--name-only"@],
        r@.user_args == Seq::<Seq<char>>::empty(),
{
    let mut defaults: Vec<String> = Vec::new();
    defaults.push("--staged".to_owned());
    defaults.push("--name-only".to_owned());
    proof {
        assert(defaults.deep_view() =~= seq!["--staged"@, "--name-only"@]);
    }
    GitCommand::new("diff").with_default_args(defaults)
}

/// The invocation whose output `verify_no_unstaged_changes` classifies:
/// `git status --porcelain`.
pub fn porcelain_status_command() -> (r: GitCommand)
    ensures
        r@.subcommand == "status"@,
        r@.default_args == seq!["--porcelain"@],
        r@.user_args == Seq::<Seq<char>>::empty(),
{
    let mut defaults: Vec<String> = Vec::new();
    defaults.push("--porcelain".to_owned());
    proof {
        assert(defaults.deep_view() =~= seq!["--porcelain"@]);
    }
    GitCommand::new("status").with_default_args(defaults)
}

} // verus!
