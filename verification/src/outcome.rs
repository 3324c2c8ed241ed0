//! Outcomes and failures of running a verb.
//!
//! `GitCommandResult` mirrors the exit status of the external process: it is
//! a normal, expected branch, not an exceptional condition.  `GitFailure` is
//! the richer error raised before or instead of process execution
//! (precondition violated, spawn failure, policy violation).

use vstd::prelude::*;

verus! {

/// The outcome of running a git command, derived solely from the external
/// process's exit status: code 0 means `Success`, anything else `Error`.
#[derive(Debug, PartialEq, Eq, Clone, Copy, Structural)]
pub enum GitCommandResult {
    Success,
    Error,
}

impl GitCommandResult {
    /// Maps an exit status to an outcome: success of the process if and only
    /// if `Success`.
    pub fn from_exit_ok(exit_ok: bool) -> (r: GitCommandResult)
        ensures
            r == GitCommandResult::Success <==> exit_ok,
    {
        if exit_ok {
            GitCommandResult::Success
        } else {
            GitCommandResult::Error
        }
    }
}

/// A precondition that guards a multi-step verb before its first step runs.
#[derive(Debug, PartialEq, Eq, Clone, Copy, Structural)]
pub enum Precondition {
    /// `git diff --staged --name-only` must print nothing.
    StagingAreaEmpty,
    /// `git status --porcelain` must show no unstaged or untracked entries.
    NoUnstagedChanges,
}

/// A policy-relevant value read from the process environment.
#[derive(Debug, PartialEq, Eq, Clone, Copy, Structural)]
pub enum PolicyVar {
    /// The one author email commits are allowed to carry.
    AllowedEmail,
    /// The author email of the commit in progress, as git exposes it.
    AuthorEmail,
    /// The optional delimiter-separated list of disallowed substrings.
    DisallowedStrings,
}

/// An operation failure: raised before or instead of process execution, as
/// opposed to `GitCommandResult::Error`, which reports a process that ran and
/// exited nonzero.
#[derive(Debug)]
pub enum GitFailure {
    /// A required argument (paths to operate on, a branch name) was missing.
    MissingArgument,
    /// A guarded verb refused to start: its precondition check reported
    /// `Error` (for example, there are already staged files).
    PreconditionFailed { check: Precondition },
    /// A non-final step of a multi-step verb (numbered from zero) reported
    /// `Error`, so the remaining steps were never run.
    StepFailed { step: usize },
    /// An external process could not be spawned at all.
    SpawnFailed,
    /// A stage of a filter pipeline (numbered from zero) failed to spawn.
    PipelineStage { stage: usize },
    /// A policy configuration value was missing or unreadable.
    PolicyConfig { var: PolicyVar, missing: bool },
    /// The commit author email does not match the allowed one.
    IdentityMismatch { expected: Vec<u8>, actual: Vec<u8> },
    /// An added line of the staged diff contains a disallowed substring.
    DisallowedContent { line: Vec<u8> },
}

} // verus!
