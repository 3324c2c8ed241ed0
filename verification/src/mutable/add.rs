//! The staging verbs.  The guarded ones refuse to run when files are
//! already staged; their forced twins skip that check by design and proceed
//! directly to the staging step.

use vstd::prelude::*;
use crate::composite::CompositeSpec;
use crate::git::clone_args;
use crate::git::push_arg;
use crate::git::spec_command;
use crate::git::GitCommand;
use crate::outcome::GitFailure;
use crate::outcome::Precondition;

verus! {

/// The staging step `git add --all`, then the summary `git status --short`,
/// guarded or not as the verb asks.
fn add_all_then_status(guarded: bool) -> (r: CompositeSpec)
    ensures
        r.wf(),
        r.precondition == if guarded {
            Some(Precondition::StagingAreaEmpty)
        } else {
            None::<Precondition>
        },
        r.steps@.len() == 2,
        r.steps@[0]@ == spec_command(
            "add"@,
            seq!["--all"@],
            Seq::<Seq<char>>::empty(),
        ),
        r.steps@[1]@ == spec_command(
            "status"@,
            seq!["--short"@],
            Seq::<Seq<char>>::empty(),
        ),
{
    let mut add_defaults: Vec<String> = Vec::new();
    push_arg(&mut add_defaults, "--all");
    proof {
        assert(add_defaults.deep_view() =~= seq!["--all"@]);
    }
    let mut status_defaults: Vec<String> = Vec::new();
    push_arg(&mut status_defaults, "--short");
    proof {
        assert(status_defaults.deep_view() =~= seq!["--short"@]);
    }
    let mut steps: Vec<GitCommand> = Vec::new();
    steps.push(GitCommand::new("add").with_default_args(add_defaults));
    steps.push(GitCommand::new("status").with_default_args(status_defaults));
    let precondition = if guarded {
        Some(Precondition::StagingAreaEmpty)
    } else {
        None
    };
    CompositeSpec { precondition, steps }
}

/// The staging step `git add --update`, then the summary `git status
/// --short`, guarded or not as the verb asks.
fn add_updated_then_status(guarded: bool) -> (r: CompositeSpec)
    ensures
        r.wf(),
        r.precondition == if guarded {
            Some(Precondition::StagingAreaEmpty)
        } else {
            None::<Precondition>
        },
        r.steps@.len() == 2,
        r.steps@[0]@ == spec_command(
            "add"@,
            seq!["--update"@],
            Seq::<Seq<char>>::empty(),
        ),
        r.steps@[1]@ == spec_command(
            "status"@,
            seq!["--short"@],
            Seq::<Seq<char>>::empty(),
        ),
{
    let mut add_defaults: Vec<String> = Vec::new();
    push_arg(&mut add_defaults, "--update");
    proof {
        assert(add_defaults.deep_view() =~= seq!["--update"@]);
    }
    let mut status_defaults: Vec<String> = Vec::new();
    push_arg(&mut status_defaults, "--short");
    proof {
        assert(status_defaults.deep_view() =~= seq!["--short"@]);
    }
    let mut steps: Vec<GitCommand> = Vec::new();
    steps.push(GitCommand::new("add").with_default_args(add_defaults));
    steps.push(GitCommand::new("status").with_default_args(status_defaults));
    let precondition = if guarded {
        Some(Precondition::StagingAreaEmpty)
    } else {
        None
    };
    CompositeSpec { precondition, steps }
}

/// `git add ARGS`: a plain pass-through to the staging command.  With no
/// arguments there is nothing to stage and the input is rejected.
pub fn add(args: &Vec<String>) -> (r: Result<GitCommand, GitFailure>)
    ensures
        args@.len() == 0 <==> r is Err,
        r matches Err(f) ==> f == GitFailure::MissingArgument,
        r matches Ok(c) ==> c@ == spec_command(
            "add"@,
            Seq::<Seq<char>>::empty(),
            args.deep_view(),
        ),
{
    if args.len() == 0 {
        return Err(GitFailure::MissingArgument);
    }
    Ok(GitCommand::new("add").with_user_args(clone_args(args)))
}

/// `git add --all && git status --short`, refused when files are already
/// staged.
pub fn updated_and_untracked() -> (r: CompositeSpec)
    ensures
        r.wf(),
        r.precondition == Some(Precondition::StagingAreaEmpty),
        r.steps@.len() == 2,
        r.steps@[0]@ == spec_command("add"@, seq!["--all"@], Seq::<Seq<char>>::empty()),
        r.steps@[1]@ == spec_command("status"@, seq!["--short"@], Seq::<Seq<char>>::empty()),
{
    add_all_then_status(true)
}

/// `git add --all && git status --short`, with the staged-files check
/// deliberately skipped.
pub fn updated_and_untracked_forced() -> (r: CompositeSpec)
    ensures
        r.wf(),
        r.precondition is None,
        r.steps@.len() == 2,
        r.steps@[0]@ == spec_command("add"@, seq!["--all"@], Seq::<Seq<char>>::empty()),
        r.steps@[1]@ == spec_command("status"@, seq!["--short"@], Seq::<Seq<char>>::empty()),
{
    add_all_then_status(false)
}

/// `git add --update && git status --short`, refused when files are already
/// staged.
pub fn updated() -> (r: CompositeSpec)
    ensures
        r.wf(),
        r.precondition == Some(Precondition::StagingAreaEmpty),
        r.steps@.len() == 2,
        r.steps@[0]@ == spec_command("add"@, seq!["--update"@], Seq::<Seq<char>>::empty()),
        r.steps@[1]@ == spec_command("status"@, seq!["--short"@], Seq::<Seq<char>>::empty()),
{
    add_updated_then_status(true)
}

/// `git add --update && git status --short`, with the staged-files check
/// deliberately skipped.
pub fn updated_forced() -> (r: CompositeSpec)
    ensures
        r.wf(),
        r.precondition is None,
        r.steps@.len() == 2,
        r.steps@[0]@ == spec_command("add"@, seq!["--update"@], Seq::<Seq<char>>::empty()),
        r.steps@[1]@ == spec_command("status"@, seq!["--short"@], Seq::<Seq<char>>::empty()),
{
    add_updated_then_status(false)
}

} // verus!
