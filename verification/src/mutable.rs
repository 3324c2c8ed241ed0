//! The verbs that change repository state: staging, committing, restoring
//! and fetching.  Multi-step verbs come back as `CompositeSpec` values for
//! the composite runner; single-step verbs come back as the invocation
//! itself.

use vstd::prelude::*;
use vstd::string::StringExecFns;
use crate::composite::CompositeSpec;
use crate::git::push_arg;
use crate::git::spec_command;
use crate::git::GitCommand;
use crate::outcome::GitFailure;
use crate::outcome::Precondition;

pub mod add;
pub mod commit;
pub mod index;

verus! {

/// `git fetch --verbose origin BRANCH:BRANCH`: updates the named local
/// branch from its remote counterpart without checking it out.  An empty
/// branch name is rejected before anything runs.
pub fn update_branch_from_remote(branch: &String) -> (r: Result<GitCommand, GitFailure>)
    ensures
        branch@.len() == 0 <==> r is Err,
        r matches Err(f) ==> f == GitFailure::MissingArgument,
        r matches Ok(c) ==> c@ == spec_command(
            "fetch"@,
            seq!["--verbose"@, "origin"@],
            seq![branch@ + ":"@ + branch@],
        ),
{
    if branch.as_str().is_empty() {
        return Err(GitFailure::MissingArgument);
    }
    let mut defaults: Vec<String> = Vec::new();
    push_arg(&mut defaults, "--verbose");
    push_arg(&mut defaults, "origin");
    let mut refspec = branch.clone();
    refspec.append(":");
    refspec.append(branch.as_str());
    let mut users: Vec<String> = Vec::new();
    crate::git::push_arg_string(&mut users, refspec);
    proof {
        assert(defaults.deep_view() =~= seq!["--verbose"@, "origin"@]);
        assert(users.deep_view() =~= seq![branch@ + ":"@ + branch@]);
    }
    Ok(GitCommand::new("fetch").with_default_args(defaults).with_user_args(users))
}

/// Guards a single invocation with the empty-staging-area check: the command
/// runs only if nothing is staged yet.
pub fn run_if_staging_empty(command: GitCommand) -> (r: CompositeSpec)
    ensures
        r.wf(),
        r.precondition == Some(Precondition::StagingAreaEmpty),
        r.steps@.len() == 1,
        r.steps@[0] == command,
{
    let mut steps: Vec<GitCommand> = Vec::new();
    steps.push(command);
    CompositeSpec { precondition: Some(Precondition::StagingAreaEmpty), steps }
}

} // verus!
