//! The restore and unstage verbs.  Each "all files" variant substitutes the
//! magic whole-tree path-spec as the sole default argument instead of
//! forwarding caller paths; an explicit file list and "all" are mutually
//! exclusive by construction.

use vstd::prelude::*;
use crate::git::clone_args;
use crate::git::push_arg;
use crate::git::spec_command;
use crate::git::GitCommand;
use crate::outcome::GitFailure;

verus! {

/// `git restore ARGS`: a plain pass-through to the restore command.
pub fn restore(args: &Vec<String>) -> (r: GitCommand)
    ensures
        r@ == spec_command("restore"@, Seq::<Seq<char>>::empty(), args.deep_view()),
{
    GitCommand::new("restore").with_user_args(clone_args(args))
}

/// `git restore :/`: restores every file of the tree.
pub fn restore_all() -> (r: GitCommand)
    ensures
        r@ == spec_command("restore"@, seq![":/"@], Seq::<Seq<char>>::empty()),
{
    let mut defaults: Vec<String> = Vec::new();
    push_arg(&mut defaults, ":/");
    proof {
        assert(defaults.deep_view() =~= seq![":/"@]);
    }
    GitCommand::new("restore").with_default_args(defaults)
}

/// `git restore --staged ARGS`: moves the named staged files back out of the
/// staging area.  With no arguments there is nothing to unstage and the
/// input is rejected.
pub fn unstage(args: &Vec<String>) -> (r: Result<GitCommand, GitFailure>)
    ensures
        args@.len() == 0 <==> r is Err,
        r matches Err(f) ==> f == GitFailure::MissingArgument,
        r matches Ok(c) ==> c@ == spec_command("restore"@, seq!["--staged"@], args.deep_view()),
{
    if args.len() == 0 {
        return Err(GitFailure::MissingArgument);
    }
    let mut defaults: Vec<String> = Vec::new();
    push_arg(&mut defaults, "--staged");
    proof {
        assert(defaults.deep_view() =~= seq!["--staged"@]);
    }
    Ok(GitCommand::new("restore").with_default_args(defaults).with_user_args(clone_args(args)))
}

/// `git restore --staged :/`: unstages every staged file.
pub fn unstage_all() -> (r: GitCommand)
    ensures
        r@ == spec_command("restore"@, seq!["--staged"@, ":/"@], Seq::<Seq<char>>::empty()),
{
    let mut defaults: Vec<String> = Vec::new();
    push_arg(&mut defaults, "--staged");
    push_arg(&mut defaults, ":/");
    proof {
        assert(defaults.deep_view() =~= seq!["--staged"@, ":/"@]);
    }
    GitCommand::new("restore").with_default_args(defaults)
}

} // verus!
