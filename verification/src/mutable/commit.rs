//! The committing verbs: stage-and-commit composites, amend variants, the
//! commit-with-message verb, author reset and undo.  The guarded composites
//! refuse to run when files are already staged; commit-with-message instead
//! demands a worktree with no unstaged changes.

use vstd::prelude::*;
use vstd::string::StringExecFns;
use crate::composite::CompositeSpec;
use crate::git::clone_args;
use crate::git::push_arg;
use crate::git::spec_command;
use crate::git::GitCommand;
use crate::numbers::count_or_default;
use crate::numbers::dec_rep;
use crate::numbers::u16_to_string;
use crate::outcome::Precondition;

verus! {

/// The relative reference `HEAD~N`.
pub open spec fn head_ref_spec(n: nat) -> Seq<char> {
    "HEAD~"@ + dec_rep(n)
}

/// Renders the relative reference `HEAD~N`.
pub fn head_ref(n: u16) -> (r: String)
    ensures
        r@ == head_ref_spec(n as nat),
{
    let mut r = "HEAD~".to_owned();
    let digits = u16_to_string(n);
    r.append(digits.as_str());
    r
}

/// The staging step `git add --all`, then the terminal commit step,
/// amending or not, guarded by the empty-staging-area check.
fn add_all_then_commit(amend: bool) -> (r: CompositeSpec)
    ensures
        r.wf(),
        r.precondition == Some(Precondition::StagingAreaEmpty),
        r.steps@.len() == 2,
        r.steps@[0]@ == spec_command("add"@, seq!["--all"@], Seq::<Seq<char>>::empty()),
        r.steps@[1]@ == spec_command(
            "commit"@,
            if amend {
                seq!["--amend"@]
            } else {
                Seq::<Seq<char>>::empty()
            },
            Seq::<Seq<char>>::empty(),
        ),
{
    let mut add_defaults: Vec<String> = Vec::new();
    push_arg(&mut add_defaults, "--all");
    proof {
        assert(add_defaults.deep_view() =~= seq!["--all"@]);
    }
    let commit_step = if amend {
        let mut commit_defaults: Vec<String> = Vec::new();
        push_arg(&mut commit_defaults, "--amend");
        proof {
            assert(commit_defaults.deep_view() =~= seq!["--amend"@]);
        }
        GitCommand::new("commit").with_default_args(commit_defaults)
    } else {
        GitCommand::new("commit")
    };
    let mut steps: Vec<GitCommand> = Vec::new();
    steps.push(GitCommand::new("add").with_default_args(add_defaults));
    steps.push(commit_step);
    CompositeSpec { precondition: Some(Precondition::StagingAreaEmpty), steps }
}

/// `git add --all && git commit`, refused when files are already staged.
pub fn updated_and_untracked() -> (r: CompositeSpec)
    ensures
        r.wf(),
        r.precondition == Some(Precondition::StagingAreaEmpty),
        r.steps@.len() == 2,
        r.steps@[0]@ == spec_command("add"@, seq!["--all"@], Seq::<Seq<char>>::empty()),
        r.steps@[1]@ == spec_command(
            "commit"@,
            Seq::<Seq<char>>::empty(),
            Seq::<Seq<char>>::empty(),
        ),
{
    add_all_then_commit(false)
}

/// `git add --all && git commit --amend`, refused when files are already
/// staged.
pub fn amend_updated_and_untracked() -> (r: CompositeSpec)
    ensures
        r.wf(),
        r.precondition == Some(Precondition::StagingAreaEmpty),
        r.steps@.len() == 2,
        r.steps@[0]@ == spec_command("add"@, seq!["--all"@], Seq::<Seq<char>>::empty()),
        r.steps@[1]@ == spec_command(
            "commit"@,
            seq!["--amend"@],
            Seq::<Seq<char>>::empty(),
        ),
{
    add_all_then_commit(true)
}

/// `git commit --all`, refused when files are already staged.  One single
/// command rather than an add-then-commit pair, so that cancelling out of
/// the commit leaves the staging area untouched.
pub fn updated() -> (r: CompositeSpec)
    ensures
        r.wf(),
        r.precondition == Some(Precondition::StagingAreaEmpty),
        r.steps@.len() == 1,
        r.steps@[0]@ == spec_command("commit"@, seq!["--all"@], Seq::<Seq<char>>::empty()),
{
    let mut defaults: Vec<String> = Vec::new();
    push_arg(&mut defaults, "--all");
    proof {
        assert(defaults.deep_view() =~= seq!["--all"@]);
    }
    crate::mutable::run_if_staging_empty(GitCommand::new("commit").with_default_args(defaults))
}

/// `git commit --all --amend`, refused when files are already staged.
pub fn amend_updated() -> (r: CompositeSpec)
    ensures
        r.wf(),
        r.precondition == Some(Precondition::StagingAreaEmpty),
        r.steps@.len() == 1,
        r.steps@[0]@ == spec_command(
            "commit"@,
            seq!["--all"@, "--amend"@],
            Seq::<Seq<char>>::empty(),
        ),
{
    let mut defaults: Vec<String> = Vec::new();
    push_arg(&mut defaults, "--all");
    push_arg(&mut defaults, "--amend");
    proof {
        assert(defaults.deep_view() =~= seq!["--all"@, "--amend"@]);
    }
    crate::mutable::run_if_staging_empty(GitCommand::new("commit").with_default_args(defaults))
}

/// `git commit -m MESSAGE ARGS`, refused when the worktree holds unstaged
/// changes.  The staging area itself may be empty, so the verb stays usable
/// with flags such as `--allow-empty`.
pub fn with_message(message: &String, args: &Vec<String>) -> (r: CompositeSpec)
    ensures
        r.wf(),
        r.precondition == Some(Precondition::NoUnstagedChanges),
        r.steps@.len() == 1,
        r.steps@[0]@ == spec_command("commit"@, seq!["-m"@, message@], args.deep_view()),
{
    let mut defaults: Vec<String> = Vec::new();
    push_arg(&mut defaults, "-m");
    crate::git::push_arg_string(&mut defaults, message.clone());
    proof {
        assert(defaults.deep_view() =~= seq!["-m"@, message@]);
    }
    let command = GitCommand::new("commit").with_default_args(defaults).with_user_args(
        clone_args(args),
    );
    let mut steps: Vec<GitCommand> = Vec::new();
    steps.push(command);
    CompositeSpec { precondition: Some(Precondition::NoUnstagedChanges), steps }
}

/// `git rebase HEAD~N -x 'git commit --amend --no-edit --reset-author'`:
/// resets the author of the last N commits to the configured user, N
/// defaulting to one.
pub fn change_author(num: Option<u16>) -> (r: GitCommand)
    ensures
        r@ == spec_command(
            "rebase"@,
            seq![
                head_ref_spec(count_or_default(num, 1)),
                "-x"@,
                "git commit --amend --no-edit --reset-author"@,
            ],
            Seq::<Seq<char>>::empty(),
        ),
{
    let n: u16 = match num {
        Some(n) => n,
        None => 1,
    };
    let mut defaults: Vec<String> = Vec::new();
    crate::git::push_arg_string(&mut defaults, head_ref(n));
    push_arg(&mut defaults, "-x");
    push_arg(&mut defaults, "git commit --amend --no-edit --reset-author");
    proof {
        assert(defaults.deep_view() =~= seq![
            head_ref_spec(count_or_default(num, 1)),
            "-x"@,
            "git commit --amend --no-edit --reset-author"@,
        ]);
    }
    GitCommand::new("rebase").with_default_args(defaults)
}

/// `git reset --mixed HEAD~N`: undoes the last N commits but keeps their
/// changes in the working directory, N defaulting to one.
pub fn undo(num: Option<u16>) -> (r: GitCommand)
    ensures
        r@ == spec_command(
            "reset"@,
            seq!["--mixed"@, head_ref_spec(count_or_default(num, 1))],
            Seq::<Seq<char>>::empty(),
        ),
{
    let n: u16 = match num {
        Some(n) => n,
        None => 1,
    };
    let mut defaults: Vec<String> = Vec::new();
    push_arg(&mut defaults, "--mixed");
    crate::git::push_arg_string(&mut defaults, head_ref(n));
    proof {
        assert(defaults.deep_view() =~= seq![
            "--mixed"@,
            head_ref_spec(count_or_default(num, 1)),
        ]);
    }
    GitCommand::new("reset").with_default_args(defaults)
}

} // verus!
