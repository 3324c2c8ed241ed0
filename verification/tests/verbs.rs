//! The verb constructors: exact argument vectors, numeric-count defaults,
//! and the inputs each verb refuses.

use git_util::immutable::ImmutableCommands;
use git_util::mutable::{commit, index, update_branch_from_remote};
use git_util::mutable::add;
use git_util::outcome::{GitFailure, Precondition};

fn strings(words: &[&str]) -> Vec<String> {
    words.iter().map(|w| w.to_string()).collect()
}

#[test]
fn undo_defaults_to_one_commit() {
    let cmd = commit::undo(None);
    assert_eq!(cmd.subcommand, "reset");
    assert_eq!(cmd.default_args, strings(&["--mixed", "HEAD~1"]));
    assert!(cmd.user_args.is_empty());
}

#[test]
fn undo_reflects_an_explicit_count() {
    let cmd = commit::undo(Some(12));
    assert_eq!(cmd.default_args, strings(&["--mixed", "HEAD~12"]));
}

#[test]
fn author_reset_defaults_to_one_commit() {
    let cmd = commit::change_author(None);
    assert_eq!(cmd.subcommand, "rebase");
    assert_eq!(
        cmd.default_args,
        strings(&["HEAD~1", "-x", "git commit --amend --no-edit --reset-author"])
    );
}

#[test]
fn author_reset_reflects_an_explicit_count() {
    let cmd = commit::change_author(Some(3));
    assert_eq!(cmd.default_args[0], "HEAD~3");
}

#[test]
fn show_defaults_to_one_commit() {
    let cmd = ImmutableCommands::show(None, &Vec::new());
    assert_eq!(cmd.subcommand, "show");
    assert_eq!(cmd.default_args, strings(&["--expand-tabs=4", "--max-count=1"]));
}

#[test]
fn show_reflects_an_explicit_count_and_keeps_arguments() {
    let cmd = ImmutableCommands::show(Some(4), &strings(&["--stat"]));
    assert_eq!(cmd.default_args, strings(&["--expand-tabs=4", "--max-count=4"]));
    assert_eq!(cmd.user_args, strings(&["--stat"]));
}

#[test]
fn show_files_lists_names_only() {
    let cmd = ImmutableCommands::show_files(Some(2));
    assert_eq!(cmd.subcommand, "show");
    assert_eq!(cmd.default_args, strings(&["--pretty=", "--name-only", "--max-count=2"]));
    assert!(cmd.user_args.is_empty());
}

#[test]
fn compact_summary_log_defaults_to_one() {
    let cmd = ImmutableCommands::compact_summary_log(None, &Vec::new());
    assert_eq!(cmd.subcommand, "log");
    assert_eq!(cmd.default_args, strings(&["--compact-summary", "--max-count=1"]));
}

#[test]
fn one_line_log_defaults_to_twenty_five() {
    let cmd = ImmutableCommands::one_line_log(None, &Vec::new());
    assert_eq!(cmd.subcommand, "log");
    assert_eq!(cmd.default_args.len(), 2);
    assert!(cmd.default_args[0].starts_with("--pretty="));
    assert_eq!(cmd.default_args[1], "--max-count=25");
}

#[test]
fn one_line_log_output_loses_its_wrapping_quotes() {
    let rendered = ImmutableCommands::trim_quoted_log_lines(
        b"'abc123 2024-01-01 ab subject'\n'def456 2024-01-02 cd other'\n",
    );
    assert_eq!(rendered.len(), 2);
    assert_eq!(rendered[0], b"abc123 2024-01-01 ab subject".to_vec());
    assert_eq!(rendered[1], b"def456 2024-01-02 cd other".to_vec());
}

#[test]
fn add_forwards_its_arguments_and_refuses_none() {
    let cmd = add::add(&strings(&["src/lib.rs", "src/git.rs"])).unwrap();
    assert_eq!(cmd.subcommand, "add");
    assert!(cmd.default_args.is_empty());
    assert_eq!(cmd.user_args, strings(&["src/lib.rs", "src/git.rs"]));

    assert!(matches!(add::add(&Vec::new()), Err(GitFailure::MissingArgument)));
}

#[test]
fn restore_variants() {
    let named = index::restore(&strings(&["a.txt"]));
    assert_eq!(named.subcommand, "restore");
    assert!(named.default_args.is_empty());
    assert_eq!(named.user_args, strings(&["a.txt"]));

    let all = index::restore_all();
    assert_eq!(all.default_args, strings(&[":/"]));
    assert!(all.user_args.is_empty());
}

#[test]
fn unstage_variants() {
    let named = index::unstage(&strings(&["a.txt", "b.txt"])).unwrap();
    assert_eq!(named.subcommand, "restore");
    assert_eq!(named.default_args, strings(&["--staged"]));
    assert_eq!(named.user_args, strings(&["a.txt", "b.txt"]));

    assert!(matches!(index::unstage(&Vec::new()), Err(GitFailure::MissingArgument)));

    let all = index::unstage_all();
    assert_eq!(all.default_args, strings(&["--staged", ":/"]));
}

#[test]
fn update_builds_the_refspec_and_refuses_an_empty_branch() {
    let cmd = update_branch_from_remote(&"main".to_string()).unwrap();
    assert_eq!(cmd.subcommand, "fetch");
    assert_eq!(cmd.default_args, strings(&["--verbose", "origin"]));
    assert_eq!(cmd.user_args, strings(&["main:main"]));

    assert!(matches!(
        update_branch_from_remote(&String::new()),
        Err(GitFailure::MissingArgument)
    ));
}

#[test]
fn commit_with_message_is_guarded_by_the_worktree_check() {
    let verb = commit::with_message(&"fix: a thing".to_string(), &strings(&["--allow-empty"]));
    assert_eq!(verb.precondition, Some(Precondition::NoUnstagedChanges));
    assert_eq!(verb.steps.len(), 1);
    assert_eq!(verb.steps[0].subcommand, "commit");
    assert_eq!(verb.steps[0].default_args, strings(&["-m", "fix: a thing"]));
    assert_eq!(verb.steps[0].user_args, strings(&["--allow-empty"]));
}

#[test]
fn amend_variants_carry_the_amend_flag() {
    let aamend = commit::amend_updated_and_untracked();
    assert_eq!(aamend.steps[1].default_args, strings(&["--amend"]));

    let aumend = commit::amend_updated();
    assert_eq!(aumend.steps[0].default_args, strings(&["--all", "--amend"]));
    assert_eq!(aumend.precondition, Some(Precondition::StagingAreaEmpty));
}
