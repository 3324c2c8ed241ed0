//! The invocation model: argument assembly, color forcing, dry runs and the
//! counted-verb helper.

use git_util::git::{plan_invocation, conclude_invocation, ExecContext, Git, GitCommand,
    GitConfigOpts, InvocationPlan};
use git_util::helpers::{parse_for_max_count_and_execute, DefaultMaxCount};
use git_util::outcome::{GitCommandResult, GitFailure};

fn strings(words: &[&str]) -> Vec<String> {
    words.iter().map(|w| w.to_string()) .collect()
}

fn ctx(dry_run: bool, print_commands: bool, stdout_is_terminal: bool) -> ExecContext {
    ExecContext { dry_run, print_commands, stdout_is_terminal }
}

#[test]
fn assembly_keeps_subcommand_defaults_users_in_order() {
    let cmd = GitCommand::new("log")
        .with_default_args(strings(&["--compact-summary", "--max-count=1"]))
        .with_user_args(strings(&["--stat", "HEAD"]));
    match plan_invocation(&cmd, ctx(false, false, false)) {
        InvocationPlan::Execute { args, echo } => {
            assert_eq!(
                args,
                strings(&["log", "--compact-summary", "--max-count=1", "--stat", "HEAD"])
            );
            assert!(!echo);
        }
        InvocationPlan::DryRun { .. } => panic!("not a dry run"),
    }
}

#[test]
fn assembly_with_empty_argument_lists() {
    let cmd = GitCommand::new("status");
    match plan_invocation(&cmd, ctx(false, false, false)) {
        InvocationPlan::Execute { args, .. } => assert_eq!(args, strings(&["status"])),
        InvocationPlan::DryRun { .. } => panic!("not a dry run"),
    }
}

#[test]
fn color_flags_appear_exactly_when_stdout_is_a_terminal() {
    let cmd = GitCommand::new("show").with_user_args(strings(&["HEAD"]));
    match plan_invocation(&cmd, ctx(false, false, true)) {
        InvocationPlan::Execute { args, .. } => {
            assert_eq!(args, strings(&["-c", "color.ui=always", "show", "HEAD"]));
        }
        InvocationPlan::DryRun { .. } => panic!("not a dry run"),
    }
    match plan_invocation(&cmd, ctx(false, false, false)) {
        InvocationPlan::Execute { args, .. } => {
            assert_eq!(args, strings(&["show", "HEAD"]));
            assert!(!args.contains(&"color.ui=always".to_string()));
        }
        InvocationPlan::DryRun { .. } => panic!("not a dry run"),
    }
}

#[test]
fn print_command_mode_echoes_before_running() {
    let cmd = GitCommand::new("status");
    match plan_invocation(&cmd, ctx(false, true, false)) {
        InvocationPlan::Execute { echo, .. } => assert!(echo),
        InvocationPlan::DryRun { .. } => panic!("not a dry run"),
    }
}

#[test]
fn dry_run_never_spawns_and_always_succeeds() {
    let cmd = GitCommand::new("reset").with_default_args(strings(&["--mixed", "HEAD~1"]));
    let plan = plan_invocation(&cmd, ctx(true, false, true));
    match &plan {
        InvocationPlan::DryRun { args } => {
            assert_eq!(
                args,
                &strings(&["-c", "color.ui=always", "reset", "--mixed", "HEAD~1"])
            );
        }
        InvocationPlan::Execute { .. } => panic!("a dry run must not spawn"),
    }
    assert_eq!(conclude_invocation(&plan, None), GitCommandResult::Success);
}

#[test]
fn executed_outcome_follows_exit_status() {
    let cmd = GitCommand::new("status");
    let plan = plan_invocation(&cmd, ctx(false, false, false));
    assert_eq!(conclude_invocation(&plan, Some(true)), GitCommandResult::Success);
    assert_eq!(conclude_invocation(&plan, Some(false)), GitCommandResult::Error);
}

#[test]
fn pass_through_forwards_everything_after_the_subcommand() {
    let cmd = Git::pass_through(&strings(&["branch", "-a", "--color"])).unwrap();
    assert_eq!(cmd.subcommand, "branch");
    assert!(cmd.default_args.is_empty());
    assert_eq!(cmd.user_args, strings(&["-a", "--color"]));
}

#[test]
fn pass_through_refuses_an_empty_command_line() {
    let r = Git::pass_through(&Vec::new());
    assert!(matches!(r, Err(GitFailure::MissingArgument)));
}

#[test]
fn config_options_keep_origin_before_scope() {
    let mut args = strings(&["config"]);
    Git::parse_config_options(
        GitConfigOpts { show_origin: true, show_scope: true },
        &mut args,
    );
    assert_eq!(args, strings(&["config", "--show-origin", "--show-scope"]));

    let mut none = strings(&["config"]);
    Git::parse_config_options(
        GitConfigOpts { show_origin: false, show_scope: false },
        &mut none,
    );
    assert_eq!(none, strings(&["config"]));

    let mut scope_only = Vec::new();
    Git::parse_config_options(
        GitConfigOpts { show_origin: false, show_scope: true },
        &mut scope_only,
    );
    assert_eq!(scope_only, strings(&["--show-scope"]));
}

#[test]
fn max_count_defaults_when_no_user_argument() {
    let cmd = GitCommand::new("log").with_default_args(strings(&["--compact-summary"]));
    let resolved = parse_for_max_count_and_execute(cmd, DefaultMaxCount(10));
    assert_eq!(resolved.subcommand, "log");
    assert_eq!(resolved.default_args, strings(&["--compact-summary", "--max-count=10"]));
    assert!(resolved.user_args.is_empty());
}

#[test]
fn max_count_consumes_a_leading_count() {
    let cmd = GitCommand::new("log").with_user_args(strings(&["7", "--stat"]));
    let resolved = parse_for_max_count_and_execute(cmd, DefaultMaxCount(1));
    assert_eq!(resolved.default_args, strings(&["--max-count=7"]));
    assert_eq!(resolved.user_args, strings(&["--stat"]));
}

#[test]
fn max_count_keeps_an_unparsable_first_argument() {
    let cmd = GitCommand::new("log").with_user_args(strings(&["--stat"]));
    let resolved = parse_for_max_count_and_execute(cmd, DefaultMaxCount(2));
    assert_eq!(resolved.default_args, strings(&["--max-count=2"]));
    assert_eq!(resolved.user_args, strings(&["--stat"]));
}

#[test]
fn max_count_rejects_an_overflowing_count() {
    // 300 does not fit the count's type, so it stays a user argument
    let cmd = GitCommand::new("log").with_user_args(strings(&["300"]));
    let resolved = parse_for_max_count_and_execute(cmd, DefaultMaxCount(1));
    assert_eq!(resolved.default_args, strings(&["--max-count=1"]));
    assert_eq!(resolved.user_args, strings(&["300"]));
}

#[test]
fn max_count_accepts_a_signed_and_padded_count() {
    let cmd = GitCommand::new("log").with_user_args(strings(&["+007"]));
    let resolved = parse_for_max_count_and_execute(cmd, DefaultMaxCount(1));
    assert_eq!(resolved.default_args, strings(&["--max-count=7"]));
    assert!(resolved.user_args.is_empty());
}
