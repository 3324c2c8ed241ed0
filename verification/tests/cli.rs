//! The verb table and the whole-command-line resolution.

use git_util::cli::{Cli, CliOptions, Dispatch, HookSubcommands, Subcommands, WhichFiles};
use git_util::git::GitConfigOpts;
use git_util::outcome::{GitFailure, Precondition};

fn strings(words: &[&str]) -> Vec<String> {
    words.iter().map(|w| w.to_string()).collect()
}

fn options() -> CliOptions {
    CliOptions { verbose: 0, print_command: false, dry_run: false }
}

#[test]
fn add_all_substitutes_the_whole_tree_pathspec() {
    let verb = Subcommands::Add {
        which: Some(WhichFiles::All),
        args: strings(&["ignored.txt"]),
    };
    match verb.run() {
        Dispatch::Invoke(c) => {
            assert_eq!(c.subcommand, "add");
            // selecting "all" discards any path arguments
            assert_eq!(c.user_args, strings(&[":/"]));
        }
        _ => panic!("expected a single invocation"),
    }
}

#[test]
fn add_without_arguments_is_refused() {
    let verb = Subcommands::Add { which: None, args: Vec::new() };
    assert!(matches!(verb.run(), Dispatch::Refuse(GitFailure::MissingArgument)));
}

#[test]
fn aac_resolves_to_the_guarded_stage_and_commit_composite() {
    match (Subcommands::Aac {}).run() {
        Dispatch::Composite(c) => {
            assert_eq!(c.precondition, Some(Precondition::StagingAreaEmpty));
            assert_eq!(c.steps.len(), 2);
            assert_eq!(c.steps[0].subcommand, "add");
            assert_eq!(c.steps[0].default_args, strings(&["--all"]));
            assert_eq!(c.steps[1].subcommand, "commit");
            assert!(c.steps[1].default_args.is_empty());
        }
        _ => panic!("expected a composite"),
    }
}

#[test]
fn aaf_resolves_to_the_forced_variant() {
    match (Subcommands::Aaf {}).run() {
        Dispatch::Composite(c) => {
            assert_eq!(c.precondition, None);
            assert_eq!(c.steps[0].default_args, strings(&["--all"]));
        }
        _ => panic!("expected a composite"),
    }
}

#[test]
fn alias_and_conf_resolve_to_pipelines() {
    let alias = Subcommands::Alias {
        filter: Some("co".to_string()),
        options: GitConfigOpts { show_origin: false, show_scope: false },
    };
    match alias.run() {
        Dispatch::Pipeline(stages) => assert_eq!(stages.len(), 5),
        _ => panic!("expected a pipeline"),
    }

    let conf = Subcommands::Conf {
        filter: None,
        options: GitConfigOpts { show_origin: false, show_scope: false },
    };
    match conf.run() {
        Dispatch::Pipeline(stages) => assert_eq!(stages.len(), 3),
        _ => panic!("expected a pipeline"),
    }
}

#[test]
fn undo_with_count_resolves_to_the_exact_reset() {
    match (Subcommands::Undo { num: Some(2) }).run() {
        Dispatch::Invoke(c) => {
            assert_eq!(c.subcommand, "reset");
            assert_eq!(c.default_args, strings(&["--mixed", "HEAD~2"]));
        }
        _ => panic!("expected a single invocation"),
    }
}

#[test]
fn hook_verbs_resolve_to_the_policy_engine() {
    let verb = Subcommands::Hook { hook: HookSubcommands::PreCommit {} };
    assert!(matches!(verb.run(), Dispatch::Hook));
    assert!(matches!(HookSubcommands::PreCommit {}.run(), Dispatch::Hook));
}

#[test]
fn unstage_all_discards_paths_for_the_whole_tree_pathspec() {
    let verb = Subcommands::Unstage {
        which: Some(WhichFiles::All),
        args: strings(&["kept-out.txt"]),
    };
    match verb.run() {
        Dispatch::Invoke(c) => {
            assert_eq!(c.default_args, strings(&["--staged", ":/"]));
            assert!(c.user_args.is_empty());
        }
        _ => panic!("expected a single invocation"),
    }
}

#[test]
fn cm_passes_message_and_extra_arguments() {
    let verb = Subcommands::Cm {
        message: "feat: thing".to_string(),
        args: Some(strings(&["--no-verify"])),
    };
    match verb.run() {
        Dispatch::Composite(c) => {
            assert_eq!(c.precondition, Some(Precondition::NoUnstagedChanges));
            assert_eq!(c.steps[0].default_args, strings(&["-m", "feat: thing"]));
            assert_eq!(c.steps[0].user_args, strings(&["--no-verify"]));
        }
        _ => panic!("expected a composite"),
    }
}

#[test]
fn fallback_wins_over_nothing_and_forwards_untouched() {
    let cli = Cli {
        options: options(),
        fallback: Some(strings(&["stash", "pop"])),
        subcommand: None,
    };
    match cli.run_subcommand() {
        Dispatch::Invoke(c) => {
            assert_eq!(c.subcommand, "stash");
            assert_eq!(c.user_args, strings(&["pop"]));
        }
        _ => panic!("expected a single invocation"),
    }
}

#[test]
fn an_empty_command_line_is_refused() {
    let cli = Cli { options: options(), fallback: None, subcommand: None };
    assert!(matches!(cli.run_subcommand(), Dispatch::Refuse(GitFailure::MissingArgument)));
}

#[test]
fn subcommand_runs_through_the_verb_table() {
    let cli = Cli {
        options: options(),
        fallback: None,
        subcommand: Some(Subcommands::Files { num: None }),
    };
    match cli.run_subcommand() {
        Dispatch::Invoke(c) => {
            assert_eq!(c.subcommand, "show");
            assert_eq!(c.default_args, strings(&["--pretty=", "--name-only", "--max-count=1"]));
        }
        _ => panic!("expected a single invocation"),
    }
}

#[test]
fn options_select_the_execution_context() {
    let opts = CliOptions { verbose: 2, print_command: true, dry_run: false };
    let ctx = opts.context(true);
    assert!(!ctx.dry_run);
    assert!(ctx.print_commands);
    assert!(ctx.stdout_is_terminal);
}
