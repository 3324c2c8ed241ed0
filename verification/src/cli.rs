//! The verb table: each user-selected subcommand maps to one of the
//! primitives — a single invocation, a composite run, a filter pipeline, or
//! the pre-commit policy check.  `dispatches` is the table as a relation;
//! `Subcommands::run` is the verified lookup.

use vstd::prelude::*;
use crate::composite::CompositeSpec;
use crate::git::spec_command;
use crate::git::ExecContext;
use crate::git::Git;
use crate::git::GitCommand;
pub use crate::git::GitConfigOpts;
use crate::helpers::max_count_arg_spec;
use crate::immutable::one_line_pretty_spec;
use crate::immutable::ImmutableCommands;
use crate::mutable::commit::head_ref_spec;
use crate::numbers::count_or_default;
use crate::outcome::GitFailure;
use crate::outcome::Precondition;
use crate::pipeline::alias_pipeline_spec;
use crate::pipeline::config_pipeline_spec;
use crate::pipeline::PipelineStage;

verus! {

/// Selects the files a verb operates on.
#[derive(Debug, PartialEq, Eq, Clone, Copy, Structural)]
pub enum WhichFiles {
    All,
}

/// The hooks that can be called directly.
#[derive(Debug, PartialEq, Eq, Clone, Copy, Structural)]
pub enum HookSubcommands {
    /// The check run before a commit is allowed to finalize.
    PreCommit {},
}

/// The shorthand verbs this tool exposes.
pub enum Subcommands {
    /// Stage the named files, or everything.
    Add { which: Option<WhichFiles>, args: Vec<String> },
    /// Stage updated and untracked files; refuses a nonempty staging area.
    Aa {},
    /// Stage updated and untracked files, then commit.
    Aac {},
    /// Like `Aa`, but without the staged-files check.
    Aaf {},
    /// Stage updated and untracked files, then amend the previous commit.
    Aamend {},
    /// List the configured aliases.
    Alias { filter: Option<String>, options: GitConfigOpts },
    /// Stage updated (not untracked) files; refuses a nonempty staging area.
    Au {},
    /// Commit updated files; refuses a nonempty staging area.
    Auc {},
    /// Like `Au`, but without the staged-files check.
    Auf {},
    /// Commit updated files amending the previous commit.
    Aumend {},
    /// Reset the author of the last N commits.
    Author { num: Option<u16> },
    /// Commit with a message; refuses unstaged worktree changes.
    Cm { message: String, args: Option<Vec<String>> },
    /// List the configuration settings, aliases excluded.
    Conf { filter: Option<String>, options: GitConfigOpts },
    /// Call a git hook.
    Hook { hook: HookSubcommands },
    /// List the files the last N commits changed.
    Files { num: Option<u16> },
    /// One line of log per commit.
    L { num: Option<u16>, args: Vec<String> },
    /// Compact summary of the last N commits.
    Last { num: Option<u16>, args: Vec<String> },
    /// Restore the named files, or everything.
    Restore { which: Option<WhichFiles>, args: Vec<String> },
    /// Show the last N commits.
    Show { num: Option<u16>, args: Vec<String> },
    /// Undo the last N commits, keeping their changes.
    Undo { num: Option<u16> },
    /// Unstage the named files, or everything.
    Unstage { which: Option<WhichFiles>, args: Vec<String> },
    /// Update a local branch from its remote without checking it out.
    Update { branch: String },
}

/// What a verb resolves to: one invocation, a composite run, a pipeline,
/// the pre-commit policy check, or a refusal raised before anything runs.
pub enum Dispatch {
    Invoke(GitCommand),
    Composite(CompositeSpec),
    Pipeline(Vec<PipelineStage>),
    Hook,
    Refuse(GitFailure),
}

/// A guarded two-step composite: the staging step, then the summary or
/// terminal step.
pub open spec fn two_step_composite(
    c: CompositeSpec,
    guarded: bool,
    step0: crate::git::GitCommandView,
    step1: crate::git::GitCommandView,
) -> bool {
    &&& c.wf()
    &&& c.precondition == if guarded {
        Some(Precondition::StagingAreaEmpty)
    } else {
        None::<Precondition>
    }
    &&& c.steps@.len() == 2
    &&& c.steps@[0]@ == step0
    &&& c.steps@[1]@ == step1
}

/// A single-step composite behind a precondition check.
pub open spec fn guarded_single_step(
    c: CompositeSpec,
    check: Precondition,
    step0: crate::git::GitCommandView,
) -> bool {
    &&& c.wf()
    &&& c.precondition == Some(check)
    &&& c.steps@.len() == 1
    &&& c.steps@[0]@ == step0
}

/// The verb table: which primitive each subcommand resolves to, and with
/// exactly which invocations.
pub open spec fn dispatches(s: Subcommands, r: Dispatch) -> bool {
    match s {
        Subcommands::Add { which, args } => match which {
            Some(WhichFiles::All) => r matches Dispatch::Invoke(c) && c@ == spec_command(
                "add"@,
                Seq::<Seq<char>>::empty(),
                seq![":/"@],
            ),
            None => if args.deep_view().len() == 0 {
                r == Dispatch::Refuse(GitFailure::MissingArgument)
            } else {
                r matches Dispatch::Invoke(c) && c@ == spec_command(
                    "add"@,
                    Seq::<Seq<char>>::empty(),
                    args.deep_view(),
                )
            },
        },
        Subcommands::Aa {} => r matches Dispatch::Composite(c) && two_step_composite(
            c,
            true,
            spec_command("add"@, seq!["--all"@], Seq::<Seq<char>>::empty()),
            spec_command("status"@, seq!["--short"@], Seq::<Seq<char>>::empty()),
        ),
        Subcommands::Aac {} => r matches Dispatch::Composite(c) && two_step_composite(
            c,
            true,
            spec_command("add"@, seq!["--all"@], Seq::<Seq<char>>::empty()),
            spec_command("commit"@, Seq::<Seq<char>>::empty(), Seq::<Seq<char>>::empty()),
        ),
        Subcommands::Aaf {} => r matches Dispatch::Composite(c) && two_step_composite(
            c,
            false,
            spec_command("add"@, seq!["--all"@], Seq::<Seq<char>>::empty()),
            spec_command("status"@, seq!["--short"@], Seq::<Seq<char>>::empty()),
        ),
        Subcommands::Aamend {} => r matches Dispatch::Composite(c) && two_step_composite(
            c,
            true,
            spec_command("add"@, seq!["--all"@], Seq::<Seq<char>>::empty()),
            spec_command("commit"@, seq!["--amend"@], Seq::<Seq<char>>::empty()),
        ),
        Subcommands::Alias { filter, options } => r matches Dispatch::Pipeline(st)
            && st.deep_view() == alias_pipeline_spec(
            match filter {
                Some(f) => Some(f@),
                None => None,
            },
            options,
        ),
        Subcommands::Au {} => r matches Dispatch::Composite(c) && two_step_composite(
            c,
            true,
            spec_command("add"@, seq!["--update"@], Seq::<Seq<char>>::empty()),
            spec_command("status"@, seq!["--short"@], Seq::<Seq<char>>::empty()),
        ),
        Subcommands::Auc {} => r matches Dispatch::Composite(c) && guarded_single_step(
            c,
            Precondition::StagingAreaEmpty,
            spec_command("commit"@, seq!["--all"@], Seq::<Seq<char>>::empty()),
        ),
        Subcommands::Auf {} => r matches Dispatch::Composite(c) && two_step_composite(
            c,
            false,
            spec_command("add"@, seq!["--update"@], Seq::<Seq<char>>::empty()),
            spec_command("status"@, seq!["--short"@], Seq::<Seq<char>>::empty()),
        ),
        Subcommands::Aumend {} => r matches Dispatch::Composite(c) && guarded_single_step(
            c,
            Precondition::StagingAreaEmpty,
            spec_command("commit"@, seq!["--all"@, "--amend"@], Seq::<Seq<char>>::empty()),
        ),
        Subcommands::Author { num } => r matches Dispatch::Invoke(c) && c@ == spec_command(
            "rebase"@,
            seq![
                head_ref_spec(count_or_default(num, 1)),
                "-x"@,
                "git commit --amend --no-edit --reset-author"@,
            ],
            Seq::<Seq<char>>::empty(),
        ),
        Subcommands::Cm { message, args } => r matches Dispatch::Composite(c)
            && guarded_single_step(
            c,
            Precondition::NoUnstagedChanges,
            spec_command(
                "commit"@,
                seq!["-m"@, message@],
                match args {
                    Some(a) => a.deep_view(),
                    None => Seq::<Seq<char>>::empty(),
                },
            ),
        ),
        Subcommands::Conf { filter, options } => r matches Dispatch::Pipeline(st)
            && st.deep_view() == config_pipeline_spec(
            match filter {
                Some(f) => Some(f@),
                None => None,
            },
            options,
        ),
        Subcommands::Hook { .. } => r == Dispatch::Hook,
        Subcommands::Files { num } => r matches Dispatch::Invoke(c) && c@ == spec_command(
            "show"@,
            seq!["--pretty="@, "--name-only"@, max_count_arg_spec(count_or_default(num, 1))],
            Seq::<Seq<char>>::empty(),
        ),
        Subcommands::L { num, args } => r matches Dispatch::Invoke(c) && c@ == spec_command(
            "log"@,
            seq![one_line_pretty_spec(), max_count_arg_spec(count_or_default(num, 25))],
            args.deep_view(),
        ),
        Subcommands::Last { num, args } => r matches Dispatch::Invoke(c) && c@ == spec_command(
            "log"@,
            seq!["--compact-summary"@, max_count_arg_spec(count_or_default(num, 1))],
            args.deep_view(),
        ),
        Subcommands::Restore { which, args } => match which {
            Some(WhichFiles::All) => r matches Dispatch::Invoke(c) && c@ == spec_command(
                "restore"@,
                seq![":/"@],
                Seq::<Seq<char>>::empty(),
            ),
            None => r matches Dispatch::Invoke(c) && c@ == spec_command(
                "restore"@,
                Seq::<Seq<char>>::empty(),
                args.deep_view(),
            ),
        },
        Subcommands::Show { num, args } => r matches Dispatch::Invoke(c) && c@ == spec_command(
            "show"@,
            seq!["--expand-tabs=4"@, max_count_arg_spec(count_or_default(num, 1))],
            args.deep_view(),
        ),
        Subcommands::Undo { num } => r matches Dispatch::Invoke(c) && c@ == spec_command(
            "reset"@,
            seq!["--mixed"@, head_ref_spec(count_or_default(num, 1))],
            Seq::<Seq<char>>::empty(),
        ),
        Subcommands::Unstage { which, args } => match which {
            Some(WhichFiles::All) => r matches Dispatch::Invoke(c) && c@ == spec_command(
                "restore"@,
                seq!["--staged"@, ":/"@],
                Seq::<Seq<char>>::empty(),
            ),
            None => if args.deep_view().len() == 0 {
                r == Dispatch::Refuse(GitFailure::MissingArgument)
            } else {
                r matches Dispatch::Invoke(c) && c@ == spec_command(
                    "restore"@,
                    seq!["--staged"@],
                    args.deep_view(),
                )
            },
        },
        Subcommands::Update { branch } => if branch@.len() == 0 {
            r == Dispatch::Refuse(GitFailure::MissingArgument)
        } else {
            r matches Dispatch::Invoke(c) && c@ == spec_command(
                "fetch"@,
                seq!["--verbose"@, "origin"@],
                seq![branch@ + ":"@ + branch@],
            )
        },
    }
}

impl Subcommands {
    /// Resolves this verb to its primitive, exactly as the verb table says.
    pub fn run(&self) -> (r: Dispatch)
        ensures
            dispatches(*self, r),
    {
        match self {
            Subcommands::Add { which, args } => match which {
                Some(WhichFiles::All) => {
                    let mut all: Vec<String> = Vec::new();
                    crate::git::push_arg(&mut all, ":/");
                    proof {
                        assert(all.deep_view() =~= seq![":/"@]);
                    }
                    match crate::mutable::add::add(&all) {
                        Ok(c) => Dispatch::Invoke(c),
                        Err(f) => {
                            // a one-element argument list is never refused
                            proof {
                                assert(false);
                            }
                            Dispatch::Refuse(f)
                        },
                    }
                },
                None => match crate::mutable::add::add(args) {
                    Ok(c) => Dispatch::Invoke(c),
                    Err(f) => Dispatch::Refuse(f),
                },
            },
            Subcommands::Aa {} => Dispatch::Composite(crate::mutable::add::updated_and_untracked()),
            Subcommands::Aac {} => Dispatch::Composite(
                crate::mutable::commit::updated_and_untracked(),
            ),
            Subcommands::Aaf {} => Dispatch::Composite(
                crate::mutable::add::updated_and_untracked_forced(),
            ),
            Subcommands::Aamend {} => Dispatch::Composite(
                crate::mutable::commit::amend_updated_and_untracked(),
            ),
            Subcommands::Alias { filter, options } => Dispatch::Pipeline(
                ImmutableCommands::list_aliases(filter.as_ref(), *options),
            ),
            Subcommands::Au {} => Dispatch::Composite(crate::mutable::add::updated()),
            Subcommands::Auc {} => Dispatch::Composite(crate::mutable::commit::updated()),
            Subcommands::Auf {} => Dispatch::Composite(crate::mutable::add::updated_forced()),
            Subcommands::Aumend {} => Dispatch::Composite(crate::mutable::commit::amend_updated()),
            Subcommands::Author { num } => Dispatch::Invoke(
                crate::mutable::commit::change_author(*num),
            ),
            Subcommands::Cm { message, args } => {
                let composite = match args {
                    Some(a) => crate::mutable::commit::with_message(message, a),
                    None => {
                        let empty: Vec<String> = Vec::new();
                        proof {
                            assert(empty.deep_view() =~= Seq::<Seq<char>>::empty());
                        }
                        crate::mutable::commit::with_message(message, &empty)
                    },
                };
                Dispatch::Composite(composite)
            },
            Subcommands::Conf { filter, options } => Dispatch::Pipeline(
                ImmutableCommands::list_configuration_settings(filter.as_ref(), *options),
            ),
            Subcommands::Hook { hook } => hook.run(),
            Subcommands::Files { num } => Dispatch::Invoke(ImmutableCommands::show_files(*num)),
            Subcommands::L { num, args } => Dispatch::Invoke(
                ImmutableCommands::one_line_log(*num, args),
            ),
            Subcommands::Last { num, args } => Dispatch::Invoke(
                ImmutableCommands::compact_summary_log(*num, args),
            ),
            Subcommands::Restore { which, args } => match which {
                Some(WhichFiles::All) => Dispatch::Invoke(crate::mutable::index::restore_all()),
                None => Dispatch::Invoke(crate::mutable::index::restore(args)),
            },
            Subcommands::Show { num, args } => Dispatch::Invoke(
                ImmutableCommands::show(*num, args),
            ),
            Subcommands::Undo { num } => Dispatch::Invoke(crate::mutable::commit::undo(*num)),
            Subcommands::Unstage { which, args } => match which {
                Some(WhichFiles::All) => Dispatch::Invoke(crate::mutable::index::unstage_all()),
                None => match crate::mutable::index::unstage(args) {
                    Ok(c) => Dispatch::Invoke(c),
                    Err(f) => Dispatch::Refuse(f),
                },
            },
            Subcommands::Update { branch } => match crate::mutable::update_branch_from_remote(
                branch,
            ) {
                Ok(c) => Dispatch::Invoke(c),
                Err(f) => Dispatch::Refuse(f),
            },
        }
    }
}

impl HookSubcommands {
    /// Every hook verb runs through the pre-commit policy check.
    pub fn run(&self) -> (r: Dispatch)
        ensures
            r == Dispatch::Hook,
    {
        match self {
            HookSubcommands::PreCommit {} => Dispatch::Hook,
        }
    }
}

/// The process-wide options, set once from the command line at startup.
#[derive(Debug, PartialEq, Eq, Clone, Copy, Structural)]
pub struct CliOptions {
    /// Verbosity of the log; higher is chattier.
    pub verbose: u8,
    /// Echo each assembled command line before running it.
    pub print_command: bool,
    /// Print the assembled command lines but run nothing.
    pub dry_run: bool,
}

impl CliOptions {
    /// The execution context these options select, given the observed
    /// terminal state of standard output.
    pub fn context(&self, stdout_is_terminal: bool) -> (r: ExecContext)
        ensures
            r == (ExecContext {
                dry_run: self.dry_run,
                print_commands: self.print_command,
                stdout_is_terminal,
            }),
    {
        ExecContext {
            dry_run: self.dry_run,
            print_commands: self.print_command,
            stdout_is_terminal,
        }
    }
}

/// One parsed command line: the options, a catch-all fallback passed
/// straight through to the underlying tool, or a shorthand verb.
pub struct Cli {
    pub options: CliOptions,
    /// Required if no subcommand is given: the raw arguments to forward.
    pub fallback: Option<Vec<String>>,
    /// Required if no fallback is given.
    pub subcommand: Option<Subcommands>,
}

impl Cli {
    /// Resolves the whole command line: a fallback is forwarded untouched, a
    /// verb goes through the verb table, and an empty command line is
    /// refused.
    pub fn run_subcommand(&self) -> (r: Dispatch)
        ensures
            match self.fallback {
                Some(args) => if args.deep_view().len() == 0 {
                    r == Dispatch::Refuse(GitFailure::MissingArgument)
                } else {
                    r matches Dispatch::Invoke(c) && c@ == spec_command(
                        args.deep_view()[0],
                        Seq::<Seq<char>>::empty(),
                        args.deep_view().drop_first(),
                    )
                },
                None => match self.subcommand {
                    Some(s) => dispatches(s, r),
                    None => r == Dispatch::Refuse(GitFailure::MissingArgument),
                },
            },
    {
        match &self.fallback {
            Some(args) => match Git::pass_through(args) {
                Ok(c) => Dispatch::Invoke(c),
                Err(f) => Dispatch::Refuse(f),
            },
            None => match &self.subcommand {
                Some(s) => s.run(),
                None => Dispatch::Refuse(GitFailure::MissingArgument),
            },
        }
    }
}

} // verus!
