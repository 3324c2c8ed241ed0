//! The invocation model: a `GitCommand` describes one call of the external
//! `git` binary as `git SUBCOMMAND [DEFAULT_ARGS] [USER_ARGS]`.  Assembly of
//! the concrete argument vector, color forcing and dry-run interception are
//! all decided here; the caller spawns the process (or, for a dry run, does
//! not) exactly as the returned plan says.

use vstd::prelude::*;
use crate::outcome::GitCommandResult;
use crate::outcome::GitFailure;

verus! {

/// The mathematical content of a `GitCommand`: the subcommand and the two
/// argument lists, as sequences of character strings.
pub struct GitCommandView {
    pub subcommand: Seq<char>,
    pub default_args: Seq<Seq<char>>,
    pub user_args: Seq<Seq<char>>,
}

/// One call to the git binary: `git SUBCOMMAND [DEFAULT_ARGS] [USER_ARGS]`.
/// An immutable value; "modified" copies are produced by the `with_` builders,
/// never by in-place mutation.
pub struct GitCommand {
    pub subcommand: String,
    pub default_args: Vec<String>,
    pub user_args: Vec<String>,
}

impl View for GitCommand {
    type V = GitCommandView;

    open spec fn view(&self) -> GitCommandView {
        GitCommandView {
            subcommand: self.subcommand@,
            default_args: self.default_args.deep_view(),
            user_args: self.user_args.deep_view(),
        }
    }
}

/// A `GitCommandView` from its three parts; the shape every verb's contract
/// states its invocation in.
pub open spec fn spec_command(
    subcommand: Seq<char>,
    default_args: Seq<Seq<char>>,
    user_args: Seq<Seq<char>>,
) -> GitCommandView {
    GitCommandView { subcommand, default_args, user_args }
}

/// The configuration override injected before the subcommand when standard
/// output is a terminal, so that the child still colors its output even
/// though its own stdout is not a terminal.
pub open spec fn color_override_prefix() -> Seq<Seq<char>> {
    seq!["-c"@, "color.ui=always"@]
}

impl GitCommandView {
    /// The argument vector without color forcing: the subcommand, then every
    /// default argument, then every user argument, in that fixed order.
    pub open spec fn assembled(self) -> Seq<Seq<char>> {
        seq![self.subcommand] + self.default_args + self.user_args
    }

    /// The final argument vector: the color override is prepended exactly
    /// when color is forced, and the base vector is never otherwise changed.
    pub open spec fn assembled_with_color(self, force_color: bool) -> Seq<Seq<char>> {
        if force_color {
            color_override_prefix() + self.assembled()
        } else {
            self.assembled()
        }
    }
}

/// The assembled argument vector is exactly `[subcommand] ++ default_args ++
/// user_args`: nothing is dropped, reordered or rewritten, for any empty or
/// nonempty combination of the two argument lists.
pub proof fn lemma_assembled_order(c: GitCommandView)
    ensures
        c.assembled().len() == 1 + c.default_args.len() + c.user_args.len(),
        c.assembled()[0] == c.subcommand,
        forall|i: int|
            0 <= i < c.default_args.len() ==> c.assembled()[1 + i] == #[trigger] c.default_args[i],
        forall|i: int|
            0 <= i < c.user_args.len() ==> c.assembled()[1 + c.default_args.len() + i]
                == #[trigger] c.user_args[i],
{
}

/// Color-forcing flags appear in the assembled vector if and only if color is
/// forced (standard output is a terminal), and then only as the two-token
/// prefix before the otherwise unchanged base vector; a redirected output
/// sees exactly the base vector.
pub proof fn lemma_color_forcing(c: GitCommandView)
    ensures
        c.assembled_with_color(false) == c.assembled(),
        c.assembled_with_color(true) == color_override_prefix() + c.assembled(),
        c.assembled_with_color(true).len() == c.assembled().len() + 2,
        c.assembled_with_color(true)[0] == "-c"@,
        c.assembled_with_color(true)[1] == "color.ui=always"@,
        forall|i: int|
            0 <= i < c.assembled().len() ==> c.assembled_with_color(true)[2 + i]
                == #[trigger] c.assembled()[i],
{
}

impl GitCommand {
    /// A bare call of `subcommand` with no arguments at all.
    pub fn new(subcommand: &str) -> (r: GitCommand)
        ensures
            r@.subcommand == subcommand@,
            r@.default_args == Seq::<Seq<char>>::empty(),
            r@.user_args == Seq::<Seq<char>>::empty(),
    {
        let r = GitCommand {
            subcommand: subcommand.to_owned(),
            default_args: Vec::new(),
            user_args: Vec::new(),
        };
        proof {
            assert(r@.default_args =~= Seq::<Seq<char>>::empty());
            assert(r@.user_args =~= Seq::<Seq<char>>::empty());
        }
        r
    }

    /// The same call, but with the default arguments replaced by `args`.
    pub fn with_default_args(self, args: Vec<String>) -> (r: GitCommand)
        ensures
            r@.subcommand == self@.subcommand,
            r@.default_args == args.deep_view(),
            r@.user_args == self@.user_args,
    {
        GitCommand { subcommand: self.subcommand, default_args: args, user_args: self.user_args }
    }

    /// The same call, but with the user arguments replaced by `args`.
    pub fn with_user_args(self, args: Vec<String>) -> (r: GitCommand)
        ensures
            r@.subcommand == self@.subcommand,
            r@.default_args == self@.default_args,
            r@.user_args == args.deep_view(),
    {
        GitCommand { subcommand: self.subcommand, default_args: self.default_args, user_args: args }
    }
}

/// The two process-wide option flags and the observed terminal state, set
/// once at startup and threaded as a value into every execution decision.
#[derive(Debug, PartialEq, Eq, Clone, Copy, Structural)]
pub struct ExecContext {
    /// Print the assembled command lines instead of running anything.
    pub dry_run: bool,
    /// Echo each assembled command line before running it.
    pub print_commands: bool,
    /// Standard output is attached to an interactive terminal.
    pub stdout_is_terminal: bool,
}

/// What the caller must do for one invocation.  A dry run carries the
/// rendered argument vector for the diagnostic stream and forbids spawning by
/// construction; only an `Execute` plan names a process to spawn.
pub enum InvocationPlan {
    DryRun { args: Vec<String> },
    Execute { args: Vec<String>, echo: bool },
}

/// Decides one invocation: assembles the argument vector (forcing color
/// exactly when standard output is a terminal) and intercepts dry runs.
pub fn plan_invocation(cmd: &GitCommand, ctx: ExecContext) -> (p: InvocationPlan)
    ensures
        ctx.dry_run ==> (p matches InvocationPlan::DryRun { args } && args.deep_view()
            == cmd@.assembled_with_color(ctx.stdout_is_terminal)),
        !ctx.dry_run ==> (p matches InvocationPlan::Execute { args, echo } && args.deep_view()
            == cmd@.assembled_with_color(ctx.stdout_is_terminal) && echo == ctx.print_commands),
{
    let args = assemble_args(cmd, ctx.stdout_is_terminal);
    if ctx.dry_run {
        InvocationPlan::DryRun { args }
    } else {
        InvocationPlan::Execute { args, echo: ctx.print_commands }
    }
}

/// The outcome of a planned invocation, given what the outside world
/// reported: a dry run needs no process and always yields `Success`; an
/// executed plan's outcome is `Success` exactly when the process exited with
/// status zero.
pub fn conclude_invocation(p: &InvocationPlan, exit_ok: Option<bool>) -> (r: GitCommandResult)
    requires
        p is Execute <==> exit_ok is Some,
    ensures
        p is DryRun ==> r == GitCommandResult::Success,
        p is Execute ==> (r == GitCommandResult::Success <==> exit_ok == Some(true)),
{
    match p {
        InvocationPlan::DryRun { .. } => GitCommandResult::Success,
        InvocationPlan::Execute { .. } => GitCommandResult::from_exit_ok(
            match exit_ok {
                Some(b) => b,
                None => false,
            },
        ),
    }
}

/// Builds the concrete argument vector for `cmd`, with the color override
/// prepended exactly when `force_color` holds.
fn assemble_args(cmd: &GitCommand, force_color: bool) -> (r: Vec<String>)
    ensures
        r.deep_view() == cmd@.assembled_with_color(force_color),
{
    let mut out: Vec<String> = Vec::new();
    proof {
        assert(out.deep_view() =~= Seq::<Seq<char>>::empty());
    }
    if force_color {
        let ghost before = out.deep_view();
        out.push("-c".to_owned());
        proof {
            assert(out.deep_view() =~= before.push("-c"@));
        }
        let ghost before2 = out.deep_view();
        out.push("color.ui=always".to_owned());
        proof {
            assert(out.deep_view() =~= before2.push("color.ui=always"@));
        }
    }
    let ghost prefix = out.deep_view();
    proof {
        assert(force_color ==> prefix =~= color_override_prefix());
        assert(!force_color ==> prefix =~= Seq::<Seq<char>>::empty());
    }
    out.push(self_clone_string(&cmd.subcommand));
    proof {
        assert(out.deep_view() =~= prefix.push(cmd@.subcommand));
    }
    let ghost with_sub = out.deep_view();
    let mut i: usize = 0;
    while i < cmd.default_args.len()
        invariant
            i <= cmd.default_args@.len(),
            out.deep_view() == with_sub + cmd@.default_args.take(i as int),
        decreases cmd.default_args@.len() - i,
    {
        let ghost before = out.deep_view();
        out.push(self_clone_string(&cmd.default_args[i]));
        proof {
            assert(out.deep_view() =~= before.push(cmd@.default_args[i as int]));
            assert(with_sub + cmd@.default_args.take(i + 1) =~= before.push(
                cmd@.default_args[i as int],
            ));
        }
        i += 1;
    }
    proof {
        assert(cmd@.default_args.take(cmd@.default_args.len() as int) =~= cmd@.default_args);
    }
    let ghost with_defaults = out.deep_view();
    let mut j: usize = 0;
    while j < cmd.user_args.len()
        invariant
            j <= cmd.user_args@.len(),
            out.deep_view() == with_defaults + cmd@.user_args.take(j as int),
        decreases cmd.user_args@.len() - j,
    {
        let ghost before = out.deep_view();
        out.push(self_clone_string(&cmd.user_args[j]));
        proof {
            assert(out.deep_view() =~= before.push(cmd@.user_args[j as int]));
            assert(with_defaults + cmd@.user_args.take(j + 1) =~= before.push(
                cmd@.user_args[j as int],
            ));
        }
        j += 1;
    }
    proof {
        assert(cmd@.user_args.take(cmd@.user_args.len() as int) =~= cmd@.user_args);
        assert(out.deep_view() =~= cmd@.assembled_with_color(force_color));
    }
    out
}

/// Clones one argument string.
fn self_clone_string(s: &String) -> (r: String)
    ensures
        r@ == s@,
{
    s.clone()
}

/// Appends one literal argument to an argument list.
pub fn push_arg(args: &mut Vec<String>, arg: &str)
    ensures
        final(args).deep_view() == old(args).deep_view().push(arg@),
{
    let ghost before = args.deep_view();
    args.push(arg.to_owned());
    proof {
        assert(args.deep_view() =~= before.push(arg@));
    }
}

/// Appends one already-built argument to an argument list.
pub fn push_arg_string(args: &mut Vec<String>, arg: String)
    ensures
        final(args).deep_view() == old(args).deep_view().push(arg@),
{
    let ghost before = args.deep_view();
    let ghost arg_view = arg@;
    args.push(arg);
    proof {
        assert(args.deep_view() =~= before.push(arg_view));
    }
}

/// Clones the arguments from position `from` on.
pub fn clone_args_from(args: &Vec<String>, from: usize) -> (r: Vec<String>)
    requires
        from <= args@.len(),
    ensures
        r.deep_view() == args.deep_view().subrange(from as int, args@.len() as int),
{
    let mut out: Vec<String> = Vec::new();
    let mut i: usize = from;
    proof {
        assert(out.deep_view() =~= args.deep_view().subrange(from as int, from as int));
    }
    while i < args.len()
        invariant
            from <= i <= args@.len(),
            out.deep_view() == args.deep_view().subrange(from as int, i as int),
        decreases args@.len() - i,
    {
        let ghost before = out.deep_view();
        out.push(self_clone_string(&args[i]));
        proof {
            assert(out.deep_view() =~= before.push(args.deep_view()[i as int]));
            assert(args.deep_view().subrange(from as int, i + 1) =~= before.push(
                args.deep_view()[i as int],
            ));
        }
        i += 1;
    }
    out
}

/// Clones a whole argument list.
pub fn clone_args(args: &Vec<String>) -> (r: Vec<String>)
    ensures
        r.deep_view() == args.deep_view(),
{
    let r = clone_args_from(args, 0);
    proof {
        assert(args.deep_view().subrange(0, args@.len() as int) =~= args.deep_view());
    }
    r
}

/// The options to the configuration-listing verbs.
#[derive(Debug, PartialEq, Eq, Clone, Copy, Structural)]
pub struct GitConfigOpts {
    pub show_origin: bool,
    pub show_scope: bool,
}

pub struct Git();

impl Git {
    /// Appends the flags the configuration options ask for, `--show-origin`
    /// always before `--show-scope`, leaving everything already present
    /// untouched.
    pub fn parse_config_options(options: GitConfigOpts, config_args: &mut Vec<String>)
        ensures
            final(config_args).deep_view() == old(config_args).deep_view() + (if options.show_origin {
                seq!["--show-origin"@]
            } else {
                Seq::<Seq<char>>::empty()
            }) + (if options.show_scope {
                seq!["--show-scope"@]
            } else {
                Seq::<Seq<char>>::empty()
            }),
    {
        let ghost start = config_args.deep_view();
        if options.show_origin {
            let ghost before = config_args.deep_view();
            config_args.push("--show-origin".to_owned());
            proof {
                assert(config_args.deep_view() =~= before.push("--show-origin"@));
            }
        }
        if options.show_scope {
            let ghost before = config_args.deep_view();
            config_args.push("--show-scope".to_owned());
            proof {
                assert(config_args.deep_view() =~= before.push("--show-scope"@));
            }
        }
        proof {
            assert(config_args.deep_view() =~= start + (if options.show_origin {
                seq!["--show-origin"@]
            } else {
                Seq::<Seq<char>>::empty()
            }) + (if options.show_scope {
                seq!["--show-scope"@]
            } else {
                Seq::<Seq<char>>::empty()
            }));
        }
    }

    /// A catch-all: the first argument is the subcommand and the rest are
    /// passed through untouched; with no arguments at all there is nothing to
    /// run and the caller's input is rejected.
    pub fn pass_through(args: &Vec<String>) -> (r: Result<GitCommand, GitFailure>)
        ensures
            args@.len() == 0 <==> r is Err,
            r matches Err(f) ==> f == GitFailure::MissingArgument,
            r matches Ok(c) ==> {
                &&& c@.subcommand == args.deep_view()[0]
                &&& c@.default_args == Seq::<Seq<char>>::empty()
                &&& c@.user_args == args.deep_view().drop_first()
            },
    {
        if args.len() == 0 {
            return Err(GitFailure::MissingArgument);
        }
        let user_args = clone_args_from(args, 1);
        let cmd = GitCommand::new(args[0].as_str()).with_user_args(user_args);
        proof {
            assert(args.deep_view().subrange(1, args@.len() as int) =~= args.deep_view(
            ).drop_first());
        }
        Ok(cmd)
    }
}

} // verus!
