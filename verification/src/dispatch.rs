//! The command dispatcher: selects a subcommand from the first argument of
//! the process and prepares the action to perform. The dispatcher itself
//! touches no stream; it hands the caller a [`DispatchAction`] that says what
//! to emit and, for `run`, which options and target file to hand to the
//! execution engine.

use vstd::prelude::*;
use crate::splitter::{split, split_options, split_target, views_of};

verus! {

/// The status a launcher invocation reports to the operating environment.
#[derive(Clone, Copy, Debug, PartialEq, Eq, Structural)]
pub enum ExitOutcome {
    Success,
    Failure,
}

/// The subcommand selected by the first argument, by exact, case-sensitive
/// match against a fixed alias table.
#[derive(Clone, Debug, PartialEq, Eq)]
pub enum Command {
    Help,
    Version,
    Run,
    Unknown(String),
}

/// The recognized aliases of the `help` command.
pub open spec fn is_help_alias(w: Seq<char>) -> bool {
    ||| w == "help"@
    ||| w == "-help"@
    ||| w == "--help"@
    ||| w == "-?"@
}

/// The recognized aliases of the `version` command.
pub open spec fn is_version_alias(w: Seq<char>) -> bool {
    ||| w == "version"@
    ||| w == "-version"@
    ||| w == "--version"@
}

/// The words of the alias table, and `run`, are pairwise distinct, so each
/// command word selects exactly one command.
proof fn lemma_alias_classes_disjoint(w: Seq<char>)
    ensures
        is_help_alias(w) ==> !is_version_alias(w) && w != "run"@,
        is_version_alias(w) ==> w != "run"@,
{
    reveal_strlit("help");
    reveal_strlit("-help");
    reveal_strlit("--help");
    reveal_strlit("-?");
    reveal_strlit("version");
    reveal_strlit("-version");
    reveal_strlit("--version");
    reveal_strlit("run");
    assert("help"@.len() == 4);
    assert("-help"@.len() == 5);
    assert("--help"@.len() == 6);
    assert("-?"@.len() == 2);
    assert("version"@.len() == 7);
    assert("-version"@.len() == 8);
    assert("--version"@.len() == 9);
    assert("run"@.len() == 3);
}

/// Decide whether two string slices hold the same characters.
fn str_eq(a: &str, b: &str) -> (r: bool)
    ensures
        r == (a@ == b@),
{
    let sa: String = a.to_owned();
    let sb: String = b.to_owned();
    sa == sb
}

/// Match a command word against the fixed alias table.
pub fn parse_command(word: &String) -> (r: Command)
    ensures
        r is Help <==> is_help_alias(word@),
        r is Version <==> is_version_alias(word@),
        r is Run <==> word@ == "run"@,
        r matches Command::Unknown(w) ==> w@ == word@,
{
    proof {
        lemma_alias_classes_disjoint(word@);
    }
    if str_eq(word.as_str(), "help") || str_eq(word.as_str(), "-help") || str_eq(
        word.as_str(),
        "--help",
    ) || str_eq(word.as_str(), "-?") {
        Command::Help
    } else if str_eq(word.as_str(), "version") || str_eq(word.as_str(), "-version") || str_eq(
        word.as_str(),
        "--version",
    ) {
        Command::Version
    } else if str_eq(word.as_str(), "run") {
        Command::Run
    } else {
        Command::Unknown(word.clone())
    }
}

/// What a launcher invocation must do: emit one fixed text, report one
/// diagnostic, or hand options and a target file to the execution engine.
#[derive(Clone, Debug, PartialEq, Eq)]
pub enum DispatchAction {
    /// Emit the static help banner.
    PrintHelp,
    /// Emit the launcher's version identifier.
    PrintVersion,
    /// Hand the launcher options and the target file to the execution engine.
    Launch { options: Vec<String>, target: String },
    /// Report that `run` was invoked without a target file.
    ReportMissingTarget,
    /// Report the unrecognized command word.
    ReportUnsupported { word: String },
}

/// The mathematical counterpart of a [`DispatchAction`], over views.
pub enum ActionModel {
    Help,
    Version,
    Launch(Seq<Seq<char>>, Seq<char>),
    MissingTarget,
    Unsupported(Seq<char>),
}

/// The executable action realizes the model: same variant, same views.
pub open spec fn action_matches(m: ActionModel, a: DispatchAction) -> bool {
    match m {
        ActionModel::Help => a is PrintHelp,
        ActionModel::Version => a is PrintVersion,
        ActionModel::Launch(opts, t) => {
            &&& a matches DispatchAction::Launch { options, target }
            &&& views_of(options@) == opts
            &&& target@ == t
        },
        ActionModel::MissingTarget => a is ReportMissingTarget,
        ActionModel::Unsupported(w) => {
            &&& a matches DispatchAction::ReportUnsupported { word }
            &&& word@ == w
        },
    }
}

/// What handling `run` must produce from the arguments that follow the
/// command word: a launch when a target exists, else a missing-target report.
pub open spec fn run_model(rest: Seq<Seq<char>>) -> ActionModel {
    match split_target(rest) {
        Some(t) => ActionModel::Launch(split_options(rest), t),
        None => ActionModel::MissingTarget,
    }
}

/// What dispatching must produce from the whole argument list: help when the
/// list is empty or the first token is a help alias, the version for a
/// version alias, the `run` handling for `run`, and an unsupported-command
/// report naming the first token otherwise.
pub open spec fn dispatch_model(args: Seq<Seq<char>>) -> ActionModel {
    if args.len() == 0 {
        ActionModel::Help
    } else if is_help_alias(args[0]) {
        ActionModel::Help
    } else if is_version_alias(args[0]) {
        ActionModel::Version
    } else if args[0] == "run"@ {
        run_model(args.drop_first())
    } else {
        ActionModel::Unsupported(args[0])
    }
}

/// The exit outcome each action ends in. Launching is decided by the
/// execution engine, which is outside this core, so its outcome is a
/// parameter.
pub open spec fn outcome_model(m: ActionModel, engine_outcome: ExitOutcome) -> ExitOutcome {
    match m {
        ActionModel::Help => ExitOutcome::Success,
        ActionModel::Version => ExitOutcome::Success,
        ActionModel::Launch(_, _) => engine_outcome,
        ActionModel::MissingTarget => ExitOutcome::Failure,
        ActionModel::Unsupported(_) => ExitOutcome::Failure,
    }
}

/// Handle the `run` command: split its arguments into the leading launcher
/// options and the target file name. A missing target is a reported,
/// recoverable condition, never an abort.
pub fn run_japp(args: Vec<String>) -> (r: DispatchAction)
    ensures
        action_matches(run_model(views_of(args@)), r),
{
    let (options, target) = split(&args);
    match target {
        Some(t) => DispatchAction::Launch { options, target: t },
        None => DispatchAction::ReportMissingTarget,
    }
}

/// The views of a token sequence commute with dropping its first token.
proof fn lemma_views_drop_first(tokens: Seq<String>)
    requires
        tokens.len() >= 1,
    ensures
        views_of(tokens.drop_first()) == views_of(tokens).drop_first(),
{
    assert(views_of(tokens.drop_first()) =~= views_of(tokens).drop_first());
}

/// The tokens after the command word, as an owned sequence.
fn tail(args: &Vec<String>) -> (r: Vec<String>)
    requires
        args@.len() >= 1,
    ensures
        r@ == args@.drop_first(),
{
    let mut r: Vec<String> = Vec::new();
    let mut i: usize = 1;
    while i < args.len()
        invariant
            1 <= i <= args@.len(),
            r@ == args@.subrange(1, i as int),
        decreases args@.len() - i,
    {
        r.push(args[i].clone());
        proof {
            assert(r@ =~= args@.subrange(1, i + 1 as int));
        }
        i += 1;
    }
    proof {
        assert(r@ =~= args@.drop_first());
    }
    r
}

/// Select a subcommand from the first argument and prepare the action to
/// perform. An empty argument list selects the help banner; an unrecognized
/// command word is a normal outcome reported by the returned action, not a
/// fault.
pub fn dispatch(args: &Vec<String>) -> (r: DispatchAction)
    ensures
        action_matches(dispatch_model(views_of(args@)), r),
{
    if args.len() == 0 {
        return DispatchAction::PrintHelp;
    }
    proof {
        assert(views_of(args@)[0] == args@[0]@);
    }
    let cmd = parse_command(&args[0]);
    match cmd {
        Command::Help => DispatchAction::PrintHelp,
        Command::Version => DispatchAction::PrintVersion,
        Command::Run => {
            let rest = tail(args);
            proof {
                lemma_views_drop_first(args@);
            }
            run_japp(rest)
        },
        Command::Unknown(w) => DispatchAction::ReportUnsupported { word: w },
    }
}

/// Map an action to the exit outcome the process must report. The outcome of
/// launching the target is decided by the execution engine, which is outside
/// this core; it is taken as an argument.
pub fn action_outcome(action: &DispatchAction, engine_outcome: ExitOutcome) -> (r: ExitOutcome)
    ensures
        action is PrintHelp || action is PrintVersion ==> r == ExitOutcome::Success,
        action is ReportMissingTarget || action is ReportUnsupported ==> r == ExitOutcome::Failure,
        action is Launch ==> r == engine_outcome,
        forall|m: ActionModel| #[trigger]
            action_matches(m, *action) ==> r == outcome_model(m, engine_outcome),
{
    match action {
        DispatchAction::PrintHelp => ExitOutcome::Success,
        DispatchAction::PrintVersion => ExitOutcome::Success,
        DispatchAction::Launch { options: _, target: _ } => engine_outcome,
        DispatchAction::ReportMissingTarget => ExitOutcome::Failure,
        DispatchAction::ReportUnsupported { word: _ } => ExitOutcome::Failure,
    }
}

/// Law: when the first token is a recognized help alias, dispatching selects
/// the help output and the exit status is success, whatever the execution
/// engine would report.
pub proof fn lemma_help_alias_dispatch(args: Seq<Seq<char>>, engine_outcome: ExitOutcome)
    requires
        args.len() > 0,
        is_help_alias(args[0]),
    ensures
        dispatch_model(args) is Help,
        outcome_model(dispatch_model(args), engine_outcome) == ExitOutcome::Success,
{
}

/// Law: when the first token is neither in the alias table nor `run`,
/// dispatching reports exactly that token as unsupported and the exit status
/// is failure.
pub proof fn lemma_unknown_command_dispatch(args: Seq<Seq<char>>, engine_outcome: ExitOutcome)
    requires
        args.len() > 0,
        !is_help_alias(args[0]),
        !is_version_alias(args[0]),
        args[0] != "run"@,
    ensures
        dispatch_model(args) == ActionModel::Unsupported(args[0]),
        outcome_model(dispatch_model(args), engine_outcome) == ExitOutcome::Failure,
{
}

/// The diagnostic for an unrecognized command word; it names that exact word.
pub fn unsupported_diagnostic(word: &String) -> (r: String)
    ensures
        r@ == "Unsupported command: "@ + word@,
{
    let prefix: String = "Unsupported command: ".to_owned();
    prefix.concat(word.as_str())
}

/// The diagnostic for a `run` invocation that names no target file.
pub fn missing_target_diagnostic() -> (r: String)
    ensures
        r@ == "Missing japp file name"@,
{
    "Missing japp file name".to_owned()
}

/// The static help banner.
pub fn help_text() -> (r: &'static str)
    ensures
        r@
            == "Usage: japp <command>\n\nCommands:\n  help                          Print this help message\n  version                       Print the launcher version\n  run [options...] <japp-file>  Run a packaged application"@,
{
    "Usage: japp <command>\n\nCommands:\n  help                          Print this help message\n  version                       Print the launcher version\n  run [options...] <japp-file>  Run a packaged application"
}

/// The launcher's own version identifier.
pub fn version_text() -> (r: &'static str)
    ensures
        r@ == "japp launcher 0.1.0"@,
{
    "japp launcher 0.1.0"
}

} // verus!
