//! Parsing one input line and dispatching it.
//!
//! `parse_input` turns a raw line into a redirection plan, a classified
//! command and a clean argument list. `handle_command` then decides, without
//! performing any effect itself, exactly what the line does: the text for
//! each output target, the action the surrounding program must carry out
//! (change directory or spawn a process), and whether the session ends.
//! Every line yields exactly one such decision.

use vstd::prelude::*;
use crate::builtins::Output;
use crate::builtins::command_not_found_message;
use crate::builtins::handle_cd_command;
use crate::builtins::handle_echo_command;
use crate::builtins::handle_pwd_command;
use crate::builtins::handle_type_command;
use crate::builtins::spec_cd_decision;
use crate::builtins::spec_echo_line;
use crate::builtins::spec_opt_str;
use crate::builtins::spec_type_output;
use crate::classify::Builtin;
use crate::classify::MyCmd;
use crate::classify::parse_command;
use crate::classify::spec_builtin_of;
use crate::classify::spec_is_builtin_name;
use crate::redirect::PlanState;
use crate::redirect::RedirectionPlan;
use crate::redirect::setup_output;
use crate::redirect::spec_plan;
use crate::resolve::DirListing;
use crate::resolve::look_in_path;
use crate::resolve::spec_resolve;
use crate::text::str_eq;
use crate::tokenizer::spec_tokenize;
use crate::tokenizer::split_string;

verus! {

/// Why a line has no command to dispatch.
#[derive(Clone, Copy, PartialEq, Eq, Structural, Debug)]
pub enum ParseError {
    /// The line holds no token after redirections are removed.
    EmptyInput,
    /// A redirection operator is the last token of the line.
    MissingRedirectTarget,
}

/// A fully parsed line: where output goes, what command runs, and with which
/// arguments.
#[derive(PartialEq, Eq, Debug)]
pub struct ParsedInput {
    pub plan: RedirectionPlan,
    pub cmd: MyCmd,
    pub args: Vec<String>,
}

/// Whether the exec-level plan records exactly the targets of the ghost
/// planner state.
pub open spec fn plan_matches(plan: RedirectionPlan, st: PlanState) -> bool {
    &&& spec_opt_str(plan.out_target) == st.out
    &&& spec_opt_str(plan.err_target) == st.err
}

/// Tokenizes one line and separates redirections from arguments. The first
/// remaining token is classified as the command; a line with no remaining
/// token, or with an operator as its last token, is rejected.
pub fn parse_input(input: &str) -> (r: Result<ParsedInput, ParseError>)
    ensures
        (spec_plan(spec_tokenize(input@)) is None <==> (r is Err && r->Err_0
            is MissingRedirectTarget)),
        (spec_plan(spec_tokenize(input@)) matches Some(st) ==> (st.args.len() == 0 ==> (r is Err
            && r->Err_0 is EmptyInput))),
        ((r is Err && r->Err_0 is EmptyInput) ==> (spec_plan(spec_tokenize(input@)) matches Some(
            st,
        ) && st.args.len() == 0)),
        (spec_plan(spec_tokenize(input@)) matches Some(st) ==> (st.args.len() > 0 ==> (r matches
        Ok(pi) && {
            &&& plan_matches(pi.plan, st)
            &&& pi.args.deep_view() == st.args.drop_first()
            &&& (spec_is_builtin_name(st.args[0]) ==> (pi.cmd matches MyCmd::Builtin(b) && b
                == spec_builtin_of(st.args[0])))
            &&& (!spec_is_builtin_name(st.args[0]) ==> (pi.cmd matches MyCmd::Other(name) && name@
                == st.args[0]))
        }))),
{
    let tokens = split_string(input);
    match setup_output(tokens) {
        Err(_) => Err(ParseError::MissingRedirectTarget),
        Ok((plan, mut args)) => {
            if args.len() == 0 {
                Err(ParseError::EmptyInput)
            } else {
                let ghost old_args = args.deep_view();
                let first = args.remove(0);
                proof {
                    assert(args.deep_view() =~= old_args.drop_first());
                    assert(first@ == old_args[0]);
                }
                let cmd = parse_command(first.as_str());
                Ok(ParsedInput { plan, cmd, args })
            }
        }
    }
}

/// Whether the shell keeps prompting after a command, or stops.
#[derive(Clone, Copy, PartialEq, Eq, Structural, Debug)]
pub enum ContinueExec {
    Stop,
    Continue,
}

/// The one effect a command asks the surrounding program to carry out.
#[derive(PartialEq, Eq, Debug)]
pub enum FollowUp {
    /// Nothing beyond writing the decided text.
    Inert,
    /// Change the working directory to the given path; if it does not
    /// exist, write [`cd_not_found_message`] to the standard-error target.
    Chdir(String),
    /// Spawn the executable at the given path with the given arguments, wait
    /// for it, and copy its captured output streams to the targets.
    Spawn(String, Vec<String>),
}

/// Ghost counterpart of [`FollowUp`].
#[verifier::ext_equal]
pub enum SpecAction {
    Inert,
    Chdir(Seq<char>),
    Spawn(Seq<char>, Seq<Seq<char>>),
}

/// Everything one line decides: the redirection targets, the text for each
/// target, the follow-up action, and whether the session ends.
#[derive(PartialEq, Eq, Debug)]
pub struct CommandResult {
    pub plan: RedirectionPlan,
    pub output: Output,
    pub action: FollowUp,
    pub cont: ContinueExec,
}

/// Ghost counterpart of [`CommandResult`].
#[verifier::ext_equal]
pub struct SpecOutcome {
    pub out_target: Option<Seq<char>>,
    pub err_target: Option<Seq<char>>,
    pub out: Seq<char>,
    pub err: Seq<char>,
    pub action: SpecAction,
    pub stop: bool,
}

/// The view of a follow-up action.
pub open spec fn spec_action_of(a: FollowUp) -> SpecAction {
    match a {
        FollowUp::Inert => SpecAction::Inert,
        FollowUp::Chdir(p) => SpecAction::Chdir(p@),
        FollowUp::Spawn(p, args) => SpecAction::Spawn(p@, args.deep_view()),
    }
}

/// The view of a command result.
pub open spec fn spec_outcome_of(r: CommandResult) -> SpecOutcome {
    SpecOutcome {
        out_target: spec_opt_str(r.plan.out_target),
        err_target: spec_opt_str(r.plan.err_target),
        out: r.output.out@,
        err: r.output.err@,
        action: spec_action_of(r.action),
        stop: r.cont is Stop,
    }
}

/// An outcome that writes nothing, does nothing and continues, with the
/// given targets.
pub open spec fn spec_quiet_outcome(
    out_target: Option<Seq<char>>,
    err_target: Option<Seq<char>>,
) -> SpecOutcome {
    SpecOutcome {
        out_target,
        err_target,
        out: Seq::empty(),
        err: Seq::empty(),
        action: SpecAction::Inert,
        stop: false,
    }
}

/// What one input line decides, in full.
///
/// A malformed redirection is reported on the inherited standard error and
/// no target is opened. A line with no command after redirections are
/// removed does nothing at all. Otherwise the first token selects a builtin
/// or an external command; only `exit` with the single argument `0` stops
/// the session, and an unresolved external name is reported on the
/// standard-output target (a quirk kept deliberately).
pub open spec fn spec_handle(
    listings: Seq<DirListing>,
    home: Option<Seq<char>>,
    cwd: Seq<char>,
    input: Seq<char>,
) -> SpecOutcome {
    match spec_plan(spec_tokenize(input)) {
        None => SpecOutcome {
            err: "syntax error: redirection target missing\n"@,
            ..spec_quiet_outcome(None, None)
        },
        Some(st) => {
            if st.args.len() == 0 {
                spec_quiet_outcome(None, None)
            } else {
                spec_run_command(listings, home, cwd, st, st.args[0], st.args.drop_first())
            }
        }
    }
}

/// The decision for a classified, argument-resolved command.
pub open spec fn spec_run_command(
    listings: Seq<DirListing>,
    home: Option<Seq<char>>,
    cwd: Seq<char>,
    st: PlanState,
    name: Seq<char>,
    args: Seq<Seq<char>>,
) -> SpecOutcome {
    let base = spec_quiet_outcome(st.out, st.err);
    if name == "cd"@ {
        match spec_cd_decision(args, home) {
            Ok(t) => SpecOutcome { action: SpecAction::Chdir(t), ..base },
            Err(m) => SpecOutcome { err: m, ..base },
        }
    } else if name == "exit"@ {
        if args.len() == 1 && args[0] == "0"@ {
            SpecOutcome { stop: true, ..base }
        } else {
            SpecOutcome { err: "exit: expected the single argument 0\n"@, ..base }
        }
    } else if name == "echo"@ {
        SpecOutcome { out: spec_echo_line(args), ..base }
    } else if name == "pwd"@ {
        SpecOutcome { out: cwd + "\n"@, ..base }
    } else if name == "type"@ {
        if args.len() != 1 {
            SpecOutcome { err: "type: expected one argument\n"@, ..base }
        } else {
            SpecOutcome {
                out: spec_type_output(listings, args[0]).out,
                err: spec_type_output(listings, args[0]).err,
                ..base
            }
        }
    } else {
        match spec_resolve(listings, name) {
            Some(p) => SpecOutcome { action: SpecAction::Spawn(p, args), ..base },
            None => SpecOutcome { out: name + ": command not found\n"@, ..base },
        }
    }
}

/// Law: on a line whose tokens hold no redirection operator, redirection
/// planning is a no-op: both targets stay inherited and the arguments the
/// command sees are exactly the line's tokens with the command name removed.
pub proof fn lemma_no_redirects_planner_no_op(line: Seq<char>)
    requires
        forall|i: int|
            0 <= i < spec_tokenize(line).len() ==> !crate::redirect::spec_is_redirect_op(
                #[trigger] spec_tokenize(line)[i],
            ),
    ensures
        (spec_plan(spec_tokenize(line)) matches Some(st) && st.out is None && st.err is None
            && st.args == spec_tokenize(line)),
{
    crate::redirect::lemma_plan_no_op(spec_tokenize(line));
}

/// Law: `exit 0` is the only input that stops the session. The dispatcher
/// decides to stop exactly when the tokens left after redirection planning
/// are `exit` followed by `0`; in particular `exit 1` and a bare `exit`
/// keep the session alive (and report an error).
pub proof fn lemma_exit_zero_only_stop(
    listings: Seq<DirListing>,
    home: Option<Seq<char>>,
    cwd: Seq<char>,
    input: Seq<char>,
)
    ensures
        spec_handle(listings, home, cwd, input).stop <==> (spec_plan(spec_tokenize(input))
            is Some && spec_plan(spec_tokenize(input))->0.args.len() == 2 && spec_plan(
            spec_tokenize(input),
        )->0.args[0] == "exit"@ && spec_plan(spec_tokenize(input))->0.args[1] == "0"@),
{
    reveal_strlit("exit");
    reveal_strlit("cd");
}

/// Interprets one input line against the given environment snapshot: the
/// search-path listings, the home directory, and the working directory.
/// Performs no effect itself; the result says what to write where, what to
/// do, and whether to stop.
pub fn handle_command(
    listings: &Vec<DirListing>,
    home: &Option<String>,
    cwd: &str,
    input: &str,
) -> (r: CommandResult)
    ensures
        spec_outcome_of(r) == spec_handle(listings@, spec_opt_str(*home), cwd@, input@),
{
    let empty_plan = RedirectionPlan { out_target: None, err_target: None };
    match parse_input(input) {
        Err(ParseError::MissingRedirectTarget) => {
            let mut line = String::new();
            line.append("syntax error: redirection target missing\n");
            proof {
                assert(line@ =~= "syntax error: redirection target missing\n"@);
            }
            let r = CommandResult {
                plan: empty_plan,
                output: Output { out: String::new(), err: line },
                action: FollowUp::Inert,
                cont: ContinueExec::Continue,
            };
            proof {
                assert(spec_outcome_of(r) =~= spec_handle(
                    listings@,
                    spec_opt_str(*home),
                    cwd@,
                    input@,
                ));
            }
            r
        }
        Err(ParseError::EmptyInput) => {
            let r = CommandResult {
                plan: empty_plan,
                output: Output { out: String::new(), err: String::new() },
                action: FollowUp::Inert,
                cont: ContinueExec::Continue,
            };
            proof {
                assert(spec_outcome_of(r) =~= spec_handle(
                    listings@,
                    spec_opt_str(*home),
                    cwd@,
                    input@,
                ));
            }
            r
        }
        Ok(parsed) => {
            let ParsedInput { plan, cmd, args } = parsed;
            let mut output = Output { out: String::new(), err: String::new() };
            let mut action = FollowUp::Inert;
            let mut cont = ContinueExec::Continue;
            match cmd {
                MyCmd::Builtin(Builtin::Cd) => {
                    match handle_cd_command(&args, home) {
                        Ok(target) => {
                            action = FollowUp::Chdir(target);
                        }
                        Err(message) => {
                            output.err = message;
                        }
                    }
                }
                MyCmd::Builtin(Builtin::Echo) => {
                    output.out = handle_echo_command(&args);
                }
                MyCmd::Builtin(Builtin::Exit) => {
                    if args.len() == 1 && str_eq(args[0].as_str(), "0") {
                        cont = ContinueExec::Stop;
                    } else {
                        let mut line = String::new();
                        line.append("exit: expected the single argument 0\n");
                        proof {
                            assert(line@ =~= "exit: expected the single argument 0\n"@);
                        }
                        output.err = line;
                    }
                }
                MyCmd::Builtin(Builtin::Pwd) => {
                    output.out = handle_pwd_command(cwd);
                }
                MyCmd::Builtin(Builtin::Type) => {
                    if args.len() != 1 {
                        let mut line = String::new();
                        line.append("type: expected one argument\n");
                        proof {
                            assert(line@ =~= "type: expected one argument\n"@);
                        }
                        output.err = line;
                    } else {
                        output = handle_type_command(listings, args[0].as_str());
                    }
                }
                MyCmd::Other(name) => {
                    match look_in_path(listings, name.as_str()) {
                        Some(path) => {
                            action = FollowUp::Spawn(path, args);
                        }
                        None => {
                            output.out = command_not_found_message(name.as_str());
                        }
                    }
                }
            }
            let r = CommandResult { plan, output, action, cont };
            proof {
                assert(spec_outcome_of(r) =~= spec_handle(
                    listings@,
                    spec_opt_str(*home),
                    cwd@,
                    input@,
                ));
            }
            r
        }
    }
}

} // verus!
