//! Extracting redirection operators and their targets from a token sequence.
//!
//! The planner scans the tokens once, left to right. A token exactly equal to
//! `>` or `1>` makes the next token the standard-output target; `2>` makes
//! the next token the standard-error target. Operator and target are removed
//! from the argument stream; every other token passes through in order. When
//! the same stream names a target twice, the later one wins. An operator
//! with no following token is rejected as a malformed line (stated
//! explicitly here; a quiet fallback would hide the mistake from the user).

use vstd::prelude::*;
use crate::text::str_eq;

verus! {

/// What the planner is waiting for: nothing, a standard-output target, or a
/// standard-error target.
#[derive(Clone, Copy, PartialEq, Eq, Structural, Debug)]
pub enum Pending {
    Free,
    OutTarget,
    ErrTarget,
}

/// The planner's state while scanning: what the next token would be consumed
/// as, the targets seen so far, and the arguments kept so far.
pub struct PlanState {
    pub pending: Pending,
    pub out: Option<Seq<char>>,
    pub err: Option<Seq<char>>,
    pub args: Seq<Seq<char>>,
}

/// Where a command's standard output and standard error should go: either
/// inherited from the process (`None`) or written to a file at the given
/// path, truncating or creating it (`Some`).
#[derive(PartialEq, Eq, Debug, Clone)]
pub struct RedirectionPlan {
    pub out_target: Option<String>,
    pub err_target: Option<String>,
}

/// The planner state before any token has been scanned.
pub open spec fn plan_init() -> PlanState {
    PlanState { pending: Pending::Free, out: None, err: None, args: Seq::empty() }
}

/// Whether a token is one of the recognized redirection operators.
pub open spec fn spec_is_redirect_op(t: Seq<char>) -> bool {
    t == ">"@ || t == "1>"@ || t == "2>"@
}

/// One transition of the planner: how scanning the token `t` changes the
/// state `st`. A token following an operator is consumed as the target
/// unconditionally, even if it looks like an operator itself.
pub open spec fn plan_step(st: PlanState, t: Seq<char>) -> PlanState {
    match st.pending {
        Pending::OutTarget => PlanState { pending: Pending::Free, out: Some(t), ..st },
        Pending::ErrTarget => PlanState { pending: Pending::Free, err: Some(t), ..st },
        Pending::Free => {
            if t == ">"@ || t == "1>"@ {
                PlanState { pending: Pending::OutTarget, ..st }
            } else if t == "2>"@ {
                PlanState { pending: Pending::ErrTarget, ..st }
            } else {
                PlanState { args: st.args.push(t), ..st }
            }
        }
    }
}

/// The planner state after scanning all of `tokens`.
pub open spec fn plan_run(tokens: Seq<Seq<char>>) -> PlanState
    decreases tokens.len(),
{
    if tokens.len() == 0 {
        plan_init()
    } else {
        plan_step(plan_run(tokens.drop_last()), tokens.last())
    }
}

/// The plan for a token sequence: the two targets and the remaining
/// arguments, or `None` when the line ends right after an operator.
pub open spec fn spec_plan(tokens: Seq<Seq<char>>) -> Option<PlanState> {
    let st = plan_run(tokens);
    if st.pending is Free {
        Some(st)
    } else {
        None
    }
}

/// Law: on a token sequence without redirection operators the planner is a
/// no-op. It always yields a plan, the plan names no target, and the
/// argument list is exactly the token sequence, in order.
pub proof fn lemma_plan_no_op(tokens: Seq<Seq<char>>)
    requires
        forall|i: int| 0 <= i < tokens.len() ==> !spec_is_redirect_op(#[trigger] tokens[i]),
    ensures
        (spec_plan(tokens) matches Some(st) && st.out is None && st.err is None && st.args
            == tokens),
    decreases tokens.len(),
{
    if tokens.len() == 0 {
        assert(plan_run(tokens).args =~= tokens);
    } else {
        assert(forall|i: int|
            0 <= i < tokens.drop_last().len() ==> !spec_is_redirect_op(
                #[trigger] tokens.drop_last()[i],
            ));
        lemma_plan_no_op(tokens.drop_last());
        assert(!spec_is_redirect_op(tokens.last()));
        assert(plan_run(tokens).args =~= tokens);
    }
}

/// Why a token sequence has no redirection plan.
#[derive(Clone, Copy, PartialEq, Eq, Structural, Debug)]
pub enum PlanError {
    MissingRedirectTarget,
}

/// Scans the tokens for `>`, `1>` and `2>`, returning the redirection plan
/// and the argument list with operators and targets removed. Fails exactly
/// when an operator is the last token.
pub fn setup_output(tokens: Vec<String>) -> (r: Result<
    (RedirectionPlan, Vec<String>),
    PlanError,
>)
    ensures
        (spec_plan(tokens.deep_view()) is Some <==> r is Ok),
        (r matches Ok((plan, args)) ==> spec_plan(tokens.deep_view()) matches Some(st) && {
            &&& (plan.out_target matches Some(p) && st.out matches Some(q) && p@ == q) || (
            plan.out_target is None && st.out is None)
            &&& (plan.err_target matches Some(p) && st.err matches Some(q) && p@ == q) || (
            plan.err_target is None && st.err is None)
            &&& args.deep_view() == st.args
        }),
{
    let ghost toks = tokens.deep_view();
    let mut pending = Pending::Free;
    let mut out: Option<String> = None;
    let mut err: Option<String> = None;
    let mut args: Vec<String> = Vec::new();
    let n = tokens.len();
    let mut i: usize = 0;
    while i < n
        invariant
            n == tokens.len(),
            toks == tokens.deep_view(),
            i <= n,
            pending == plan_run(toks.subrange(0, i as int)).pending,
            ((out matches Some(p) && plan_run(toks.subrange(0, i as int)).out matches Some(q) && p@
                == q) || (out is None && plan_run(toks.subrange(0, i as int)).out is None)),
            ((err matches Some(p) && plan_run(toks.subrange(0, i as int)).err matches Some(q) && p@
                == q) || (err is None && plan_run(toks.subrange(0, i as int)).err is None)),
            args.deep_view() == plan_run(toks.subrange(0, i as int)).args,
        decreases n - i,
    {
        let ghost prev = plan_run(toks.subrange(0, i as int));
        proof {
            assert(toks.subrange(0, (i + 1) as int).drop_last() =~~= toks.subrange(0, i as int));
            assert(toks.subrange(0, (i + 1) as int).last() == toks[i as int]);
            assert(tokens[i as int]@ == toks[i as int]);
        }
        let item = &tokens[i];
        match pending {
            Pending::OutTarget => {
                out = Some(item.clone());
                pending = Pending::Free;
            }
            Pending::ErrTarget => {
                err = Some(item.clone());
                pending = Pending::Free;
            }
            Pending::Free => {
                if str_eq(item.as_str(), ">") || str_eq(item.as_str(), "1>") {
                    pending = Pending::OutTarget;
                } else if str_eq(item.as_str(), "2>") {
                    pending = Pending::ErrTarget;
                } else {
                    let ghost old_args = args.deep_view();
                    args.push(item.clone());
                    proof {
                        assert(args.deep_view() =~= old_args.push(toks[i as int]));
                    }
                }
            }
        }
        i = i + 1;
    }
    proof {
        assert(toks.subrange(0, n as int) =~~= toks);
    }
    match pending {
        Pending::Free => Ok((RedirectionPlan { out_target: out, err_target: err }, args)),
        Pending::OutTarget => Err(PlanError::MissingRedirectTarget),
        Pending::ErrTarget => Err(PlanError::MissingRedirectTarget),
    }
}

} // verus!
