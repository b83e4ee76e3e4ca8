//! Column generation: what a pricing extension's answer means for the engine.
//!
//! The engine calls a pricer at two entry points, one for ordinary
//! reduced-cost pricing and one to repair an infeasible relaxation. Both run
//! through [`call_pricer`], which asks the extension and settles its answer
//! into what has to be written to the engine's output locations. Where the
//! extension claims new columns, [`PricerOutcome::confirm`] holds the claim
//! against the engine's variable counts from before and after the call.
use crate::codes::{RESULT_DIDNOTRUN, RESULT_SUCCESS};
use crate::scalar::Scalar;
use vstd::prelude::*;

verus! {

/// A pricing extension, called by the engine whenever the relaxation of the
/// current node is solved.
pub trait Pricer {
    /// Generates columns with negative reduced cost. With `farkas` set, the
    /// relaxation is infeasible and the columns are to repair it.
    fn generate_columns(&mut self, farkas: bool) -> PricerResult;
}

/// How a call of a pricer went.
#[derive(Debug, Clone, Copy, PartialEq, Eq, Structural)]
pub enum PricerResultState {
    /// The pricer did not run.
    DidNotRun,
    /// The pricer added new columns with negative reduced cost.
    FoundColumns,
    /// The pricer found columns and wants the engine to branch early.
    StopEarly,
}

/// What a pricer answers: how the call went and, if it has one, a lower
/// bound that is valid for the current node.
#[derive(Debug, Clone, Copy, PartialEq, Eq, Structural)]
pub struct PricerResult {
    /// How the call went.
    pub state: PricerResultState,
    /// A lower bound for the current node, where the pricer knows one.
    pub lower_bound: Option<Scalar>,
}

/// A pricer's answer that breaks its contract with the engine. Neither can
/// be repaired: the run has to be aborted.
#[derive(Debug, Clone, Copy, PartialEq, Eq, Structural)]
pub enum PricerViolation {
    /// The pricer asked to stop early while repairing feasibility, which
    /// would leave the relaxation infeasible.
    StopEarlyInFarkas,
    /// The pricer claimed new columns, and the engine holds no more
    /// variables than before the call.
    NoColumnsAdded,
}

/// What the trampoline does for the engine after a pricer has answered.
#[derive(Debug, Clone, Copy, PartialEq, Eq, Structural)]
pub struct PricerOutcome {
    /// The lower bound to write to the engine's output location, if any.
    pub lower_bound: Option<Scalar>,
    /// Whether to raise the engine's stop-early flag.
    pub stop_early: bool,
    /// The result code to write to the engine's output location.
    pub result: u32,
    /// Whether the pricer claimed to have added columns, so that the
    /// engine's variable count has to be looked at again.
    pub columns_claimed: bool,
}

/// The engine's result code for a pricer state: both ways of having found
/// columns count as success.
pub open spec fn pricer_result_code(state: PricerResultState) -> u32 {
    match state {
        PricerResultState::DidNotRun => RESULT_DIDNOTRUN,
        PricerResultState::FoundColumns => RESULT_SUCCESS,
        PricerResultState::StopEarly => RESULT_SUCCESS,
    }
}

/// What follows from a pricer's answer, before the variable counts are
/// compared. In repair mode a request to stop early is a violation and
/// nothing but the result code is written; otherwise the lower bound is
/// handed on and the stop-early flag follows the state.
pub open spec fn settled(farkas: bool, answer: PricerResult) -> Result<
    PricerOutcome,
    PricerViolation,
> {
    if farkas && answer.state == PricerResultState::StopEarly {
        Err(PricerViolation::StopEarlyInFarkas)
    } else {
        Ok(
            PricerOutcome {
                lower_bound: if farkas {
                    None
                } else {
                    answer.lower_bound
                },
                stop_early: !farkas && answer.state == PricerResultState::StopEarly,
                result: pricer_result_code(answer.state),
                columns_claimed: answer.state == PricerResultState::FoundColumns,
            },
        )
    }
}

/// Whether an outcome stands once the engine's variable counts from before
/// and after the call are known: a claim of new columns needs a count that
/// grew.
pub open spec fn confirmed(outcome: PricerOutcome, n_vars_before: int, n_vars_after: int) -> Result<
    PricerOutcome,
    PricerViolation,
> {
    if outcome.columns_claimed && !(n_vars_before < n_vars_after) {
        Err(PricerViolation::NoColumnsAdded)
    } else {
        Ok(outcome)
    }
}

impl PricerResultState {
    /// The result code to hand to the engine for this state.
    pub fn code(self) -> (code: u32)
        ensures
            code == pricer_result_code(self),
    {
        match self {
            PricerResultState::DidNotRun => RESULT_DIDNOTRUN,
            PricerResultState::FoundColumns => RESULT_SUCCESS,
            PricerResultState::StopEarly => RESULT_SUCCESS,
        }
    }
}

impl From<PricerResultState> for u32 {
    /// The result code to hand to the engine for a pricer state.
    fn from(val: PricerResultState) -> (code: u32) {
        val.code()
    }
}

impl vstd::std_specs::convert::FromSpecImpl<PricerResultState> for u32 {
    open spec fn obeys_from_spec() -> bool {
        true
    }

    open spec fn from_spec(val: PricerResultState) -> u32 {
        pricer_result_code(val)
    }
}

/// Settles a pricer's answer into what the trampoline does next.
pub fn settle(farkas: bool, answer: PricerResult) -> (outcome: Result<
    PricerOutcome,
    PricerViolation,
>)
    ensures
        outcome == settled(farkas, answer),
{
    let stops = answer.state == PricerResultState::StopEarly;
    if farkas && stops {
        return Err(PricerViolation::StopEarlyInFarkas);
    }
    let lower_bound = if farkas {
        None
    } else {
        answer.lower_bound
    };
    Ok(
        PricerOutcome {
            lower_bound,
            stop_early: !farkas && stops,
            result: answer.state.code(),
            columns_claimed: answer.state == PricerResultState::FoundColumns,
        },
    )
}

/// The shared path of both pricing entry points: asks the pricer for columns
/// and settles whatever it answers. The pricer is asked, as it stands and in
/// the mode that the engine called for; the outcome is the one that
/// [`settled`] gives for an answer that it gave, and the pricer is left as
/// that call left it.
pub fn call_pricer<P: Pricer>(pricer: &mut P, farkas: bool) -> (outcome: Result<
    PricerOutcome,
    PricerViolation,
>)
    ensures
        exists|asked: &mut P, answer: PricerResult|
            {
                &&& *asked == *old(pricer)
                &&& *final(asked) == *final(pricer)
                &&& call_ensures(P::generate_columns, (asked, farkas), answer)
                &&& outcome == settled(farkas, answer)
            },
        outcome matches Ok(o) ==> {
            &&& farkas ==> !o.stop_early && o.lower_bound is None
            &&& o.result == RESULT_DIDNOTRUN || o.result == RESULT_SUCCESS
            &&& o.columns_claimed ==> o.result == RESULT_SUCCESS && !o.stop_early
        },
        outcome matches Err(e) ==> farkas && e == PricerViolation::StopEarlyInFarkas,
{
    let answer = pricer.generate_columns(farkas);
    let outcome = settle(farkas, answer);
    assert(outcome == settled(farkas, answer));
    outcome
}

impl PricerOutcome {
    /// Holds the outcome against the engine's variable counts from before
    /// and after the pricer's call. A claim of new columns that the counts
    /// do not bear out is a violation; every other outcome stands as it is.
    pub fn confirm(self, n_vars_before: i32, n_vars_after: i32) -> (checked: Result<
        PricerOutcome,
        PricerViolation,
    >)
        ensures
            checked == confirmed(self, n_vars_before as int, n_vars_after as int),
            checked is Err <==> self.columns_claimed && n_vars_after <= n_vars_before,
    {
        if self.columns_claimed && !(n_vars_before < n_vars_after) {
            Err(PricerViolation::NoColumnsAdded)
        } else {
            Ok(self)
        }
    }
}

/// A pricer that reports found columns is accepted exactly when the engine
/// holds strictly more variables after the call than before it; otherwise
/// the run is refused with `NoColumnsAdded`, in either mode.
pub proof fn lemma_found_columns_must_grow(
    farkas: bool,
    lower_bound: Option<Scalar>,
    n_vars_before: int,
    n_vars_after: int,
)
    ensures
        ({
            let answer = PricerResult { state: PricerResultState::FoundColumns, lower_bound };
            let outcome = settled(farkas, answer);
            &&& outcome is Ok
            &&& outcome->Ok_0.result == RESULT_SUCCESS
            &&& confirmed(outcome->Ok_0, n_vars_before, n_vars_after) is Ok <==> n_vars_before
                < n_vars_after
            &&& !(n_vars_before < n_vars_after) ==> confirmed(
                outcome->Ok_0,
                n_vars_before,
                n_vars_after,
            ) == Err::<PricerOutcome, PricerViolation>(PricerViolation::NoColumnsAdded)
        }),
{
}

} // verus!
