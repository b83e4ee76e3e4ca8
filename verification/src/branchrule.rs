//! Branching: what a branching extension's answer means for the engine.
//!
//! When the engine reaches a node whose relaxation is fractional, it calls
//! the branching rule. [`branchexeclp`] builds the candidates from what the
//! engine reported, asks the rule, and settles its answer into the branch to
//! create, if any, and the result code to report. A rule that selects a
//! candidate starts the branch by selecting it: the outcome always carries
//! the branch together with the code that reports it.
//!
//! A candidate's handle is a handle like any other: the engine counts one
//! holder more for it while it lives. [`candidate_captures`] plans the
//! captures to make before the rule is asked, and [`candidate_releases`] the
//! releases to make when the invocation ends.
use crate::codes::{
    RESULT_BRANCHED, RESULT_CONSADDED, RESULT_CUTOFF, RESULT_DIDNOTRUN, RESULT_REDUCEDDOM,
    RESULT_SEPARATED, RETCODE_OKAY,
};
use crate::engine::{count, Capture, Release};
use crate::scalar::Scalar;
use crate::variable::Variable;
use std::rc::Rc;
use vstd::prelude::*;

verus! {

/// A branching extension, called by the engine at every node whose
/// relaxation has fractional candidates.
pub trait BranchRule {
    /// Decides what to do at the current node, given its candidates.
    fn execute(&mut self, candidates: Vec<BranchingCandidate>) -> BranchingResult;
}

/// What a branching rule decided.
#[derive(Debug, Clone)]
pub enum BranchingResult {
    /// The rule did not run.
    DidNotRun,
    /// Branch on the given candidate.
    BranchOn(BranchingCandidate),
    /// The current node is infeasible and can be cut off.
    CutOff,
    /// The rule created the branches itself.
    CustomBranching,
    /// A cutting plane was added.
    Separated,
    /// The domain of a variable was reduced so that the current relaxation
    /// solution becomes infeasible.
    ReduceDom,
    /// A constraint was added.
    ConsAdded,
}

/// A variable that can be branched on at the current node. It lives for one
/// call of the rule only.
#[derive(Debug, Clone)]
pub struct BranchingCandidate {
    /// The variable.
    pub var: Rc<Variable>,
    /// Its value in the relaxation's solution.
    pub lp_sol_val: Scalar,
    /// The fractional part of that value.
    pub frac: Scalar,
}

/// What the engine reported of one candidate, before a handle is made of it.
#[derive(Debug, Clone, Copy, PartialEq, Eq, Structural)]
pub struct LpCandidate {
    /// The variable.
    pub var: Variable,
    /// Its value in the relaxation's solution.
    pub lp_sol_val: Scalar,
    /// The fractional part of that value.
    pub frac: Scalar,
}

/// The branch to create on a variable at a value.
#[derive(Debug, Clone, Copy, PartialEq, Eq, Structural)]
pub struct Branch {
    /// Address of the native variable to branch on.
    pub var: usize,
    /// The value at which to split its domain.
    pub val: Scalar,
}

/// What the trampoline does for the engine after a rule has answered.
#[derive(Debug, Clone, Copy, PartialEq, Eq, Structural)]
pub struct BranchOutcome {
    /// The branch to create before anything is reported, if the rule
    /// selected a candidate.
    pub branch: Option<Branch>,
    /// The result code to write to the engine's output location.
    pub result: u32,
    /// The return code to hand to the engine.
    pub retcode: i32,
}

/// The engine's result code for a rule's decision: selecting a candidate and
/// branching by oneself both report a branched node.
pub open spec fn branching_result_code(decision: BranchingResult) -> u32 {
    match decision {
        BranchingResult::DidNotRun => RESULT_DIDNOTRUN,
        BranchingResult::BranchOn(_) => RESULT_BRANCHED,
        BranchingResult::CutOff => RESULT_CUTOFF,
        BranchingResult::CustomBranching => RESULT_BRANCHED,
        BranchingResult::Separated => RESULT_SEPARATED,
        BranchingResult::ReduceDom => RESULT_REDUCEDDOM,
        BranchingResult::ConsAdded => RESULT_CONSADDED,
    }
}

/// The branch that a decision starts: the selected candidate's variable at
/// its relaxation value, and none for every other decision.
pub open spec fn branch_of(decision: BranchingResult) -> Option<Branch> {
    match decision {
        BranchingResult::BranchOn(cand) => Some(Branch { var: cand.var.raw, val: cand.lp_sol_val }),
        _ => None,
    }
}

/// What follows from a rule's decision.
pub open spec fn settled(decision: BranchingResult) -> BranchOutcome {
    BranchOutcome {
        branch: branch_of(decision),
        result: branching_result_code(decision),
        retcode: RETCODE_OKAY,
    }
}

/// The candidate that is made of what the engine reported of it.
pub open spec fn candidate_of(reported: LpCandidate) -> BranchingCandidate {
    BranchingCandidate {
        var: Rc::new(reported.var),
        lp_sol_val: reported.lp_sol_val,
        frac: reported.frac,
    }
}

impl BranchingResult {
    /// The result code to hand to the engine for this decision.
    pub fn code(&self) -> (code: u32)
        ensures
            code == branching_result_code(*self),
    {
        match self {
            BranchingResult::DidNotRun => RESULT_DIDNOTRUN,
            BranchingResult::BranchOn(_) => RESULT_BRANCHED,
            BranchingResult::CutOff => RESULT_CUTOFF,
            BranchingResult::CustomBranching => RESULT_BRANCHED,
            BranchingResult::Separated => RESULT_SEPARATED,
            BranchingResult::ReduceDom => RESULT_REDUCEDDOM,
            BranchingResult::ConsAdded => RESULT_CONSADDED,
        }
    }
}

impl From<BranchingResult> for u32 {
    /// The result code to hand to the engine for a rule's decision.
    fn from(val: BranchingResult) -> (code: u32) {
        val.code()
    }
}

impl vstd::std_specs::convert::FromSpecImpl<BranchingResult> for u32 {
    open spec fn obeys_from_spec() -> bool {
        true
    }

    open spec fn from_spec(val: BranchingResult) -> u32 {
        branching_result_code(val)
    }
}

/// Makes the candidates of the current node from what the engine reported,
/// one for each and in the engine's order. The engine is to hold the capture
/// that [`candidate_captures`] plans for each of them.
pub fn get_lp_branching_cands(reported: &Vec<LpCandidate>) -> (cands: Vec<BranchingCandidate>)
    ensures
        cands@ == reported@.map_values(|r: LpCandidate| candidate_of(r)),
{
    let mut cands: Vec<BranchingCandidate> = Vec::with_capacity(reported.len());
    let mut i: usize = 0;
    while i < reported.len()
        invariant
            i <= reported.len(),
            cands@ == reported@.take(i as int).map_values(|r: LpCandidate| candidate_of(r)),
        decreases reported.len() - i,
    {
        let r = reported[i];
        cands.push(BranchingCandidate { var: Rc::new(r.var), lp_sol_val: r.lp_sol_val, frac: r.frac });
        proof {
            let f = |r: LpCandidate| candidate_of(r);
            assert(reported@.take(i + 1) == reported@.take(i as int).push(reported@[i as int]));
            assert(reported@.take(i + 1).map_values(f) == reported@.take(i as int).map_values(
                f,
            ).push(f(reported@[i as int])));
        }
        i += 1;
    }
    proof {
        assert(reported@.take(reported.len() as int) == reported@);
    }
    cands
}

/// The captures for the handles of a node's candidates: one for the variable
/// of each candidate, in the engine's order.
pub open spec fn candidate_capture_plan(reported: Seq<LpCandidate>) -> Seq<Capture> {
    reported.map_values(|r: LpCandidate| Capture::Variable(r.var.raw))
}

/// The releases for the handles of a node's candidates: one for the variable
/// of each candidate, in the engine's order.
pub open spec fn candidate_release_plan(reported: Seq<LpCandidate>) -> Seq<Release> {
    reported.map_values(|r: LpCandidate| Release::Variable(r.var.raw))
}

/// Plans the captures to make before the candidates' handles are made, so
/// that the engine counts every handle that the rule is given.
pub fn candidate_captures(reported: &Vec<LpCandidate>) -> (plan: Vec<Capture>)
    ensures
        plan@ == candidate_capture_plan(reported@),
{
    let mut plan: Vec<Capture> = Vec::with_capacity(reported.len());
    let mut i: usize = 0;
    while i < reported.len()
        invariant
            i <= reported.len(),
            plan@.len() == i,
            forall|k: int|
                0 <= k < i ==> #[trigger] plan@[k] == Capture::Variable(reported@[k].var.raw),
        decreases reported.len() - i,
    {
        plan.push(Capture::Variable(reported[i].var.raw));
        i += 1;
    }
    proof {
        assert(plan@ =~= candidate_capture_plan(reported@));
    }
    plan
}

/// Plans the releases to make when the invocation ends and the candidates'
/// handles are gone: one for every capture that [`candidate_captures`]
/// planned.
pub fn candidate_releases(reported: &Vec<LpCandidate>) -> (plan: Vec<Release>)
    ensures
        plan@ == candidate_release_plan(reported@),
{
    let mut plan: Vec<Release> = Vec::with_capacity(reported.len());
    let mut i: usize = 0;
    while i < reported.len()
        invariant
            i <= reported.len(),
            plan@.len() == i,
            forall|k: int|
                0 <= k < i ==> #[trigger] plan@[k] == Release::Variable(reported@[k].var.raw),
        decreases reported.len() - i,
    {
        plan.push(Release::Variable(reported[i].var.raw));
        i += 1;
    }
    proof {
        assert(plan@ =~= candidate_release_plan(reported@));
    }
    plan
}

/// Settles a rule's decision into what the trampoline does next.
pub fn settle(decision: &BranchingResult) -> (outcome: BranchOutcome)
    ensures
        outcome == settled(*decision),
{
    let branch = match decision {
        BranchingResult::BranchOn(cand) => Some(Branch { var: cand.var.raw, val: cand.lp_sol_val }),
        _ => None,
    };
    BranchOutcome { branch, result: decision.code(), retcode: RETCODE_OKAY }
}

/// The engine's entry point for branching on a fractional relaxation: makes
/// the candidates, asks the rule and settles whatever it decides. The rule is
/// asked, as it stands and with the candidates made of what the engine
/// reported; the outcome is the one that [`settled`] gives for a decision
/// that it took on them, and the rule is left as that call left it. The
/// engine is told that the call went well, and a branch is only ever created
/// together with the report of a branched node.
pub fn branchexeclp<R: BranchRule>(rule: &mut R, reported: &Vec<LpCandidate>) -> (outcome:
    BranchOutcome)
    ensures
        exists|asked: &mut R, cands: Vec<BranchingCandidate>, decision: BranchingResult|
            {
                &&& *asked == *old(rule)
                &&& *final(asked) == *final(rule)
                &&& cands@ == reported@.map_values(|r: LpCandidate| candidate_of(r))
                &&& call_ensures(R::execute, (asked, cands), decision)
                &&& outcome == settled(decision)
            },
        outcome.retcode == RETCODE_OKAY,
        outcome.branch is Some ==> outcome.result == RESULT_BRANCHED,
{
    let cands = get_lp_branching_cands(reported);
    let decision = rule.execute(cands);
    let outcome = settle(&decision);
    assert(outcome == settled(decision));
    outcome
}

/// Selecting a candidate creates the branch on that candidate's variable at
/// its relaxation value and reports a branched node; cutting off creates no
/// branch and reports the cutoff.
pub proof fn lemma_selection_is_applied(cand: BranchingCandidate)
    ensures
        settled(BranchingResult::BranchOn(cand)).branch == Some(
            Branch { var: cand.var.raw, val: cand.lp_sol_val },
        ),
        settled(BranchingResult::BranchOn(cand)).result == RESULT_BRANCHED,
        settled(BranchingResult::CutOff).branch is None,
        settled(BranchingResult::CutOff).result == RESULT_CUTOFF,
{
}

/// A branch is created for no decision but the selection of a candidate.
pub proof fn lemma_branch_only_on_selection(decision: BranchingResult)
    ensures
        settled(decision).branch is Some <==> decision is BranchOn,
        settled(decision).retcode == RETCODE_OKAY,
{
}

/// The handles of a node's candidates are paid for and given back: every
/// variable is captured once for each candidate that names it and released
/// as often when the invocation ends, and nothing else is captured or
/// released or freed for them.
pub proof fn lemma_candidate_captures_balance(reported: Seq<LpCandidate>, p: usize)
    ensures
        candidate_capture_plan(reported).len() == reported.len(),
        candidate_release_plan(reported).len() == reported.len(),
        count(candidate_capture_plan(reported), Capture::Variable(p)) == count(
            candidate_release_plan(reported),
            Release::Variable(p),
        ),
        count(candidate_capture_plan(reported), Capture::Constraint(p)) == 0,
        count(candidate_release_plan(reported), Release::Constraint(p)) == 0,
        count(candidate_release_plan(reported), Release::Instance(p)) == 0,
    decreases reported.len(),
{
    if reported.len() > 0 {
        lemma_candidate_captures_balance(reported.drop_last(), p);
        assert(candidate_capture_plan(reported).drop_last() == candidate_capture_plan(
            reported.drop_last(),
        ));
        assert(candidate_release_plan(reported).drop_last() == candidate_release_plan(
            reported.drop_last(),
        ));
    }
}

} // verus!
