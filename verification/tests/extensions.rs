use russcip::branchrule::{
    branchexeclp, candidate_captures, candidate_releases, get_lp_branching_cands, Branch,
    BranchOutcome, BranchRule, BranchingCandidate, BranchingResult, LpCandidate,
};
use russcip::engine::{Capture, Release};
use russcip::pricer::{
    call_pricer, settle, Pricer, PricerOutcome, PricerResult, PricerResultState, PricerViolation,
};
use russcip::scalar::Scalar;
use russcip::variable::{VarType, Variable};

fn num(x: f64) -> Scalar {
    Scalar::from_bits(x.to_bits())
}

fn candidate(raw: usize, index: usize, lp_sol_val: f64) -> LpCandidate {
    LpCandidate {
        var: Variable::new(raw, index, VarType::Integer),
        lp_sol_val: num(lp_sol_val),
        frac: num(lp_sol_val - lp_sol_val.floor()),
    }
}

fn fractional_node() -> Vec<LpCandidate> {
    vec![candidate(0x2000, 3, 2.5), candidate(0x2100, 8, 0.25), candidate(0x2200, 11, 7.75)]
}

struct PanickingBranchingRule;

impl BranchRule for PanickingBranchingRule {
    fn execute(&mut self, _candidates: Vec<BranchingCandidate>) -> BranchingResult {
        panic!("Not implemented")
    }
}

#[test]
#[should_panic]
fn panicking_branchrule() {
    let mut br = PanickingBranchingRule {};
    branchexeclp(&mut br, &fractional_node());
}

struct FirstChoosingBranchingRule {
    pub chosen: Option<BranchingCandidate>,
}

impl BranchRule for FirstChoosingBranchingRule {
    fn execute(&mut self, candidates: Vec<BranchingCandidate>) -> BranchingResult {
        self.chosen = Some(candidates[0].clone());
        BranchingResult::DidNotRun
    }
}

#[test]
fn choosing_first_branching_rule() {
    let mut br = FirstChoosingBranchingRule { chosen: None };

    let outcome = branchexeclp(&mut br, &fractional_node());
    assert_eq!(outcome, BranchOutcome { branch: None, result: 1, retcode: 1 });
    assert!(br.chosen.is_some());
    let candidate = br.chosen.unwrap();
    assert_eq!(candidate.var.raw, 0x2000);
    assert!(f64::from_bits(candidate.lp_sol_val.to_bits()).fract() > 0.);
    let frac = f64::from_bits(candidate.frac.to_bits());
    assert!(frac > 0. && frac < 1.);
}

struct CuttingOffBranchingRule;

impl BranchRule for CuttingOffBranchingRule {
    fn execute(&mut self, _candidates: Vec<BranchingCandidate>) -> BranchingResult {
        BranchingResult::CutOff
    }
}

#[test]
fn cutting_off_branching_rule() {
    let mut br = CuttingOffBranchingRule {};
    let outcome = branchexeclp(&mut br, &fractional_node());
    assert_eq!(outcome, BranchOutcome { branch: None, result: 7, retcode: 1 });
}

struct FirstBranchingRule {
    n_vars: usize,
}

impl BranchRule for FirstBranchingRule {
    fn execute(&mut self, candidates: Vec<BranchingCandidate>) -> BranchingResult {
        assert!(self.n_vars >= candidates.len());
        BranchingResult::BranchOn(candidates[0].clone())
    }
}

#[test]
fn first_branching_rule() {
    let mut br = FirstBranchingRule { n_vars: 54 };
    let outcome = branchexeclp(&mut br, &fractional_node());
    assert_eq!(
        outcome,
        BranchOutcome {
            branch: Some(Branch { var: 0x2000, val: num(2.5) }),
            result: 13,
            retcode: 1,
        }
    );
}

struct LastBranchingRule;

impl BranchRule for LastBranchingRule {
    fn execute(&mut self, candidates: Vec<BranchingCandidate>) -> BranchingResult {
        BranchingResult::BranchOn(candidates[candidates.len() - 1].clone())
    }
}

#[test]
fn branch_is_created_on_the_selected_candidate() {
    let outcome = branchexeclp(&mut LastBranchingRule, &fractional_node());
    assert_eq!(outcome.branch, Some(Branch { var: 0x2200, val: num(7.75) }));
    assert_eq!(outcome.result, 13);
    assert_eq!(outcome.retcode, 1);
}

struct FixedRule(BranchingResult);

impl BranchRule for FixedRule {
    fn execute(&mut self, _candidates: Vec<BranchingCandidate>) -> BranchingResult {
        self.0.clone()
    }
}

#[test]
fn every_decision_has_its_result_code() {
    let node = fractional_node();
    let cases = vec![
        (BranchingResult::DidNotRun, 1),
        (BranchingResult::CutOff, 7),
        (BranchingResult::CustomBranching, 13),
        (BranchingResult::Separated, 8),
        (BranchingResult::ReduceDom, 10),
        (BranchingResult::ConsAdded, 11),
    ];
    for (decision, code) in cases {
        assert_eq!(decision.code(), code);
        assert_eq!(u32::from(decision.clone()), code);
        assert_eq!(russcip::branchrule::settle(&decision).result, code);
        let outcome = branchexeclp(&mut FixedRule(decision), &node);
        assert_eq!(outcome, BranchOutcome { branch: None, result: code, retcode: 1 });
    }
    let cand = get_lp_branching_cands(&node).remove(1);
    assert_eq!(u32::from(BranchingResult::BranchOn(cand)), 13);
}

#[test]
fn candidates_follow_the_engines_order() {
    let node = fractional_node();
    let cands = get_lp_branching_cands(&node);
    assert_eq!(cands.len(), 3);
    for (cand, reported) in cands.iter().zip(node.iter()) {
        assert_eq!(*cand.var, reported.var);
        assert_eq!(cand.lp_sol_val, reported.lp_sol_val);
        assert_eq!(cand.frac, reported.frac);
    }
    assert!(get_lp_branching_cands(&vec![]).is_empty());
}

struct CountingRule {
    n_vars: usize,
    longest: usize,
    calls: usize,
}

impl BranchRule for CountingRule {
    fn execute(&mut self, candidates: Vec<BranchingCandidate>) -> BranchingResult {
        self.calls += 1;
        self.longest = self.longest.max(candidates.len());
        assert!(candidates.len() <= self.n_vars);
        BranchingResult::DidNotRun
    }
}

#[test]
fn rule_sees_every_candidate_of_the_node() {
    let mut rule = CountingRule { n_vars: 3, longest: 0, calls: 0 };
    branchexeclp(&mut rule, &fractional_node());
    branchexeclp(&mut rule, &fractional_node()[..1].to_vec());
    assert_eq!(rule.calls, 2);
    assert_eq!(rule.longest, 3);
}

struct PanickingPricer;

impl Pricer for PanickingPricer {
    fn generate_columns(&mut self, _farkas: bool) -> PricerResult {
        panic!("Not implemented")
    }
}

#[test]
#[should_panic]
fn panicking_pricer() {
    let mut pricer = PanickingPricer {};
    let _ = call_pricer(&mut pricer, false);
}

struct LyingPricer;

impl Pricer for LyingPricer {
    fn generate_columns(&mut self, _farkas: bool) -> PricerResult {
        PricerResult { state: PricerResultState::FoundColumns, lower_bound: None }
    }
}

#[test]
#[should_panic]
fn nothing_pricer() {
    let mut pricer = LyingPricer {};
    let n_vars_before = 2;
    let outcome = call_pricer(&mut pricer, false).unwrap();
    let n_vars_after = 2;
    outcome.confirm(n_vars_before, n_vars_after).unwrap();
}

#[test]
fn lying_pricer_is_refused() {
    let outcome = call_pricer(&mut LyingPricer, false).unwrap();
    assert!(outcome.columns_claimed);
    assert_eq!(outcome.result, 17);
    assert_eq!(outcome.confirm(2, 2), Err(PricerViolation::NoColumnsAdded));
    assert_eq!(outcome.confirm(3, 2), Err(PricerViolation::NoColumnsAdded));
    assert_eq!(outcome.confirm(2, 3), Ok(outcome));
    assert_eq!(outcome.confirm(i32::MIN, i32::MAX), Ok(outcome));
    let outcome = call_pricer(&mut LyingPricer, true).unwrap();
    assert_eq!(outcome.confirm(5, 5), Err(PricerViolation::NoColumnsAdded));
    assert_eq!(outcome.confirm(5, 6), Ok(outcome));
}

struct FixedPricer(PricerResultState, Option<f64>);

impl Pricer for FixedPricer {
    fn generate_columns(&mut self, _farkas: bool) -> PricerResult {
        PricerResult { state: self.0, lower_bound: self.1.map(num) }
    }
}

#[test]
fn pricing_outcomes() {
    let outcome = call_pricer(&mut FixedPricer(PricerResultState::DidNotRun, None), false);
    assert_eq!(
        outcome,
        Ok(PricerOutcome { lower_bound: None, stop_early: false, result: 1, columns_claimed: false })
    );
    let outcome = call_pricer(&mut FixedPricer(PricerResultState::DidNotRun, Some(4.5)), false);
    assert_eq!(
        outcome,
        Ok(PricerOutcome {
            lower_bound: Some(num(4.5)),
            stop_early: false,
            result: 1,
            columns_claimed: false,
        })
    );
    let outcome = call_pricer(&mut FixedPricer(PricerResultState::FoundColumns, Some(-3.)), false);
    assert_eq!(
        outcome,
        Ok(PricerOutcome {
            lower_bound: Some(num(-3.)),
            stop_early: false,
            result: 17,
            columns_claimed: true,
        })
    );
    let outcome = call_pricer(&mut FixedPricer(PricerResultState::StopEarly, Some(1.)), false);
    assert_eq!(
        outcome,
        Ok(PricerOutcome {
            lower_bound: Some(num(1.)),
            stop_early: true,
            result: 17,
            columns_claimed: false,
        })
    );
    assert_eq!(outcome.unwrap().confirm(4, 4), outcome);
}

#[test]
fn farkas_pricing_outcomes() {
    let outcome = call_pricer(&mut FixedPricer(PricerResultState::DidNotRun, Some(4.5)), true);
    assert_eq!(
        outcome,
        Ok(PricerOutcome { lower_bound: None, stop_early: false, result: 1, columns_claimed: false })
    );
    let outcome = call_pricer(&mut FixedPricer(PricerResultState::FoundColumns, Some(4.5)), true);
    assert_eq!(
        outcome,
        Ok(PricerOutcome { lower_bound: None, stop_early: false, result: 17, columns_claimed: true })
    );
    let outcome = call_pricer(&mut FixedPricer(PricerResultState::StopEarly, None), true);
    assert_eq!(outcome, Err(PricerViolation::StopEarlyInFarkas));
    let answer = PricerResult { state: PricerResultState::StopEarly, lower_bound: Some(num(2.)) };
    assert_eq!(settle(true, answer), Err(PricerViolation::StopEarlyInFarkas));
}

#[test]
fn pricer_states_have_their_result_codes() {
    assert_eq!(u32::from(PricerResultState::DidNotRun), 1);
    assert_eq!(u32::from(PricerResultState::FoundColumns), 17);
    assert_eq!(u32::from(PricerResultState::StopEarly), 17);
    assert_eq!(PricerResultState::DidNotRun.code(), 1);
    assert_eq!(PricerResultState::FoundColumns.code(), 17);
    assert_eq!(PricerResultState::StopEarly.code(), 17);
}

#[test]
fn candidate_handles_are_captured_and_released() {
    let node = fractional_node();
    assert_eq!(
        candidate_captures(&node),
        vec![Capture::Variable(0x2000), Capture::Variable(0x2100), Capture::Variable(0x2200)]
    );
    assert_eq!(
        candidate_releases(&node),
        vec![Release::Variable(0x2000), Release::Variable(0x2100), Release::Variable(0x2200)]
    );
    let twice = vec![candidate(0x2000, 3, 0.5), candidate(0x2000, 3, 0.5)];
    assert_eq!(candidate_captures(&twice), vec![Capture::Variable(0x2000); 2]);
    assert_eq!(candidate_releases(&twice), vec![Release::Variable(0x2000); 2]);
    assert!(candidate_captures(&vec![]).is_empty());
    assert!(candidate_releases(&vec![]).is_empty());
}
