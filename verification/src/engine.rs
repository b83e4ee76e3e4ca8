//! The engine instance and its teardown.
//!
//! A model owns one engine instance. When the model goes, every variable and
//! constraint that the engine still knows is released through the engine,
//! each once, and only then the instance itself is freed. The releases go by
//! the engine's own enumeration of its objects, not by the handles that the
//! host happens to hold, so that no object is leaked or released twice
//! whichever handles were dropped before.
use crate::codes::{STAGE_EXITSOLVE, STAGE_PROBLEM};
use vstd::prelude::*;

verus! {

/// Whether an engine in the given stage holds variables and constraints that
/// have to be released: every stage from the one in which the problem is
/// built to the one in which the solving data is freed.
pub open spec fn stage_holds_problem(stage: u32) -> bool {
    STAGE_PROBLEM <= stage <= STAGE_EXITSOLVE
}

/// One step of a teardown.
#[derive(Debug, Clone, Copy, PartialEq, Eq, Structural)]
pub enum Release {
    /// Release the variable at this address through the engine.
    Variable(usize),
    /// Release the constraint at this address through the engine.
    Constraint(usize),
    /// Free the engine instance at this address.
    Instance(usize),
}

/// The steps that tear down an engine instance, in order: the variables that
/// the engine enumerated, its constraints, and the instance last. Where the
/// engine holds no problem, the enumerations are not looked at.
pub open spec fn teardown_plan(scip: usize, stage: u32, vars: Seq<usize>, conss: Seq<usize>) -> Seq<
    Release,
> {
    if stage_holds_problem(stage) {
        vars.map_values(|p: usize| Release::Variable(p)) + conss.map_values(
            |p: usize| Release::Constraint(p),
        ) + seq![Release::Instance(scip)]
    } else {
        seq![Release::Instance(scip)]
    }
}

/// One capture to make when a problem that the engine has read is taken
/// over: the engine counts one more holder of the object at this address.
#[derive(Debug, Clone, Copy, PartialEq, Eq, Structural)]
pub enum Capture {
    /// Capture the variable at this address through the engine.
    Variable(usize),
    /// Capture the constraint at this address through the engine.
    Constraint(usize),
}

/// The captures that take over a problem, in order: one for each variable
/// that the engine enumerated, then one for each constraint.
pub open spec fn capture_plan(vars: Seq<usize>, conss: Seq<usize>) -> Seq<Capture> {
    vars.map_values(|p: usize| Capture::Variable(p)) + conss.map_values(
        |p: usize| Capture::Constraint(p),
    )
}

/// How many times a value stands in a sequence.
pub open spec fn count<T>(s: Seq<T>, x: T) -> nat
    decreases s.len(),
{
    if s.len() == 0 {
        0
    } else {
        count(s.drop_last(), x) + if s.last() == x {
            1nat
        } else {
            0nat
        }
    }
}

/// Decides whether an engine in the given stage holds variables and
/// constraints. Only then may its enumerations be asked for.
pub fn holds_problem(stage: u32) -> (holds: bool)
    ensures
        holds == stage_holds_problem(stage),
{
    STAGE_PROBLEM <= stage && stage <= STAGE_EXITSOLVE
}

/// What the engine counts, as the host's number: the engine's signed count
/// taken as an unsigned machine word, as a conversion with `as` gives it.
pub open spec fn native_count(reported: i64) -> usize {
    reported as usize
}

/// Reads a count that the engine reported.
pub fn count_of(reported: i64) -> (n: usize)
    ensures
        n == native_count(reported),
        0 <= reported <= usize::MAX ==> n == reported,
{
    #[verifier::truncate]
    (reported as usize)
}

/// The exclusive owner of one native engine instance.
#[derive(Debug)]
pub struct ScipPtr {
    /// Address of the native instance.
    pub raw: usize,
}

impl ScipPtr {
    /// Takes ownership of the native instance at the given address.
    pub fn new(raw: usize) -> (scip: ScipPtr)
        ensures
            scip.raw == raw,
    {
        ScipPtr { raw }
    }

    /// Plans the teardown of this instance from the stage that the engine is
    /// in and, where it holds a problem, its enumerations of the variables
    /// and constraints of the problem as it was stated.
    pub fn teardown(&self, stage: u32, vars: &Vec<usize>, conss: &Vec<usize>) -> (plan: Vec<
        Release,
    >)
        ensures
            plan@ == teardown_plan(self.raw, stage, vars@, conss@),
    {
        let mut plan: Vec<Release> = Vec::new();
        if holds_problem(stage) {
            let mut i: usize = 0;
            while i < vars.len()
                invariant
                    i <= vars.len(),
                    plan@ == vars@.take(i as int).map_values(|p: usize| Release::Variable(p)),
                decreases vars.len() - i,
            {
                plan.push(Release::Variable(vars[i]));
                proof {
                    assert(vars@.take(i + 1) == vars@.take(i as int).push(vars@[i as int]));
                    assert(vars@.take(i + 1).map_values(|p: usize| Release::Variable(p))
                        == vars@.take(i as int).map_values(|p: usize| Release::Variable(p)).push(
                        Release::Variable(vars@[i as int]),
                    ));
                }
                i += 1;
            }
            proof {
                assert(vars@.take(vars.len() as int) == vars@);
            }
            let ghost released = plan@;
            let mut j: usize = 0;
            while j < conss.len()
                invariant
                    j <= conss.len(),
                    released == vars@.map_values(|p: usize| Release::Variable(p)),
                    plan@ == released + conss@.take(j as int).map_values(
                        |p: usize| Release::Constraint(p),
                    ),
                decreases conss.len() - j,
            {
                plan.push(Release::Constraint(conss[j]));
                proof {
                    assert(conss@.take(j + 1) == conss@.take(j as int).push(conss@[j as int]));
                    assert(conss@.take(j + 1).map_values(|p: usize| Release::Constraint(p))
                        == conss@.take(j as int).map_values(|p: usize| Release::Constraint(p)).push(
                        Release::Constraint(conss@[j as int]),
                    ));
                    assert(plan@ == released + conss@.take(j + 1).map_values(
                        |p: usize| Release::Constraint(p),
                    ));
                }
                j += 1;
            }
            proof {
                assert(conss@.take(conss.len() as int) == conss@);
            }
        }
        plan.push(Release::Instance(self.raw));
        proof {
            assert(plan@ == teardown_plan(self.raw, stage, vars@, conss@));
        }
        plan
    }
}

/// Counting in two sequences laid end to end.
proof fn lemma_count_add<T>(a: Seq<T>, b: Seq<T>, x: T)
    ensures
        count(a + b, x) == count(a, x) + count(b, x),
    decreases b.len(),
{
    if b.len() == 0 {
        assert(a + b == a);
    } else {
        assert((a + b).drop_last() == a + b.drop_last());
        lemma_count_add(a, b.drop_last(), x);
    }
}

/// A value that stands nowhere in a sequence is counted zero times, one that
/// stands in it at least once, and one that stands in a sequence without
/// repetitions at most once.
proof fn lemma_count_bounds<T>(s: Seq<T>, x: T)
    ensures
        !s.contains(x) ==> count(s, x) == 0,
        s.contains(x) ==> count(s, x) >= 1,
        s.no_duplicates() ==> count(s, x) <= 1,
    decreases s.len(),
{
    if s.len() > 0 {
        let front = s.drop_last();
        lemma_count_bounds(front, x);
        if s.contains(x) && s.last() != x {
            let i = choose|i: int| 0 <= i < s.len() && s[i] == x;
            assert(front[i] == x);
        }
        assert forall|i: int| 0 <= i < front.len() implies front[i] == s[i] by {}
        if !s.contains(x) {
            assert(s.last() == s[s.len() - 1]);
            if front.contains(x) {
                let i = choose|i: int| 0 <= i < front.len() && front[i] == x;
                assert(s[i] == x);
            }
        }
        if s.no_duplicates() {
            assert forall|i: int, j: int|
                0 <= i < front.len() && 0 <= j < front.len() && i != j implies front[i]
                != front[j] by {
                assert(s[i] != s[j]);
            }
            if s.last() == x && front.contains(x) {
                let i = choose|i: int| 0 <= i < front.len() && front[i] == x;
                assert(s[i] == s[s.len() - 1]);
            }
        }
    }
}

/// Counting the releases of variables and constraints that are made of an
/// enumeration of addresses.
proof fn lemma_count_releases(list: Seq<usize>, p: usize, scip: usize)
    ensures
        count(list.map_values(|q: usize| Release::Variable(q)), Release::Variable(p)) == count(
            list,
            p,
        ),
        count(list.map_values(|q: usize| Release::Constraint(q)), Release::Constraint(p)) == count(
            list,
            p,
        ),
        count(list.map_values(|q: usize| Release::Variable(q)), Release::Constraint(p)) == 0,
        count(list.map_values(|q: usize| Release::Constraint(q)), Release::Variable(p)) == 0,
        count(list.map_values(|q: usize| Release::Variable(q)), Release::Instance(scip)) == 0,
        count(list.map_values(|q: usize| Release::Constraint(q)), Release::Instance(scip)) == 0,
    decreases list.len(),
{
    let var = |q: usize| Release::Variable(q);
    let cons = |q: usize| Release::Constraint(q);
    if list.len() > 0 {
        lemma_count_releases(list.drop_last(), p, scip);
        assert(list.map_values(var).drop_last() == list.drop_last().map_values(var));
        assert(list.map_values(cons).drop_last() == list.drop_last().map_values(cons));
    }
}

/// A teardown releases every object exactly as often as the engine's
/// enumeration names it, whatever handles the host holds or has dropped:
/// an object that the engine names once is released once, and one that it
/// does not name is left alone. The instance is freed once, as the plan's
/// last step.
pub proof fn lemma_teardown_releases_as_listed(
    scip: usize,
    stage: u32,
    vars: Seq<usize>,
    conss: Seq<usize>,
    p: usize,
)
    ensures
        ({
            let plan = teardown_plan(scip, stage, vars, conss);
            &&& plan.len() > 0
            &&& plan.last() == Release::Instance(scip)
            &&& count(plan, Release::Instance(scip)) == 1
            &&& stage_holds_problem(stage) ==> {
                &&& count(plan, Release::Variable(p)) == count(vars, p)
                &&& count(plan, Release::Constraint(p)) == count(conss, p)
            }
            &&& !stage_holds_problem(stage) ==> {
                &&& count(plan, Release::Variable(p)) == 0
                &&& count(plan, Release::Constraint(p)) == 0
            }
        }),
{
    let plan = teardown_plan(scip, stage, vars, conss);
    let last = seq![Release::Instance(scip)];
    assert(last.drop_last() =~= Seq::<Release>::empty());
    assert(count(last.drop_last(), Release::Instance(scip)) == 0);
    assert(count(last.drop_last(), Release::Variable(p)) == 0);
    assert(count(last.drop_last(), Release::Constraint(p)) == 0);
    if stage_holds_problem(stage) {
        let rv = vars.map_values(|q: usize| Release::Variable(q));
        let rc = conss.map_values(|q: usize| Release::Constraint(q));
        lemma_count_releases(vars, p, scip);
        lemma_count_releases(conss, p, scip);
        lemma_count_add(rv, rc, Release::Variable(p));
        lemma_count_add(rv, rc, Release::Constraint(p));
        lemma_count_add(rv, rc, Release::Instance(scip));
        lemma_count_add(rv + rc, last, Release::Variable(p));
        lemma_count_add(rv + rc, last, Release::Constraint(p));
        lemma_count_add(rv + rc, last, Release::Instance(scip));
    }
}

/// No teardown releases an object twice: where the engine's enumerations
/// name no address twice, every variable and every constraint is released
/// at most once, and exactly once if the engine holds a problem and names it.
pub proof fn lemma_teardown_never_releases_twice(
    scip: usize,
    stage: u32,
    vars: Seq<usize>,
    conss: Seq<usize>,
    p: usize,
)
    requires
        vars.no_duplicates(),
        conss.no_duplicates(),
    ensures
        count(teardown_plan(scip, stage, vars, conss), Release::Variable(p)) <= 1,
        count(teardown_plan(scip, stage, vars, conss), Release::Constraint(p)) <= 1,
        count(teardown_plan(scip, stage, vars, conss), Release::Instance(scip)) == 1,
        stage_holds_problem(stage) && vars.contains(p) ==> count(
            teardown_plan(scip, stage, vars, conss),
            Release::Variable(p),
        ) == 1,
        stage_holds_problem(stage) && conss.contains(p) ==> count(
            teardown_plan(scip, stage, vars, conss),
            Release::Constraint(p),
        ) == 1,
{
    lemma_teardown_releases_as_listed(scip, stage, vars, conss, p);
    lemma_count_bounds(vars, p);
    lemma_count_bounds(conss, p);
}

/// Counting the captures of variables and constraints that are made of an
/// enumeration of addresses.
proof fn lemma_count_captures(list: Seq<usize>, p: usize)
    ensures
        count(list.map_values(|q: usize| Capture::Variable(q)), Capture::Variable(p)) == count(
            list,
            p,
        ),
        count(list.map_values(|q: usize| Capture::Constraint(q)), Capture::Constraint(p)) == count(
            list,
            p,
        ),
        count(list.map_values(|q: usize| Capture::Variable(q)), Capture::Constraint(p)) == 0,
        count(list.map_values(|q: usize| Capture::Constraint(q)), Capture::Variable(p)) == 0,
    decreases list.len(),
{
    let var = |q: usize| Capture::Variable(q);
    let cons = |q: usize| Capture::Constraint(q);
    if list.len() > 0 {
        lemma_count_captures(list.drop_last(), p);
        assert(list.map_values(var).drop_last() == list.drop_last().map_values(var));
        assert(list.map_values(cons).drop_last() == list.drop_last().map_values(cons));
    }
}

/// Captures and releases balance: a problem that was taken over with the
/// captures of an enumeration, and is torn down while the engine holds it and
/// enumerates the same objects, has every object released exactly as often
/// as it was captured.
pub proof fn lemma_captures_balance_releases(
    scip: usize,
    stage: u32,
    vars: Seq<usize>,
    conss: Seq<usize>,
    p: usize,
)
    requires
        stage_holds_problem(stage),
    ensures
        count(capture_plan(vars, conss), Capture::Variable(p)) == count(
            teardown_plan(scip, stage, vars, conss),
            Release::Variable(p),
        ),
        count(capture_plan(vars, conss), Capture::Constraint(p)) == count(
            teardown_plan(scip, stage, vars, conss),
            Release::Constraint(p),
        ),
        count(capture_plan(vars, conss), Capture::Variable(p)) == count(vars, p),
        count(capture_plan(vars, conss), Capture::Constraint(p)) == count(conss, p),
{
    lemma_teardown_releases_as_listed(scip, stage, vars, conss, p);
    lemma_count_captures(vars, p);
    lemma_count_captures(conss, p);
    lemma_count_add(
        vars.map_values(|q: usize| Capture::Variable(q)),
        conss.map_values(|q: usize| Capture::Constraint(q)),
        Capture::Variable(p),
    );
    lemma_count_add(
        vars.map_values(|q: usize| Capture::Variable(q)),
        conss.map_values(|q: usize| Capture::Constraint(q)),
        Capture::Constraint(p),
    );
}

} // verus!
