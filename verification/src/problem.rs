//! The handles that a model holds of its problem's variables and constraints.
use crate::constraint::Constraint;
use crate::engine::{capture_plan, native_count, Capture, ScipPtr};
use crate::scalar::Scalar;
use crate::variable::{all_binary, share, VarId, Variable};
use std::collections::BTreeMap;
use std::rc::Rc;
use vstd::prelude::*;
use vstd::std_specs::cmp::OrdSpec;

verus! {

/// The handles made of an enumeration of variables, each under the index of
/// its variable. Where the enumeration names an index twice, the later
/// variable stands under it.
pub open spec fn indexed(reported: Seq<Variable>) -> Map<VarId, Rc<Variable>>
    decreases reported.len(),
{
    if reported.len() == 0 {
        Map::empty()
    } else {
        indexed(reported.drop_last()).insert(reported.last().index, Rc::new(reported.last()))
    }
}

/// Whether every handle of a collection stands under its variable's index.
pub open spec fn keyed_by_index(vars: Map<VarId, Rc<Variable>>) -> bool {
    forall|id: VarId| #[trigger] vars.contains_key(id) ==> vars[id].index == id
}

/// Whether a list holds every handle of a collection exactly once, in
/// increasing order of the indices.
pub open spec fn lists(listed: Seq<Rc<Variable>>, vars: Map<VarId, Rc<Variable>>) -> bool {
    &&& listed.len() == vars.dom().len()
    &&& forall|i: int|
        0 <= i < listed.len() ==> vars.contains_key((#[trigger] listed[i]).index)
            && vars[listed[i].index] == listed[i]
    &&& forall|i: int, j: int|
        0 <= i < j < listed.len() ==> (#[trigger] listed[i]).index < (#[trigger] listed[j]).index
}

/// Lists the handles of a collection in increasing order of their indices.
pub(crate) fn list_vars(vars: &BTreeMap<VarId, Rc<Variable>>) -> (listed: Vec<Rc<Variable>>)
    requires
        keyed_by_index(vars@),
    ensures
        lists(listed@, vars@),
{
    broadcast use vstd::std_specs::btree::group_btree_axioms;

    let mut listed: Vec<Rc<Variable>> = Vec::new();
    let values = vars.values();
    let ghost keys: Seq<VarId> = choose|key_seq: Seq<VarId>|
        {
            &&& vstd::std_specs::btree::increasing_seq(key_seq)
            &&& key_seq.to_set() == vars@.dom()
            &&& key_seq.no_duplicates()
            &&& vstd::std_specs::iter::IteratorSpec::remaining(&values) == key_seq.map(
                |i: int, k: VarId| &vars@[k],
            )
        };
    for var in it: values
        invariant
            keyed_by_index(vars@),
            vstd::std_specs::btree::increasing_seq(keys),
            keys.to_set() == vars@.dom(),
            keys.no_duplicates(),
            it.seq() == keys.map(|i: int, k: VarId| &vars@[k]),
            listed@.len() == it.index(),
            forall|i: int| 0 <= i < listed@.len() ==> #[trigger] listed@[i] == vars@[keys[i]],
    {
        listed.push(share(var));
    }
    proof {
        keys.unique_seq_to_set();
        assert forall|i: int| 0 <= i < listed@.len() implies vars@.contains_key(
            (#[trigger] listed@[i]).index,
        ) && vars@[listed@[i].index] == listed@[i] by {
            assert(keys.to_set().contains(keys[i]));
        }
        assert forall|i: int, j: int| 0 <= i < j < listed@.len() implies (#[trigger] listed@[i]).index
            < (#[trigger] listed@[j]).index by {
            assert(keys.to_set().contains(keys[i]));
            assert(keys.to_set().contains(keys[j]));
            assert(vstd::laws_cmp::obeys_cmp::<VarId>());
            assert(keys[i].cmp_spec(&keys[j]) is Less);
        }
    }
    listed
}

/// The handles made of an enumeration of constraints, in its order.
pub open spec fn handles_of(reported: Seq<Constraint>) -> Seq<Rc<Constraint>> {
    reported.map_values(|c: Constraint| Rc::new(c))
}

/// The indices that an enumeration of variables names.
pub open spec fn indices_of(reported: Seq<Variable>) -> Set<VarId> {
    Set::new(|id: VarId| exists|i: int| 0 <= i < reported.len() && #[trigger] reported[i].index == id)
}

/// Whether no two variables of an enumeration share an index.
pub open spec fn distinct_indices(reported: Seq<Variable>) -> bool {
    forall|i: int, j: int|
        0 <= i < j < reported.len() ==> (#[trigger] reported[i]).index != (
        #[trigger] reported[j]).index
}

/// One native call in the making of a constraint that the engine has
/// created empty.
#[derive(Debug, Clone, Copy, PartialEq, Eq, Structural)]
pub enum ConsStep {
    /// Add the variable at this address to the linear constraint, with this
    /// coefficient.
    Coef { var: usize, coef: Scalar },
    /// Add the variable at this address to the set partitioning constraint.
    Member { var: usize },
    /// Add the constraint to the problem.
    Add,
}

/// The calls that complete a linear constraint, in order: one for each
/// variable, with the coefficient that stands at its place, and then the one
/// that adds the constraint to the problem.
pub open spec fn linear_steps(vars: Seq<Rc<Variable>>, coefs: Seq<Scalar>) -> Seq<ConsStep> {
    Seq::new(vars.len(), |i: int| ConsStep::Coef { var: vars[i].raw, coef: coefs[i] }).push(
        ConsStep::Add,
    )
}

/// The calls that complete a set partitioning constraint, in order: one for
/// each variable, and then the one that adds the constraint to the problem.
pub open spec fn setppc_steps(vars: Seq<Rc<Variable>>) -> Seq<ConsStep> {
    Seq::new(vars.len(), |i: int| ConsStep::Member { var: vars[i].raw }).push(ConsStep::Add)
}

/// Plans the making of a linear constraint over the given variables. The
/// calls are made in the plan's order, and none after one that failed. There
/// must be one coefficient for each variable.
pub fn linear_plan(vars: &Vec<Rc<Variable>>, coefs: &Vec<Scalar>) -> (plan: Vec<ConsStep>)
    requires
        vars.len() == coefs.len(),
    ensures
        plan@ == linear_steps(vars@, coefs@),
{
    let mut plan: Vec<ConsStep> = Vec::new();
    let mut i: usize = 0;
    while i < vars.len()
        invariant
            i <= vars.len(),
            vars.len() == coefs.len(),
            plan@.len() == i,
            forall|k: int|
                0 <= k < i ==> #[trigger] plan@[k] == (ConsStep::Coef {
                    var: vars@[k].raw,
                    coef: coefs@[k],
                }),
        decreases vars.len() - i,
    {
        plan.push(ConsStep::Coef { var: vars[i].raw, coef: coefs[i] });
        i += 1;
    }
    plan.push(ConsStep::Add);
    proof {
        assert(plan@ =~= linear_steps(vars@, coefs@));
    }
    plan
}

/// Plans the making of a set partitioning constraint over the given
/// variables. The calls are made in the plan's order, and none after one
/// that failed. Such a constraint takes binary variables only.
pub fn setppc_plan(vars: &Vec<Rc<Variable>>) -> (plan: Vec<ConsStep>)
    requires
        all_binary(vars@),
    ensures
        plan@ == setppc_steps(vars@),
{
    let mut plan: Vec<ConsStep> = Vec::new();
    let mut i: usize = 0;
    while i < vars.len()
        invariant
            i <= vars.len(),
            plan@.len() == i,
            forall|k: int|
                0 <= k < i ==> #[trigger] plan@[k] == (ConsStep::Member { var: vars@[k].raw }),
        decreases vars.len() - i,
    {
        plan.push(ConsStep::Member { var: vars[i].raw });
        i += 1;
    }
    plan.push(ConsStep::Add);
    proof {
        assert(plan@ =~= setppc_steps(vars@));
    }
    plan
}

/// The native addresses of a list of variables, in the list's order.
pub open spec fn var_addresses(vars: Seq<Variable>) -> Seq<usize> {
    vars.map_values(|v: Variable| v.raw)
}

/// The native addresses of a list of constraints, in the list's order.
pub open spec fn cons_addresses(conss: Seq<Constraint>) -> Seq<usize> {
    conss.map_values(|c: Constraint| c.raw)
}

impl ScipPtr {
    /// Plans the captures that take over a problem which the engine has
    /// read: one for every variable and every constraint that it enumerated,
    /// so that the engine counts the handle that the model is going to hold.
    pub fn captures(&self, vars: &Vec<Variable>, conss: &Vec<Constraint>) -> (plan: Vec<Capture>)
        ensures
            plan@ == capture_plan(var_addresses(vars@), cons_addresses(conss@)),
    {
        let mut plan: Vec<Capture> = Vec::new();
        let mut i: usize = 0;
        while i < vars.len()
            invariant
                i <= vars.len(),
                plan@.len() == i,
                forall|k: int| 0 <= k < i ==> #[trigger] plan@[k] == Capture::Variable(vars@[k].raw),
            decreases vars.len() - i,
        {
            plan.push(Capture::Variable(vars[i].raw));
            i += 1;
        }
        let mut j: usize = 0;
        while j < conss.len()
            invariant
                j <= conss.len(),
                plan@.len() == vars.len() + j,
                forall|k: int|
                    0 <= k < vars.len() ==> #[trigger] plan@[k] == Capture::Variable(vars@[k].raw),
                forall|k: int|
                    0 <= k < j ==> #[trigger] plan@[vars.len() + k] == Capture::Constraint(
                        conss@[k].raw,
                    ),
            decreases conss.len() - j,
        {
            plan.push(Capture::Constraint(conss[j].raw));
            j += 1;
        }
        proof {
            let target = capture_plan(var_addresses(vars@), cons_addresses(conss@));
            assert(plan@.len() == target.len());
            assert forall|k: int| 0 <= k < plan@.len() implies plan@[k] == target[k] by {
                if k >= vars.len() {
                    assert(plan@[vars.len() + (k - vars.len())] == Capture::Constraint(
                        conss@[k - vars.len()].raw,
                    ));
                }
            }
            assert(plan@ =~= target);
        }
        plan
    }

    /// Makes the handles of the variables that the engine enumerated, each
    /// under its index. The engine is to hold one capture for each of them.
    pub fn get_vars(&self, reported: &Vec<Variable>) -> (vars: BTreeMap<VarId, Rc<Variable>>)
        ensures
            vars@ == indexed(reported@),
            keyed_by_index(vars@),
    {
        let mut vars: BTreeMap<VarId, Rc<Variable>> = BTreeMap::new();
        let mut i: usize = 0;
        while i < reported.len()
            invariant
                i <= reported.len(),
                vars@ == indexed(reported@.take(i as int)),
                keyed_by_index(vars@),
            decreases reported.len() - i,
        {
            let var = reported[i];
            proof {
                assert(reported@.take(i + 1).drop_last() == reported@.take(i as int));
            }
            vars.insert(var.index, Rc::new(var));
            i += 1;
        }
        proof {
            assert(reported@.take(reported.len() as int) == reported@);
        }
        vars
    }

    /// Makes the handles of the constraints that the engine enumerated, in
    /// its order. The engine is to hold one capture for each of them.
    pub fn get_conss(&self, reported: &Vec<Constraint>) -> (conss: Vec<Rc<Constraint>>)
        ensures
            conss@ == handles_of(reported@),
    {
        let mut conss: Vec<Rc<Constraint>> = Vec::with_capacity(reported.len());
        let mut i: usize = 0;
        while i < reported.len()
            invariant
                i <= reported.len(),
                conss@ == handles_of(reported@.take(i as int)),
            decreases reported.len() - i,
        {
            conss.push(Rc::new(reported[i]));
            proof {
                assert(reported@.take(i + 1) == reported@.take(i as int).push(reported@[i as int]));
                assert(handles_of(reported@.take(i + 1)) == handles_of(reported@.take(i as int)).push(
                    Rc::new(reported@[i as int]),
                ));
            }
            i += 1;
        }
        proof {
            assert(reported@.take(reported.len() as int) == reported@);
        }
        conss
    }
}

/// Looks a handle up by the index of its variable.
pub(crate) fn find_var(vars: &BTreeMap<VarId, Rc<Variable>>, var_id: VarId) -> (found: Option<
    Rc<Variable>,
>)
    ensures
        found == if vars@.contains_key(var_id) {
            Some(vars@[var_id])
        } else {
            None
        },
{
    broadcast use vstd::std_specs::btree::group_btree_axioms;

    match vars.get(&var_id) {
        Some(var) => Some(share(var)),
        None => None,
    }
}

/// Lists the handles of a model's constraints in the order in which the
/// model got them.
pub(crate) fn list_conss(conss: &Vec<Rc<Constraint>>) -> (listed: Vec<Rc<Constraint>>)
    ensures
        listed@ == conss@,
{
    let mut listed: Vec<Rc<Constraint>> = Vec::with_capacity(conss.len());
    let mut i: usize = 0;
    while i < conss.len()
        invariant
            i <= conss.len(),
            listed@ == conss@.take(i as int),
        decreases conss.len() - i,
    {
        listed.push(share(&conss[i]));
        proof {
            assert(conss@.take(i + 1) == conss@.take(i as int).push(conss@[i as int]));
        }
        i += 1;
    }
    proof {
        assert(conss@.take(conss.len() as int) == conss@);
    }
    listed
}

/// The handles made of an enumeration stand under exactly the indices that
/// the enumeration names, each under the index of its variable.
pub proof fn lemma_indexed_domain(reported: Seq<Variable>)
    ensures
        indexed(reported).dom() == indices_of(reported),
        indexed(reported).dom().finite(),
        keyed_by_index(indexed(reported)),
    decreases reported.len(),
{
    if reported.len() == 0 {
        assert(indexed(reported).dom() =~= indices_of(reported));
    } else {
        let front = reported.drop_last();
        lemma_indexed_domain(front);
        assert forall|id: VarId| indexed(reported).dom().contains(id) == indices_of(
            reported,
        ).contains(id) by {
            if indices_of(reported).contains(id) {
                let i = choose|i: int| 0 <= i < reported.len() && #[trigger] reported[i].index == id;
                if i < front.len() {
                    assert(front[i].index == id);
                    assert(indices_of(front).contains(id));
                }
            }
            if indexed(reported).dom().contains(id) {
                if id != reported.last().index {
                    assert(indices_of(front).contains(id));
                    let i = choose|i: int| 0 <= i < front.len() && #[trigger] front[i].index == id;
                    assert(reported[i].index == id);
                } else {
                    assert(reported[reported.len() - 1].index == id);
                }
            }
        }
        assert(indexed(reported).dom() =~= indices_of(reported));
    }
}

/// Where no two variables of an enumeration share an index, there are as
/// many handles as the enumeration names variables, and each variable's
/// handle stands under its index.
pub proof fn lemma_indexed_counts(reported: Seq<Variable>)
    requires
        distinct_indices(reported),
    ensures
        indexed(reported).dom().finite(),
        indexed(reported).dom().len() == reported.len(),
        forall|i: int|
            0 <= i < reported.len() ==> indexed(reported).contains_key(
                (#[trigger] reported[i]).index,
            ) && indexed(reported)[reported[i].index] == Rc::new(reported[i]),
    decreases reported.len(),
{
    lemma_indexed_domain(reported);
    if reported.len() > 0 {
        let front = reported.drop_last();
        assert(distinct_indices(front)) by {
            assert forall|i: int, j: int| 0 <= i < j < front.len() implies (#[trigger] front[i]).index
                != (#[trigger] front[j]).index by {
                assert(reported[i].index != reported[j].index);
            }
        }
        lemma_indexed_counts(front);
        lemma_indexed_domain(front);
        let last = reported.last();
        if indexed(front).dom().contains(last.index) {
            let i = choose|i: int| 0 <= i < front.len() && #[trigger] front[i].index == last.index;
            assert(reported[i].index != reported[reported.len() - 1].index);
        }
        assert forall|i: int| 0 <= i < reported.len() implies indexed(reported).contains_key(
            (#[trigger] reported[i]).index,
        ) && indexed(reported)[reported[i].index] == Rc::new(reported[i]) by {
            if i < front.len() {
                assert(front[i] == reported[i]);
                assert(reported[i].index != reported[reported.len() - 1].index);
            }
        }
    }
}

/// Taking up one more variable is enumerating one more: the handles of an
/// enumeration to which a variable was added are those of the enumeration
/// with the new variable's handle under its index.
pub proof fn lemma_indexed_push(reported: Seq<Variable>, var: Variable)
    ensures
        indexed(reported.push(var)) == indexed(reported).insert(var.index, Rc::new(var)),
{
    assert(reported.push(var).drop_last() == reported);
}

/// A listing names every handle of the collection: each index under which
/// a handle stands is found in the listing, with that handle.
pub proof fn lemma_lists_every_handle(
    listed: Seq<Rc<Variable>>,
    vars: Map<VarId, Rc<Variable>>,
    id: VarId,
)
    requires
        lists(listed, vars),
        vars.dom().finite(),
        vars.contains_key(id),
    ensures
        exists|j: int| 0 <= j < listed.len() && #[trigger] listed[j] == vars[id] && listed[j].index == id,
{
    let ids = listed.map_values(|v: Rc<Variable>| v.index);
    assert(ids.no_duplicates()) by {
        assert forall|i: int, j: int| 0 <= i < ids.len() && 0 <= j < ids.len() && i != j implies ids[i]
            != ids[j] by {
            if i < j {
                assert(listed[i].index < listed[j].index);
            } else {
                assert(listed[j].index < listed[i].index);
            }
        }
    }
    ids.unique_seq_to_set();
    assert(ids.to_set().subset_of(vars.dom())) by {
        assert forall|k: VarId| ids.to_set().contains(k) implies vars.dom().contains(k) by {
            let i = choose|i: int| 0 <= i < ids.len() && ids[i] == k;
            assert(vars.contains_key(listed[i].index));
        }
    }
    vstd::set_lib::lemma_len_subset(ids.to_set(), vars.dom());
    vstd::set_lib::lemma_subset_equality(ids.to_set(), vars.dom());
    assert(ids.to_set().contains(id));
    let j = choose|j: int| 0 <= j < ids.len() && ids[j] == id;
    assert(listed[j].index == id);
    assert(listed[j] == vars[id]);
}

/// Where the engine gave every variable an index of its own, listing the
/// model's variables gives as many handles as the engine enumerated or
/// confirmed variables, and every one of those variables is among them,
/// however many there were and in whichever order they came.
pub proof fn lemma_listing_counts_variables(reported: Seq<Variable>, listed: Seq<Rc<Variable>>)
    requires
        distinct_indices(reported),
        lists(listed, indexed(reported)),
    ensures
        listed.len() == reported.len(),
        forall|i: int|
            0 <= i < reported.len() ==> exists|j: int|
                0 <= j < listed.len() && #[trigger] listed[j] == Rc::new(#[trigger] reported[i]),
{
    lemma_indexed_counts(reported);
    assert forall|i: int| 0 <= i < reported.len() implies exists|j: int|
        0 <= j < listed.len() && #[trigger] listed[j] == Rc::new(#[trigger] reported[i]) by {
        assert(indexed(reported).contains_key(reported[i].index));
        lemma_lists_every_handle(listed, indexed(reported), reported[i].index);
    }
}

/// Where the engine gave every variable an index of its own and reports as
/// many variables as it enumerated or confirmed, listing the model's
/// variables gives as many handles as the engine's count says.
pub proof fn lemma_listing_matches_engine_count(
    reported: Seq<Variable>,
    listed: Seq<Rc<Variable>>,
    n_vars: i32,
)
    requires
        distinct_indices(reported),
        lists(listed, indexed(reported)),
        n_vars == reported.len(),
    ensures
        listed.len() == native_count(n_vars as i64),
{
    lemma_listing_counts_variables(reported, listed);
}

} // verus!
