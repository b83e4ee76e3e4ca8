//! The model of one optimization run, by lifecycle phase.
//!
//! A model moves through four phases, in this order and never back:
//! [`Unsolved`], [`PluginsIncluded`], [`ProblemCreated`], [`Solved`]. The
//! phase is part of the model's type, so an operation that is not legal in a
//! phase does not exist there. Every operation stands for one exchange with
//! the engine: it takes what the engine answered and gives the model as it
//! is after that answer.
use crate::codes::{
    OBJSENSE_MAXIMIZE, OBJSENSE_MINIMIZE, PARAMSETTING_AGGRESSIVE, PARAMSETTING_DEFAULT,
    PARAMSETTING_FAST, PARAMSETTING_OFF,
};
use crate::constraint::Constraint;
use crate::engine::{count_of, native_count, ScipPtr};
use crate::problem::{find_var, handles_of, indexed, keyed_by_index, list_conss, list_vars, lists};
use crate::retcode::{checked, Retcode};
use crate::scalar::Scalar;
use crate::solution::Solution;
use crate::status::{status_of, Status};
use crate::variable::{all_binary, share, VarId, VarType, Variable};
use std::collections::BTreeMap;
use std::rc::Rc;
use vstd::prelude::*;

verus! {

/// An optimization model in the lifecycle phase `State`.
pub struct Model<State> {
    pub(crate) scip: ScipPtr,
    pub(crate) state: State,
}

/// Phase of a model whose engine instance exists and holds nothing yet.
#[derive(Debug)]
pub struct Unsolved;

/// Phase of a model whose engine has its default plugins.
#[derive(Debug)]
pub struct PluginsIncluded;

/// Phase of a model whose problem exists and is being built.
pub struct ProblemCreated {
    pub(crate) vars: BTreeMap<VarId, Rc<Variable>>,
    pub(crate) conss: Vec<Rc<Constraint>>,
}

/// What the engine reports of a run when solving has ended.
#[derive(Debug, Clone, Copy, PartialEq, Eq, Structural)]
pub struct SolveReport {
    /// Number of solutions that the engine holds.
    pub n_sols: i32,
    /// Address of the best solution; looked at only if there is a solution.
    pub best_sol: usize,
    /// Number of nodes that were processed.
    pub n_nodes: i64,
    /// Number of simplex iterations that were made.
    pub n_lp_iterations: i64,
    /// Objective value of the best solution, or the engine's word for none.
    pub obj_val: Scalar,
    /// Time that solving took, in seconds.
    pub solving_time: Scalar,
}

/// Phase of a model whose problem has been solved.
pub struct Solved {
    pub(crate) vars: BTreeMap<VarId, Rc<Variable>>,
    pub(crate) conss: Vec<Rc<Constraint>>,
    pub(crate) best_sol: Option<Solution>,
    pub(crate) report: SolveReport,
}

impl ProblemCreated {
    #[verifier::type_invariant]
    spec fn keyed(self) -> bool {
        keyed_by_index(self.vars@)
    }

    /// The handles of a problem without variables and constraints.
    fn empty() -> (state: ProblemCreated)
        ensures
            state.vars@ == Map::<VarId, Rc<Variable>>::empty(),
            state.conss@ == Seq::<Rc<Constraint>>::empty(),
    {
        ProblemCreated { vars: BTreeMap::new(), conss: Vec::new() }
    }
}

impl Solved {
    #[verifier::type_invariant]
    spec fn keyed(self) -> bool {
        keyed_by_index(self.vars@)
    }
}

impl<T> Model<T> {
    /// Address of the engine instance that the model owns.
    pub closed spec fn instance(&self) -> usize {
        self.scip.raw
    }
}

/// What handing a model on gives once the engine has answered: the model
/// itself where the call succeeded, and the engine's answer where it failed.
pub open spec fn continued<T>(model: Model<T>, reply: Retcode) -> Result<Model<T>, Retcode> {
    if reply == Retcode::Okay {
        Ok(model)
    } else {
        Err(reply)
    }
}

impl Model<Unsolved> {
    /// The model of an engine instance that was just created at the address
    /// `raw`. Creation must have succeeded.
    pub fn new(reply: Retcode, raw: usize) -> (model: Model<Unsolved>)
        requires
            reply == Retcode::Okay,
        ensures
            model.instance() == raw,
    {
        Model { scip: ScipPtr::new(raw), state: Unsolved }
    }

    /// The model of an engine instance that was to be created at the address
    /// `raw`, or the engine's answer if creation failed.
    pub fn try_new(reply: Retcode, raw: usize) -> (model: Result<Model<Unsolved>, Retcode>)
        ensures
            reply == Retcode::Okay ==> model is Ok && model->Ok_0.instance() == raw,
            reply != Retcode::Okay ==> model == Err::<Model<Unsolved>, Retcode>(reply),
    {
        match reply {
            Retcode::Okay => Ok(Model::new(reply, raw)),
            _ => Err(reply),
        }
    }

    /// Moves on to the phase in which the engine has its default plugins.
    /// Their installation must have succeeded.
    pub fn include_default_plugins(self, reply: Retcode) -> (model: Model<PluginsIncluded>)
        requires
            reply == Retcode::Okay,
        ensures
            model.instance() == self.instance(),
    {
        Model { scip: self.scip, state: PluginsIncluded }
    }

    /// The model after a string parameter was set, or the engine's answer if
    /// it refused the parameter.
    pub fn set_str_param(self, reply: Retcode) -> (model: Result<Model<Unsolved>, Retcode>)
        ensures
            model == continued(self, reply),
    {
        match reply {
            Retcode::Okay => Ok(self),
            _ => Err(reply),
        }
    }

    /// The model after an integer parameter was set, or the engine's answer
    /// if it refused the parameter.
    pub fn set_int_param(self, reply: Retcode) -> (model: Result<Model<Unsolved>, Retcode>)
        ensures
            model == continued(self, reply),
    {
        match reply {
            Retcode::Okay => Ok(self),
            _ => Err(reply),
        }
    }

    /// The model after a long integer parameter was set, or the engine's
    /// answer if it refused the parameter.
    pub fn set_longint_param(self, reply: Retcode) -> (model: Result<Model<Unsolved>, Retcode>)
        ensures
            model == continued(self, reply),
    {
        match reply {
            Retcode::Okay => Ok(self),
            _ => Err(reply),
        }
    }

    /// The model after a real parameter was set, or the engine's answer if it
    /// refused the parameter.
    pub fn set_real_param(self, reply: Retcode) -> (model: Result<Model<Unsolved>, Retcode>)
        ensures
            model == continued(self, reply),
    {
        match reply {
            Retcode::Okay => Ok(self),
            _ => Err(reply),
        }
    }

    /// The model after the presolving emphasis was set. The engine must have
    /// accepted the setting.
    pub fn set_presolving(self, reply: Retcode) -> (model: Model<Unsolved>)
        requires
            reply == Retcode::Okay,
        ensures
            model == self,
    {
        self
    }

    /// The model after the separating emphasis was set. The engine must have
    /// accepted the setting.
    pub fn set_separating(self, reply: Retcode) -> (model: Model<Unsolved>)
        requires
            reply == Retcode::Okay,
        ensures
            model == self,
    {
        self
    }

    /// The model after the heuristics emphasis was set. The engine must have
    /// accepted the setting.
    pub fn set_heuristics(self, reply: Retcode) -> (model: Model<Unsolved>)
        requires
            reply == Retcode::Okay,
        ensures
            model == self,
    {
        self
    }
}

/// The best solution of a run, from what the engine reported when solving
/// ended: the solution at the reported address if the engine holds any
/// solution, and none otherwise.
pub open spec fn best_of(instance: usize, report: SolveReport) -> Option<Solution> {
    if native_count(report.n_sols as i64) > 0 {
        Some(Solution { scip_ptr: instance, raw: report.best_sol })
    } else {
        None
    }
}

impl Model<PluginsIncluded> {
    /// Moves on to the phase in which the problem exists, with no variables
    /// and no constraints yet. The engine must have created the problem.
    pub fn create_prob(self, reply: Retcode) -> (model: Model<ProblemCreated>)
        requires
            reply == Retcode::Okay,
        ensures
            model.instance() == self.instance(),
            model.vars() == Map::<VarId, Rc<Variable>>::empty(),
            model.conss() == Seq::<Rc<Constraint>>::empty(),
    {
        Model { scip: self.scip, state: ProblemCreated::empty() }
    }

    /// Moves on to the phase in which the problem exists, after the engine
    /// has read it from a file, or gives the engine's answer if reading
    /// failed. The model gets one handle for each variable and constraint
    /// that the engine enumerated; the enumerations are not looked at if
    /// reading failed.
    pub fn read_prob(self, reply: Retcode, vars: &Vec<Variable>, conss: &Vec<Constraint>) -> (model:
        Result<Model<ProblemCreated>, Retcode>)
        ensures
            reply != Retcode::Okay ==> model == Err::<Model<ProblemCreated>, Retcode>(reply),
            reply == Retcode::Okay ==> {
                &&& model is Ok
                &&& model->Ok_0.instance() == self.instance()
                &&& model->Ok_0.vars() == indexed(vars@)
                &&& model->Ok_0.conss() == handles_of(conss@)
            },
    {
        match reply {
            Retcode::Okay => {
                let vars = self.scip.get_vars(vars);
                let conss = self.scip.get_conss(conss);
                Ok(Model { scip: self.scip, state: ProblemCreated { vars, conss } })
            },
            _ => Err(reply),
        }
    }
}

impl Model<ProblemCreated> {
    /// The model after the objective sense was set. The engine must have
    /// accepted it.
    pub fn set_obj_sense(self, reply: Retcode) -> (model: Model<ProblemCreated>)
        requires
            reply == Retcode::Okay,
        ensures
            model == self,
    {
        self
    }

    /// Takes up a variable that the engine has created and added to the
    /// problem, and gives its handle. The handle stands under the variable's
    /// index, in place of any that stood there.
    pub fn add_var(&mut self, var: Variable) -> (handle: Rc<Variable>)
        ensures
            *handle == var,
            final(self).vars() == old(self).vars().insert(var.index, handle),
            final(self).conss() == old(self).conss(),
            final(self).instance() == old(self).instance(),
            !old(self).vars().contains_key(var.index) ==> final(self).vars().dom().len() == old(
                self,
            ).vars().dom().len() + 1,
    {
        broadcast use vstd::std_specs::btree::group_btree_axioms;

        let handle = Rc::new(var);
        let mut held = ProblemCreated::empty();
        std::mem::swap(&mut self.state, &mut held);
        proof {
            use_type_invariant(&held);
        }
        let mut vars = held.vars;
        vars.insert(var.index, share(&handle));
        self.state = ProblemCreated { vars, conss: held.conss };
        handle
    }

    /// Takes up a linear constraint that the engine has created over the
    /// given variables and added to the problem, and gives its handle. There
    /// must be one coefficient for each variable.
    pub fn add_cons(
        &mut self,
        vars: &Vec<Rc<Variable>>,
        coefs: &Vec<Scalar>,
        cons: Constraint,
    ) -> (handle: Rc<Constraint>)
        requires
            vars.len() == coefs.len(),
        ensures
            *handle == cons,
            final(self).conss() == old(self).conss().push(handle),
            final(self).vars() == old(self).vars(),
            final(self).instance() == old(self).instance(),
    {
        let handle = Rc::new(cons);
        let mut held = ProblemCreated::empty();
        std::mem::swap(&mut self.state, &mut held);
        proof {
            use_type_invariant(&held);
        }
        let mut conss = held.conss;
        conss.push(share(&handle));
        self.state = ProblemCreated { vars: held.vars, conss };
        handle
    }

    /// Takes up a set partitioning constraint that the engine has created
    /// over the given variables and added to the problem, and gives its
    /// handle. All the variables must be binary.
    pub fn add_cons_set_part(&mut self, vars: &Vec<Rc<Variable>>, cons: Constraint) -> (handle: Rc<
        Constraint,
    >)
        requires
            all_binary(vars@),
        ensures
            *handle == cons,
            final(self).conss() == old(self).conss().push(handle),
            final(self).vars() == old(self).vars(),
            final(self).instance() == old(self).instance(),
    {
        let handle = Rc::new(cons);
        let mut held = ProblemCreated::empty();
        std::mem::swap(&mut self.state, &mut held);
        proof {
            use_type_invariant(&held);
        }
        let mut conss = held.conss;
        conss.push(share(&handle));
        self.state = ProblemCreated { vars: held.vars, conss };
        handle
    }

    /// Notes that a coefficient was added to a linear constraint. The engine
    /// must have accepted it. The model holds the same handles as before.
    pub fn add_cons_coef(&mut self, cons: Rc<Constraint>, var: Rc<Variable>, reply: Retcode)
        requires
            reply == Retcode::Okay,
        ensures
            *final(self) == *old(self),
    {
    }

    /// Notes that a variable was added to a set partitioning, packing or
    /// covering constraint. The variable must be binary, and the engine must
    /// have accepted it. The model holds the same handles as before.
    pub fn add_cons_coef_setppc(&mut self, cons: Rc<Constraint>, var: Rc<Variable>, reply: Retcode)
        requires
            var.var_type == VarType::Binary,
            reply == Retcode::Okay,
        ensures
            *final(self) == *old(self),
    {
    }

    /// The model after a branching rule was installed. The engine must have
    /// accepted it.
    pub fn include_branch_rule(self, reply: Retcode) -> (model: Model<ProblemCreated>)
        requires
            reply == Retcode::Okay,
        ensures
            model == self,
    {
        self
    }

    /// The model after a pricer was installed and activated. The engine must
    /// have accepted it.
    pub fn include_pricer(self, reply: Retcode) -> (model: Model<ProblemCreated>)
        requires
            reply == Retcode::Okay,
        ensures
            model == self,
    {
        self
    }

    /// Moves on to the phase in which the problem has been solved, with the
    /// handles that the model held and what the engine reported of the run.
    /// Solving must have ended without a failure of the engine.
    pub fn solve(self, reply: Retcode, report: SolveReport) -> (model: Model<Solved>)
        requires
            reply == Retcode::Okay,
        ensures
            model.instance() == self.instance(),
            model.vars() == self.vars(),
            model.conss() == self.conss(),
            model.report() == report,
            model.best_sol() == best_of(self.instance(), report),
    {
        proof {
            use_type_invariant(&self.state);
        }
        let mut new_model = Model {
            scip: self.scip,
            state: Solved { vars: self.state.vars, conss: self.state.conss, best_sol: None, report },
        };
        new_model._set_best_sol();
        new_model
    }
}

impl Model<Solved> {
    /// What the engine reported of the run when solving ended.
    pub closed spec fn report(&self) -> SolveReport {
        self.state.report
    }

    /// The best solution of the run, if the engine found any.
    pub closed spec fn best_sol(&self) -> Option<Solution> {
        self.state.best_sol
    }

    /// Sets the best solution from what the engine reported.
    fn _set_best_sol(&mut self)
        ensures
            final(self).best_sol() == best_of(old(self).instance(), old(self).report()),
            final(self).instance() == old(self).instance(),
            final(self).vars() == old(self).vars(),
            final(self).conss() == old(self).conss(),
            final(self).report() == old(self).report(),
    {
        proof {
            use_type_invariant(&self.state);
        }
        if count_of(self.state.report.n_sols as i64) > 0 {
            self.state.best_sol = Some(
                Solution { scip_ptr: self.scip.raw, raw: self.state.report.best_sol },
            );
        } else {
            self.state.best_sol = None;
        }
    }

    /// The best solution of the run. There is none where the engine found no
    /// solution, as for a problem that it proved infeasible.
    pub fn get_best_sol(&self) -> (sol: Option<Box<&Solution>>)
        ensures
            sol is Some == self.best_sol() is Some,
            sol matches Some(s) ==> Some(**s) == self.best_sol(),
    {
        match &self.state.best_sol {
            Some(s) => Some(Box::new(s)),
            None => None,
        }
    }

    /// The number of solutions that the engine held when solving ended.
    pub fn get_n_sols(&self) -> (n: usize)
        ensures
            n == native_count(self.report().n_sols as i64),
    {
        count_of(self.state.report.n_sols as i64)
    }

    /// The objective value of the best solution.
    pub fn get_obj_val(&self) -> (val: Scalar)
        ensures
            val == self.report().obj_val,
    {
        self.state.report.obj_val
    }

    /// The number of nodes that the engine processed.
    pub fn get_n_nodes(&self) -> (n: usize)
        ensures
            n == native_count(self.report().n_nodes),
    {
        count_of(self.state.report.n_nodes)
    }

    /// The time that solving took.
    pub fn get_solving_time(&self) -> (time: Scalar)
        ensures
            time == self.report().solving_time,
    {
        self.state.report.solving_time
    }

    /// The number of simplex iterations that the engine made.
    pub fn get_n_lp_iterations(&self) -> (n: usize)
        ensures
            n == native_count(self.report().n_lp_iterations),
    {
        count_of(self.state.report.n_lp_iterations)
    }
}

/// A model that holds a problem: what can be asked of it in the phase in
/// which the problem is built and in the phase in which it is solved.
pub trait ModelWithProblem: Sized {
    /// The handles of the model's variables, each under its index.
    spec fn vars(&self) -> Map<VarId, Rc<Variable>>;

    /// The handles of the model's constraints, in the order in which the
    /// model got them.
    spec fn conss(&self) -> Seq<Rc<Constraint>>;

    /// All variables of the model: every handle once, in increasing order
    /// of the indices.
    fn get_vars(&self) -> (listed: Vec<Rc<Variable>>)
        ensures
            lists(listed@, self.vars()),
            listed@.len() == self.vars().dom().len(),
    ;

    /// The variable with the given index, if the model holds one.
    fn get_var(&self, var_id: VarId) -> (found: Option<Rc<Variable>>)
        ensures
            found == if self.vars().contains_key(var_id) {
                Some(self.vars()[var_id])
            } else {
                None
            },
            found matches Some(var) ==> var.index == var_id,
    ;

    /// The number of variables that the engine holds, read from the count
    /// that it reported.
    fn get_n_vars(&self, reported: i32) -> (n: usize)
        ensures
            n == native_count(reported as i64),
    ;

    /// The number of constraints that the engine holds, read from the count
    /// that it reported. The model stays as it is.
    fn get_n_conss(&mut self, reported: i32) -> (n: usize)
        ensures
            n == native_count(reported as i64),
            *final(self) == *old(self),
    ;

    /// All constraints of the model, in the order in which the model got
    /// them.
    fn get_conss(&mut self) -> (listed: Vec<Rc<Constraint>>)
        ensures
            listed@ == old(self).conss(),
            *final(self) == *old(self),
    ;

    /// The result of writing the problem to a file: success where the
    /// engine wrote it, the engine's answer where it did not.
    fn write(&self, reply: Retcode) -> (written: Result<(), Retcode>)
        ensures
            written == checked(reply),
    ;
}

impl ModelWithProblem for Model<ProblemCreated> {
    closed spec fn vars(&self) -> Map<VarId, Rc<Variable>> {
        self.state.vars@
    }

    closed spec fn conss(&self) -> Seq<Rc<Constraint>> {
        self.state.conss@
    }

    fn get_vars(&self) -> (listed: Vec<Rc<Variable>>) {
        proof {
            use_type_invariant(&self.state);
        }
        list_vars(&self.state.vars)
    }

    fn get_var(&self, var_id: VarId) -> (found: Option<Rc<Variable>>) {
        proof {
            use_type_invariant(&self.state);
        }
        find_var(&self.state.vars, var_id)
    }

    fn get_n_vars(&self, reported: i32) -> (n: usize) {
        count_of(reported as i64)
    }

    fn get_n_conss(&mut self, reported: i32) -> (n: usize) {
        count_of(reported as i64)
    }

    fn get_conss(&mut self) -> (listed: Vec<Rc<Constraint>>) {
        list_conss(&self.state.conss)
    }

    fn write(&self, reply: Retcode) -> (written: Result<(), Retcode>) {
        reply.check()
    }
}

impl ModelWithProblem for Model<Solved> {
    closed spec fn vars(&self) -> Map<VarId, Rc<Variable>> {
        self.state.vars@
    }

    closed spec fn conss(&self) -> Seq<Rc<Constraint>> {
        self.state.conss@
    }

    fn get_vars(&self) -> (listed: Vec<Rc<Variable>>) {
        proof {
            use_type_invariant(&self.state);
        }
        list_vars(&self.state.vars)
    }

    fn get_var(&self, var_id: VarId) -> (found: Option<Rc<Variable>>) {
        proof {
            use_type_invariant(&self.state);
        }
        find_var(&self.state.vars, var_id)
    }

    fn get_n_vars(&self, reported: i32) -> (n: usize) {
        count_of(reported as i64)
    }

    fn get_n_conss(&mut self, reported: i32) -> (n: usize) {
        count_of(reported as i64)
    }

    fn get_conss(&mut self) -> (listed: Vec<Rc<Constraint>>) {
        list_conss(&self.state.conss)
    }

    fn write(&self, reply: Retcode) -> (written: Result<(), Retcode>) {
        reply.check()
    }
}

/// The parameter that sets how much the engine prints.
pub const PARAM_VERBLEVEL: &'static str = "display/verblevel";

/// The value of [`PARAM_VERBLEVEL`] with which the engine prints nothing.
pub const VERBLEVEL_SILENT: i32 = 0;

/// The parameter that limits the solving time, in seconds.
pub const PARAM_TIME_LIMIT: &'static str = "limits/time";

/// The name of the problem of a model that was made by default.
pub const DEFAULT_PROBLEM_NAME: &'static str = "problem";

/// Whether the engine keeps quiet about the parameters that an emphasis
/// setting changes.
pub const EMPHASIS_QUIET: bool = true;

/// Whether a problem is written with generic names in place of those of its
/// variables and constraints.
pub const WRITE_GENERIC_NAMES: bool = true;

impl<T> Model<T> {
    /// The status that the engine reports for this model, read from its
    /// native code. The code must be one of the status vocabulary.
    pub fn get_status(&self, code: u32) -> (status: Status)
        requires
            status_of(code as int) is Some,
        ensures
            status_of(code as int) == Some(status),
    {
        Status::from(code)
    }

    /// The model after the engine was silenced by setting
    /// [`PARAM_VERBLEVEL`] to [`VERBLEVEL_SILENT`]. The engine must have
    /// accepted the setting.
    pub fn hide_output(self, reply: Retcode) -> (model: Model<T>)
        requires
            reply == Retcode::Okay,
        ensures
            model == self,
    {
        self
    }

    /// The model after [`PARAM_TIME_LIMIT`] was set. The engine must have
    /// accepted the setting.
    pub fn set_time_limit(self, reply: Retcode) -> (model: Model<T>)
        requires
            reply == Retcode::Okay,
        ensures
            model == self,
    {
        self
    }
}

/// An emphasis setting for a group of the engine's parameters.
#[derive(Debug, Clone, Copy, PartialEq, Eq, Structural)]
pub enum ParamSetting {
    /// Use default values.
    Default,
    /// Set to aggressive settings.
    Aggressive,
    /// Set to fast settings.
    Fast,
    /// Turn off.
    Off,
}

/// The native code of an emphasis setting.
pub open spec fn param_setting_code(setting: ParamSetting) -> u32 {
    match setting {
        ParamSetting::Default => PARAMSETTING_DEFAULT,
        ParamSetting::Aggressive => PARAMSETTING_AGGRESSIVE,
        ParamSetting::Fast => PARAMSETTING_FAST,
        ParamSetting::Off => PARAMSETTING_OFF,
    }
}

impl From<ParamSetting> for u32 {
    /// The native code to hand to the engine for an emphasis setting.
    fn from(val: ParamSetting) -> (code: u32) {
        match val {
            ParamSetting::Default => PARAMSETTING_DEFAULT,
            ParamSetting::Aggressive => PARAMSETTING_AGGRESSIVE,
            ParamSetting::Fast => PARAMSETTING_FAST,
            ParamSetting::Off => PARAMSETTING_OFF,
        }
    }
}

impl vstd::std_specs::convert::FromSpecImpl<ParamSetting> for u32 {
    open spec fn obeys_from_spec() -> bool {
        true
    }

    open spec fn from_spec(val: ParamSetting) -> u32 {
        param_setting_code(val)
    }
}

/// The direction in which the objective is optimized.
#[derive(Debug, Clone, Copy, PartialEq, Eq, Structural)]
pub enum ObjSense {
    /// The problem is a minimization problem.
    Minimize,
    /// The problem is a maximization problem.
    Maximize,
}

/// The native code of an objective sense.
pub open spec fn obj_sense_code(sense: ObjSense) -> i32 {
    match sense {
        ObjSense::Maximize => OBJSENSE_MAXIMIZE,
        ObjSense::Minimize => OBJSENSE_MINIMIZE,
    }
}

/// The objective sense that a native code stands for, if it stands for one.
pub open spec fn obj_sense_of(code: i32) -> Option<ObjSense> {
    if code == OBJSENSE_MAXIMIZE {
        Some(ObjSense::Maximize)
    } else if code == OBJSENSE_MINIMIZE {
        Some(ObjSense::Minimize)
    } else {
        None
    }
}

impl ObjSense {
    /// Reads a native objective sense code, or says that the code is none.
    pub fn lookup(sense: i32) -> (found: Option<ObjSense>)
        ensures
            found == obj_sense_of(sense),
    {
        if sense == OBJSENSE_MAXIMIZE {
            Some(ObjSense::Maximize)
        } else if sense == OBJSENSE_MINIMIZE {
            Some(ObjSense::Minimize)
        } else {
            None
        }
    }

    /// Reads a native objective sense code. The code must stand for a sense.
    pub fn from(sense: i32) -> (found: ObjSense)
        requires
            obj_sense_of(sense) is Some,
        ensures
            obj_sense_of(sense) == Some(found),
            obj_sense_code(found) == sense,
    {
        if sense == OBJSENSE_MAXIMIZE {
            ObjSense::Maximize
        } else {
            ObjSense::Minimize
        }
    }
}

impl From<ObjSense> for i32 {
    /// The native code to hand to the engine for an objective sense.
    fn from(val: ObjSense) -> (code: i32) {
        match val {
            ObjSense::Maximize => OBJSENSE_MAXIMIZE,
            ObjSense::Minimize => OBJSENSE_MINIMIZE,
        }
    }
}

impl vstd::std_specs::convert::FromSpecImpl<ObjSense> for i32 {
    open spec fn obeys_from_spec() -> bool {
        true
    }

    open spec fn from_spec(val: ObjSense) -> i32 {
        obj_sense_code(val)
    }
}

} // verus!
