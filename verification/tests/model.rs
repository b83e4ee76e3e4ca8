use russcip::constraint::Constraint;
use russcip::model::{
    Model, ModelWithProblem, ObjSense, ParamSetting, ProblemCreated, SolveReport,
    DEFAULT_PROBLEM_NAME, EMPHASIS_QUIET, PARAM_TIME_LIMIT, PARAM_VERBLEVEL, VERBLEVEL_SILENT,
    WRITE_GENERIC_NAMES,
};
use russcip::problem::{linear_plan, setppc_plan, ConsStep};
use russcip::retcode::Retcode;
use russcip::scalar::Scalar;
use russcip::solution::Solution;
use russcip::status::Status;
use russcip::variable::{is_all_binary, VarType, Variable};
use std::rc::Rc;

const SCIP: usize = 0x1000;
const OPTIMAL: u32 = 1;
const INFEASIBLE: u32 = 2;
const UNBOUNDED: u32 = 3;
const TIMELIMIT: u32 = 23;

fn num(x: f64) -> Scalar {
    Scalar::from_bits(x.to_bits())
}

fn report(n_sols: i32, best_sol: usize, n_nodes: i64, n_lp_iterations: i64, obj: f64) -> SolveReport {
    SolveReport {
        n_sols,
        best_sol,
        n_nodes,
        n_lp_iterations,
        obj_val: num(obj),
        solving_time: num(0.25),
    }
}

fn empty_problem() -> Model<ProblemCreated> {
    Model::new(Retcode::Okay, SCIP)
        .hide_output(Retcode::Okay)
        .include_default_plugins(Retcode::Okay)
        .create_prob(Retcode::Okay)
        .set_obj_sense(Retcode::Okay)
}

fn create_model() -> Model<ProblemCreated> {
    let mut model = empty_problem();
    let x1 = model.add_var(Variable::new(0x2000, 0, VarType::Integer));
    let x2 = model.add_var(Variable::new(0x2100, 1, VarType::Integer));
    let both = vec![x1.clone(), x2.clone()];
    let c1 = vec![num(2.), num(1.)];
    let c2 = vec![num(1.), num(2.)];
    model.add_cons(&both, &c1, Constraint::new(0x3000));
    model.add_cons(&both, &c2, Constraint::new(0x3100));
    model
}

#[test]
fn solve_from_lp_file() {
    let vars = vec![
        Variable::new(0x2000, 0, VarType::Integer),
        Variable::new(0x2100, 1, VarType::Integer),
    ];
    let conss = vec![Constraint::new(0x3000), Constraint::new(0x3100)];
    let mut model = Model::new(Retcode::Okay, SCIP)
        .hide_output(Retcode::Okay)
        .include_default_plugins(Retcode::Okay)
        .read_prob(Retcode::Okay, &vars, &conss)
        .unwrap()
        .solve(Retcode::Okay, report(1, 0x4000, 1, 2, 200.));
    let status = model.get_status(OPTIMAL);
    assert_eq!(status, Status::Optimal);

    let obj_val = model.get_obj_val();
    assert_eq!(f64::from_bits(obj_val.to_bits()), 200.);

    let conss = model.get_conss();
    assert_eq!(conss.len(), 2);

    let sol = model.get_best_sol().unwrap();
    assert_eq!(**sol, Solution { scip_ptr: SCIP, raw: 0x4000 });
    let vars = model.get_vars();
    assert_eq!(vars.len(), 2);
    assert_eq!(vars[0].raw, 0x2000);
    assert_eq!(vars[1].raw, 0x2100);
}

#[test]
fn read_prob_failure_gives_the_answer() {
    let vars = vec![Variable::new(0x2000, 0, VarType::Integer)];
    let conss = vec![Constraint::new(0x3000)];
    let model = Model::new(Retcode::Okay, SCIP).include_default_plugins(Retcode::Okay);
    match model.read_prob(Retcode::NoFile, &vars, &conss) {
        Err(e) => assert_eq!(e, Retcode::NoFile),
        Ok(_) => panic!("a failed read must not give a model"),
    }
    let model = Model::new(Retcode::Okay, SCIP).include_default_plugins(Retcode::Okay);
    match model.read_prob(Retcode::ReadError, &vars, &conss) {
        Err(e) => assert_eq!(e, Retcode::ReadError),
        Ok(_) => panic!("a failed read must not give a model"),
    }
}

#[test]
fn set_time_limit() {
    let vars = vec![
        Variable::new(0x2000, 0, VarType::Integer),
        Variable::new(0x2100, 1, VarType::Integer),
    ];
    let conss = vec![Constraint::new(0x3000), Constraint::new(0x3100)];
    let model = Model::new(Retcode::Okay, SCIP)
        .hide_output(Retcode::Okay)
        .set_time_limit(Retcode::Okay)
        .include_default_plugins(Retcode::Okay)
        .read_prob(Retcode::Okay, &vars, &conss)
        .unwrap()
        .solve(Retcode::Okay, report(0, 0, 0, 0, 1e20));
    let status = model.get_status(TIMELIMIT);
    assert_eq!(status, Status::TimeLimit);
    assert!(f64::from_bits(model.get_solving_time().to_bits()) < 0.5);
    assert_eq!(model.get_n_nodes(), 0);
    assert_eq!(model.get_n_lp_iterations(), 0);
}

#[test]
fn add_variable() {
    let mut model = empty_problem();
    let x1_id = model.add_var(Variable::new(0x2000, 0, VarType::Integer)).get_index();
    let x2_id = model.add_var(Variable::new(0x2100, 1, VarType::Continuous)).get_index();
    let x1 = model.get_var(x1_id).unwrap();
    let x2 = model.get_var(x2_id).unwrap();
    assert_eq!(model.get_n_vars(2), 2);
    assert_eq!(model.get_vars().len(), 2);
    assert!(x1.raw != x2.raw);
    assert!(x1.get_type() == VarType::Integer);
    assert!(x2.get_type() == VarType::Continuous);
    assert!(x1.get_index() == 0);
    assert!(x2.get_index() == 1);
    assert!(model.get_var(2).is_none());
}

#[test]
fn build_model_with_functions() {
    let mut model = create_model();
    assert_eq!(model.get_vars().len(), 2);
    assert_eq!(model.get_n_conss(2), 2);

    let conss = model.get_conss();
    assert_eq!(conss.len(), 2);
    assert_eq!(conss[0].raw, 0x3000);
    assert_eq!(conss[1].raw, 0x3100);

    let solved_model = model.solve(Retcode::Okay, report(2, 0x4000, 1, 3, 200.));

    let status = solved_model.get_status(OPTIMAL);
    assert_eq!(status, Status::Optimal);

    let obj_val = solved_model.get_obj_val();
    assert_eq!(f64::from_bits(obj_val.to_bits()), 200.);

    let sol = solved_model.get_best_sol().unwrap();
    assert_eq!(sol.raw, 0x4000);
    assert_eq!(sol.scip_ptr, SCIP);
    let vars = solved_model.get_vars();
    assert_eq!(vars.len(), 2);
    assert_eq!(vars[0].get_index(), 0);
    assert_eq!(vars[1].get_index(), 1);
    assert_eq!(solved_model.get_n_sols(), 2);
    assert_eq!(solved_model.get_n_nodes(), 1);
    assert_eq!(solved_model.get_n_lp_iterations(), 3);
}

#[test]
fn unbounded_model() {
    let mut model = Model::new(Retcode::Okay, SCIP)
        .include_default_plugins(Retcode::Okay)
        .create_prob(Retcode::Okay)
        .set_obj_sense(Retcode::Okay)
        .hide_output(Retcode::Okay);

    model.add_var(Variable::new(0x2000, 0, VarType::Integer));
    model.add_var(Variable::new(0x2100, 1, VarType::Integer));

    let solved_model = model.solve(Retcode::Okay, report(1, 0x4000, 1, 0, 1e20));

    let status = solved_model.get_status(UNBOUNDED);
    assert_eq!(status, Status::Unbounded);

    let sol = solved_model.get_best_sol();
    assert!(sol.is_some());
}

#[test]
fn infeasible_model() {
    let mut model = Model::new(Retcode::Okay, SCIP)
        .include_default_plugins(Retcode::Okay)
        .create_prob(Retcode::Okay)
        .set_obj_sense(Retcode::Okay)
        .hide_output(Retcode::Okay);

    let var = model.add_var(Variable::new(0x2000, 0, VarType::Integer));

    model.add_cons(&vec![var], &vec![num(1.)], Constraint::new(0x3000));

    let solved_model = model.solve(Retcode::Okay, report(0, 0x4000, 1, 0, -1e20));

    let status = solved_model.get_status(INFEASIBLE);
    assert_eq!(status, Status::Infeasible);

    assert_eq!(solved_model.get_n_sols(), 0);
    let sol = solved_model.get_best_sol();
    assert!(sol.is_none());
}

#[test]
fn add_cons_coef() {
    let mut model = empty_problem();

    let x1 = model.add_var(Variable::new(0x2000, 0, VarType::Integer));
    let x2 = model.add_var(Variable::new(0x2100, 1, VarType::Integer));
    let cons = model.add_cons(&vec![], &vec![], Constraint::new(0x3000));

    model.add_cons_coef(cons.clone(), x1, Retcode::Okay);
    model.add_cons_coef(cons, x2, Retcode::Okay);
    assert_eq!(model.get_vars().len(), 2);
    assert_eq!(model.get_conss().len(), 1);

    let solved_model = model.solve(Retcode::Okay, report(1, 0x4000, 1, 0, 1e20));
    let status = solved_model.get_status(UNBOUNDED);
    assert_eq!(status, Status::Unbounded);
}

#[test]
fn set_partitioning() {
    let mut model = empty_problem();

    let x1 = model.add_var(Variable::new(0x2000, 0, VarType::Binary));
    let x2 = model.add_var(Variable::new(0x2100, 1, VarType::Binary));
    let none: Vec<Rc<Variable>> = vec![];
    assert!(is_all_binary(&none));
    assert_eq!(setppc_plan(&none), vec![ConsStep::Add]);
    let cons1 = model.add_cons_set_part(&none, Constraint::new(0x3000));
    model.add_cons_coef_setppc(cons1, x1, Retcode::Okay);

    let second = vec![x2];
    assert!(is_all_binary(&second));
    assert_eq!(setppc_plan(&second), vec![ConsStep::Member { var: 0x2100 }, ConsStep::Add]);
    let _cons2 = model.add_cons_set_part(&second, Constraint::new(0x3100));
    assert_eq!(model.get_conss().len(), 2);

    let solved_model = model.solve(Retcode::Okay, report(1, 0x4000, 1, 0, 7.));
    let status = solved_model.get_status(OPTIMAL);
    assert_eq!(status, Status::Optimal);
    assert_eq!(f64::from_bits(solved_model.get_obj_val().to_bits()), 7.);
}

#[test]
fn try_new_gives_the_engines_answer() {
    assert!(Model::try_new(Retcode::Okay, SCIP).is_ok());
    match Model::try_new(Retcode::NoMemory, 0) {
        Err(e) => assert_eq!(e, Retcode::NoMemory),
        Ok(_) => panic!("a failed creation must not give a model"),
    }
    match Model::try_new(Retcode::Unknown, SCIP) {
        Err(e) => assert_eq!(e, Retcode::Unknown),
        Ok(_) => panic!("a failed creation must not give a model"),
    }
}

#[test]
fn parameters_are_refused_with_the_engines_answer() {
    let model = Model::new(Retcode::Okay, SCIP);
    let model = model.set_str_param(Retcode::Okay).unwrap();
    let model = model.set_int_param(Retcode::Okay).unwrap();
    let model = model.set_longint_param(Retcode::Okay).unwrap();
    let model = model.set_real_param(Retcode::Okay).unwrap();
    match model.set_int_param(Retcode::ParameterUnknown) {
        Err(e) => assert_eq!(e, Retcode::ParameterUnknown),
        Ok(_) => panic!("a refused parameter must not give a model"),
    }
    match Model::new(Retcode::Okay, SCIP).set_str_param(Retcode::ParameterWrongType) {
        Err(e) => assert_eq!(e, Retcode::ParameterWrongType),
        Ok(_) => panic!("a refused parameter must not give a model"),
    }
    match Model::new(Retcode::Okay, SCIP).set_longint_param(Retcode::ParameterWrongVal) {
        Err(e) => assert_eq!(e, Retcode::ParameterWrongVal),
        Ok(_) => panic!("a refused parameter must not give a model"),
    }
    match Model::new(Retcode::Okay, SCIP).set_real_param(Retcode::Error) {
        Err(e) => assert_eq!(e, Retcode::Error),
        Ok(_) => panic!("a refused parameter must not give a model"),
    }
}

#[test]
fn emphasis_settings_keep_the_model() {
    let model = Model::new(Retcode::Okay, SCIP)
        .set_presolving(Retcode::Okay)
        .set_separating(Retcode::Okay)
        .set_heuristics(Retcode::Okay);
    let mut model = model.include_default_plugins(Retcode::Okay).create_prob(Retcode::Okay);
    assert_eq!(model.get_vars().len(), 0);
    assert_eq!(model.get_conss().len(), 0);
    assert!(model.get_vars().is_empty());
    assert!(model.get_conss().is_empty());
}

#[test]
fn native_codes_of_settings() {
    assert_eq!(u32::from(ParamSetting::Default), 0);
    assert_eq!(u32::from(ParamSetting::Aggressive), 1);
    assert_eq!(u32::from(ParamSetting::Fast), 2);
    assert_eq!(u32::from(ParamSetting::Off), 3);
    assert_eq!(i32::from(ObjSense::Maximize), -1);
    assert_eq!(i32::from(ObjSense::Minimize), 1);
    assert_eq!(ObjSense::from(-1), ObjSense::Maximize);
    assert_eq!(ObjSense::from(1), ObjSense::Minimize);
    assert_eq!(ObjSense::lookup(0), None);
    assert_eq!(ObjSense::lookup(2), None);
    assert_eq!(ObjSense::lookup(-1), Some(ObjSense::Maximize));
    assert_eq!(VarType::Binary.code(), 0);
    assert_eq!(VarType::Integer.code(), 1);
    assert_eq!(VarType::ImplInt.code(), 2);
    assert_eq!(VarType::Continuous.code(), 3);
    assert_eq!(VarType::lookup(3), Some(VarType::Continuous));
    assert_eq!(VarType::lookup(4), None);
}

#[test]
fn names_that_the_library_fixes() {
    assert_eq!(PARAM_VERBLEVEL, "display/verblevel");
    assert_eq!(VERBLEVEL_SILENT, 0);
    assert_eq!(PARAM_TIME_LIMIT, "limits/time");
    assert_eq!(DEFAULT_PROBLEM_NAME, "problem");
    assert!(EMPHASIS_QUIET);
    assert!(WRITE_GENERIC_NAMES);
}

#[test]
fn variables_are_listed_by_index() {
    let mut model = empty_problem();
    model.add_var(Variable::new(0x2300, 7, VarType::Integer));
    model.add_var(Variable::new(0x2000, 2, VarType::Binary));
    model.add_var(Variable::new(0x2200, 5, VarType::Continuous));
    model.add_var(Variable::new(0x2100, 0, VarType::ImplInt));
    let listed = model.get_vars();
    let indices: Vec<usize> = listed.iter().map(|v| v.get_index()).collect();
    assert_eq!(indices, vec![0, 2, 5, 7]);
    let raws: Vec<usize> = listed.iter().map(|v| v.raw).collect();
    assert_eq!(raws, vec![0x2100, 0x2000, 0x2200, 0x2300]);
    assert_eq!(model.get_vars().len(), 4);
    assert_eq!(model.get_var(5).unwrap().raw, 0x2200);
    assert!(model.get_var(1).is_none());
}

#[test]
fn a_repeated_index_replaces_the_handle() {
    let mut model = empty_problem();
    model.add_var(Variable::new(0x2000, 3, VarType::Integer));
    model.add_var(Variable::new(0x2100, 3, VarType::Binary));
    assert_eq!(model.get_vars().len(), 1);
    let var = model.get_var(3).unwrap();
    assert_eq!(*var, Variable::new(0x2100, 3, VarType::Binary));
}

#[test]
fn handles_count_the_additions() {
    let mut model = empty_problem();
    for i in 0..50usize {
        model.add_var(Variable::new(0x2000 + 16 * i, i, VarType::Integer));
        assert_eq!(model.get_vars().len(), i + 1);
        assert_eq!(model.get_vars().len(), i + 1);
    }
    for i in 0..20usize {
        model.add_cons(&vec![], &vec![], Constraint::new(0x9000 + 16 * i));
        assert_eq!(model.get_conss().len(), i + 1);
        assert_eq!(model.get_conss().len(), i + 1);
    }
    let mut solved = model.solve(Retcode::Okay, report(0, 0, 1, 0, 0.));
    assert_eq!(solved.get_vars().len(), 50);
    assert_eq!(solved.get_vars().len(), 50);
    assert_eq!(solved.get_conss().len(), 20);
    assert_eq!(solved.get_conss().len(), 20);
    assert_eq!(solved.get_var(49).unwrap().raw, 0x2000 + 16 * 49);
}

#[test]
fn read_prob_takes_one_handle_per_object() {
    let vars = vec![
        Variable::new(0x2200, 9, VarType::Binary),
        Variable::new(0x2000, 4, VarType::Integer),
        Variable::new(0x2100, 6, VarType::Continuous),
    ];
    let conss = vec![Constraint::new(0x3100), Constraint::new(0x3000)];
    let mut model = Model::new(Retcode::Okay, SCIP)
        .include_default_plugins(Retcode::Okay)
        .read_prob(Retcode::Okay, &vars, &conss)
        .unwrap();
    assert_eq!(model.get_vars().len(), 3);
    assert_eq!(model.get_conss().len(), 2);
    let listed: Vec<Variable> = model.get_vars().iter().map(|v| **v).collect();
    assert_eq!(listed, vec![vars[1], vars[2], vars[0]]);
    let listed: Vec<Constraint> = model.get_conss().iter().map(|c| **c).collect();
    assert_eq!(listed, conss);
}

#[test]
fn linear_plan_pairs_variables_and_coefficients() {
    let a = Rc::new(Variable::new(0x2000, 0, VarType::Integer));
    let b = Rc::new(Variable::new(0x2100, 1, VarType::Continuous));
    let plan = linear_plan(&vec![a.clone(), b.clone()], &vec![num(2.), num(-1.5)]);
    assert_eq!(
        plan,
        vec![
            ConsStep::Coef { var: 0x2000, coef: num(2.) },
            ConsStep::Coef { var: 0x2100, coef: num(-1.5) },
            ConsStep::Add,
        ]
    );
    assert_eq!(linear_plan(&vec![], &vec![]), vec![ConsStep::Add]);
    assert!(!is_all_binary(&vec![a, b]));
}

#[test]
fn write_gives_the_engines_answer() {
    let model = create_model();
    assert_eq!(model.write(Retcode::Okay), Ok(()));
    assert_eq!(model.write(Retcode::FileCreateError), Err(Retcode::FileCreateError));
    assert_eq!(model.write(Retcode::WriteError), Err(Retcode::WriteError));
    let solved = model.solve(Retcode::Okay, report(1, 0x4000, 1, 1, 200.));
    assert_eq!(solved.write(Retcode::Okay), Ok(()));
    assert_eq!(solved.write(Retcode::NoProblem), Err(Retcode::NoProblem));
}

#[test]
fn counts_are_read_as_machine_words() {
    let solved = create_model().solve(Retcode::Okay, report(3, 0x4000, 12345678901, 77, 1.));
    assert_eq!(solved.get_n_sols(), 3);
    assert_eq!(solved.get_n_nodes(), 12345678901i64 as usize);
    assert_eq!(solved.get_n_lp_iterations(), 77);
    let solved = create_model().solve(Retcode::Okay, report(-1, 0x4000, -1, -2, 1.));
    assert_eq!(solved.get_n_sols(), usize::MAX);
    assert_eq!(solved.get_n_nodes(), usize::MAX);
    assert_eq!(solved.get_n_lp_iterations(), usize::MAX - 1);
    assert!(solved.get_best_sol().is_some());
}

#[test]
fn plugins_keep_the_model() {
    let mut model = create_model()
        .include_branch_rule(Retcode::Okay)
        .include_pricer(Retcode::Okay);
    assert_eq!(model.get_vars().len(), 2);
    assert_eq!(model.get_conss().len(), 2);
}

#[test]
fn engine_counts_are_read_as_reported() {
    let mut model = create_model();
    assert_eq!(model.get_n_vars(2), 2);
    assert_eq!(model.get_n_conss(2), 2);
    assert_eq!(model.get_n_vars(0), 0);
    assert_eq!(model.get_n_vars(54), 54);
    assert_eq!(model.get_n_conss(i32::MAX), i32::MAX as usize);
    assert_eq!(model.get_n_vars(-1), usize::MAX);
    assert_eq!(model.get_vars().len(), 2);
    assert_eq!(model.get_conss().len(), 2);
    let mut solved = model.solve(Retcode::Okay, report(1, 0x4000, 1, 0, 200.));
    assert_eq!(solved.get_n_vars(7), 7);
    assert_eq!(solved.get_n_conss(3), 3);
    assert_eq!(solved.get_vars().len(), 2);
}
