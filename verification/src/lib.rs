//! Verified protocol core for driving a branch-and-bound optimization engine.
//!
//! The engine is reached through a fixed set of native calls. This library
//! never makes those calls itself: the embedding program does, and hands the
//! engine's answers to the functions here. What the library decides, and
//! proves, is everything around the calls: which lifecycle phase a model is
//! in and what is legal there, which handles a model holds, what a branching
//! or pricing extension's answer means for the engine, and what has to be
//! released, and in which order, when a model is torn down.
pub mod branchrule;
pub mod codes;
pub mod constraint;
pub mod engine;
pub mod model;
pub mod scalar;
pub mod pricer;
pub mod problem;
pub mod retcode;
pub mod solution;
pub mod status;
pub mod variable;

pub use crate::model::Model;
pub use crate::model::ModelWithProblem;
pub use crate::model::ObjSense;
pub use crate::retcode::Retcode;
pub use crate::status::Status;
pub use crate::variable::VarType;
