//! Handles to the engine's constraints.
use vstd::prelude::*;

verus! {

/// One constraint of the engine, as the host knows it: where the native
/// object lives. A handle is plain data; holding or dropping one never
/// reaches the engine.
#[derive(Debug, Clone, Copy, PartialEq, Eq, Structural)]
pub struct Constraint {
    /// Address of the native object.
    pub raw: usize,
}

impl Constraint {
    /// Wraps the address of a native constraint.
    pub fn new(raw: usize) -> (cons: Constraint)
        ensures
            cons.raw == raw,
    {
        Constraint { raw }
    }
}

} // verus!
