//! Read-only views of the engine's solutions.
use vstd::prelude::*;

verus! {

/// One solution that the engine holds: the engine instance it belongs to and
/// where the native solution lives. It can be queried only while the model
/// that found it is alive.
#[derive(Debug, Clone, Copy, PartialEq, Eq, Structural)]
pub struct Solution {
    /// Address of the engine instance that holds the solution.
    pub scip_ptr: usize,
    /// Address of the native solution.
    pub raw: usize,
}

} // verus!
