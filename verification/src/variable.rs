//! Handles to the engine's decision variables.
use crate::codes::{VARTYPE_BINARY, VARTYPE_CONTINUOUS, VARTYPE_IMPLINT, VARTYPE_INTEGER};
use std::rc::Rc;
use vstd::prelude::*;

verus! {

/// The identity that the engine gives a variable: an index that no two
/// variables of one model share.
pub type VarId = usize;

/// The domain type of a decision variable.
#[derive(Debug, Clone, Copy, PartialEq, Eq, Structural)]
pub enum VarType {
    /// The variable takes any real value within its bounds.
    Continuous,
    /// The variable takes integer values within its bounds.
    Integer,
    /// The variable takes the value 0 or 1.
    Binary,
    /// The variable is integral in every optimal solution without being
    /// declared so.
    ImplInt,
}

/// The native code of a variable type.
pub open spec fn var_type_code(var_type: VarType) -> u32 {
    match var_type {
        VarType::Binary => VARTYPE_BINARY,
        VarType::Integer => VARTYPE_INTEGER,
        VarType::ImplInt => VARTYPE_IMPLINT,
        VarType::Continuous => VARTYPE_CONTINUOUS,
    }
}

/// The variable type that a native code stands for, if it stands for one.
pub open spec fn var_type_of(code: int) -> Option<VarType> {
    if code == VARTYPE_BINARY {
        Some(VarType::Binary)
    } else if code == VARTYPE_INTEGER {
        Some(VarType::Integer)
    } else if code == VARTYPE_IMPLINT {
        Some(VarType::ImplInt)
    } else if code == VARTYPE_CONTINUOUS {
        Some(VarType::Continuous)
    } else {
        None
    }
}

impl VarType {
    /// The native code to hand to the engine for this variable type.
    pub fn code(self) -> (code: u32)
        ensures
            code == var_type_code(self),
            var_type_of(code as int) == Some(self),
    {
        match self {
            VarType::Binary => VARTYPE_BINARY,
            VarType::Integer => VARTYPE_INTEGER,
            VarType::ImplInt => VARTYPE_IMPLINT,
            VarType::Continuous => VARTYPE_CONTINUOUS,
        }
    }

    /// Reads a native variable type code, or says that the code is none.
    pub fn lookup(code: u32) -> (var_type: Option<VarType>)
        ensures
            var_type == var_type_of(code as int),
    {
        if code == VARTYPE_BINARY {
            Some(VarType::Binary)
        } else if code == VARTYPE_INTEGER {
            Some(VarType::Integer)
        } else if code == VARTYPE_IMPLINT {
            Some(VarType::ImplInt)
        } else if code == VARTYPE_CONTINUOUS {
            Some(VarType::Continuous)
        } else {
            None
        }
    }
}

/// One decision variable of the engine, as the host knows it: where the
/// native object lives, and the identity and type that the engine reported
/// for it. A handle is plain data; holding or dropping one never reaches the
/// engine.
#[derive(Debug, Clone, Copy, PartialEq, Eq, Structural)]
pub struct Variable {
    /// Address of the native object.
    pub raw: usize,
    /// Index that the engine assigned.
    pub index: VarId,
    /// Domain type that the engine reported.
    pub var_type: VarType,
}

impl Variable {
    /// Wraps what the engine reported of one variable.
    pub fn new(raw: usize, index: VarId, var_type: VarType) -> (var: Variable)
        ensures
            var == (Variable { raw, index, var_type }),
    {
        Variable { raw, index, var_type }
    }

    /// The index that the engine assigned to this variable.
    pub fn get_index(&self) -> (index: VarId)
        ensures
            index == self.index,
    {
        self.index
    }

    /// The domain type of this variable.
    pub fn get_type(&self) -> (var_type: VarType)
        ensures
            var_type == self.var_type,
    {
        self.var_type
    }
}

/// Whether every variable of a list is binary.
pub open spec fn all_binary(vars: Seq<Rc<Variable>>) -> bool {
    forall|i: int| 0 <= i < vars.len() ==> (#[trigger] vars[i]).var_type == VarType::Binary
}

/// Shares a handle. `Rc::clone` makes a second owner of the same allocation
/// and leaves the value untouched, so the new handle equals the old one.
#[verifier::external_body]
pub(crate) fn share<T>(handle: &Rc<T>) -> (shared: Rc<T>)
    ensures
        shared == *handle,
{
    Rc::clone(handle)
}

/// Decides whether every variable of a list is binary.
pub fn is_all_binary(vars: &Vec<Rc<Variable>>) -> (all: bool)
    ensures
        all == all_binary(vars@),
{
    let mut i: usize = 0;
    while i < vars.len()
        invariant
            i <= vars.len(),
            forall|j: int| 0 <= j < i ==> (#[trigger] vars@[j]).var_type == VarType::Binary,
        decreases vars.len() - i,
    {
        if vars[i].var_type != VarType::Binary {
            return false;
        }
        i += 1;
    }
    true
}

} // verus!
