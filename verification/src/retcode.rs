//! Return codes of the engine's native calls.
//!
//! Every native call that can fail answers with a small signed integer. This
//! module gives those integers a closed vocabulary and states the one rule
//! that every caller of the engine follows: a call has succeeded exactly when
//! it answered `Okay`, and any other answer is handed back as the failure.
use crate::codes::{
    RETCODE_BRANCHERROR, RETCODE_ERROR, RETCODE_FILECREATEERROR, RETCODE_INVALIDCALL,
    RETCODE_INVALIDDATA, RETCODE_INVALIDRESULT, RETCODE_KEYALREADYEXISTING, RETCODE_LPERROR,
    RETCODE_MAXDEPTHLEVEL, RETCODE_NOFILE, RETCODE_NOMEMORY, RETCODE_NOPROBLEM,
    RETCODE_NOTIMPLEMENTED, RETCODE_OKAY, RETCODE_PARAMETERUNKNOWN, RETCODE_PARAMETERWRONGTYPE,
    RETCODE_PARAMETERWRONGVAL, RETCODE_PLUGINNOTFOUND, RETCODE_READERROR, RETCODE_WRITEERROR,
};
use vstd::prelude::*;

verus! {

/// What a native call answered.
#[derive(Debug, Clone, Copy, PartialEq, Eq, Structural)]
pub enum Retcode {
    /// Normal termination.
    Okay,
    /// Unspecified error.
    Error,
    /// Insufficient memory.
    NoMemory,
    /// Read error.
    ReadError,
    /// Write error.
    WriteError,
    /// File not found.
    NoFile,
    /// Cannot create file.
    FileCreateError,
    /// Error in the LP solver.
    LpError,
    /// No problem exists.
    NoProblem,
    /// Method cannot be called at this time in the solution process.
    InvalidCall,
    /// Method cannot be called with this type of data.
    InvalidData,
    /// Method returned an invalid result code.
    InvalidResult,
    /// A required plugin was not found.
    PluginNotFound,
    /// The parameter with the given name was not found.
    ParameterUnknown,
    /// The parameter is not of the expected type.
    ParameterWrongType,
    /// The value is invalid for the given parameter.
    ParameterWrongVal,
    /// The given key is already existing in the table.
    KeyAlreadyExisting,
    /// Maximal branching depth level exceeded.
    MaxDepthLevel,
    /// No branching could be created.
    BranchError,
    /// Function not implemented.
    NotImplemented,
    /// A code outside the engine's documented vocabulary.
    Unknown,
}

/// The meaning of a native return code. Total: a code that the engine's
/// vocabulary does not list is `Unknown`, which is a failure like any other.
pub open spec fn retcode_of(code: int) -> Retcode {
    if code == RETCODE_OKAY {
        Retcode::Okay
    } else if code == RETCODE_ERROR {
        Retcode::Error
    } else if code == RETCODE_NOMEMORY {
        Retcode::NoMemory
    } else if code == RETCODE_READERROR {
        Retcode::ReadError
    } else if code == RETCODE_WRITEERROR {
        Retcode::WriteError
    } else if code == RETCODE_NOFILE {
        Retcode::NoFile
    } else if code == RETCODE_FILECREATEERROR {
        Retcode::FileCreateError
    } else if code == RETCODE_LPERROR {
        Retcode::LpError
    } else if code == RETCODE_NOPROBLEM {
        Retcode::NoProblem
    } else if code == RETCODE_INVALIDCALL {
        Retcode::InvalidCall
    } else if code == RETCODE_INVALIDDATA {
        Retcode::InvalidData
    } else if code == RETCODE_INVALIDRESULT {
        Retcode::InvalidResult
    } else if code == RETCODE_PLUGINNOTFOUND {
        Retcode::PluginNotFound
    } else if code == RETCODE_PARAMETERUNKNOWN {
        Retcode::ParameterUnknown
    } else if code == RETCODE_PARAMETERWRONGTYPE {
        Retcode::ParameterWrongType
    } else if code == RETCODE_PARAMETERWRONGVAL {
        Retcode::ParameterWrongVal
    } else if code == RETCODE_KEYALREADYEXISTING {
        Retcode::KeyAlreadyExisting
    } else if code == RETCODE_MAXDEPTHLEVEL {
        Retcode::MaxDepthLevel
    } else if code == RETCODE_BRANCHERROR {
        Retcode::BranchError
    } else if code == RETCODE_NOTIMPLEMENTED {
        Retcode::NotImplemented
    } else {
        Retcode::Unknown
    }
}

/// The native code of a return code. `Unknown` stands for many codes and has
/// none of its own; the value given for it here is never handed to the engine.
pub open spec fn code_of(retcode: Retcode) -> int {
    match retcode {
        Retcode::Okay => RETCODE_OKAY as int,
        Retcode::Error => RETCODE_ERROR as int,
        Retcode::NoMemory => RETCODE_NOMEMORY as int,
        Retcode::ReadError => RETCODE_READERROR as int,
        Retcode::WriteError => RETCODE_WRITEERROR as int,
        Retcode::NoFile => RETCODE_NOFILE as int,
        Retcode::FileCreateError => RETCODE_FILECREATEERROR as int,
        Retcode::LpError => RETCODE_LPERROR as int,
        Retcode::NoProblem => RETCODE_NOPROBLEM as int,
        Retcode::InvalidCall => RETCODE_INVALIDCALL as int,
        Retcode::InvalidData => RETCODE_INVALIDDATA as int,
        Retcode::InvalidResult => RETCODE_INVALIDRESULT as int,
        Retcode::PluginNotFound => RETCODE_PLUGINNOTFOUND as int,
        Retcode::ParameterUnknown => RETCODE_PARAMETERUNKNOWN as int,
        Retcode::ParameterWrongType => RETCODE_PARAMETERWRONGTYPE as int,
        Retcode::ParameterWrongVal => RETCODE_PARAMETERWRONGVAL as int,
        Retcode::KeyAlreadyExisting => RETCODE_KEYALREADYEXISTING as int,
        Retcode::MaxDepthLevel => RETCODE_MAXDEPTHLEVEL as int,
        Retcode::BranchError => RETCODE_BRANCHERROR as int,
        Retcode::NotImplemented => RETCODE_NOTIMPLEMENTED as int,
        Retcode::Unknown => -19,
    }
}

/// What a caller gets from a native call that answered `retcode`: nothing on
/// success, the answer itself as the error otherwise.
pub open spec fn checked(retcode: Retcode) -> Result<(), Retcode> {
    if retcode == Retcode::Okay {
        Ok(())
    } else {
        Err(retcode)
    }
}

impl From<i32> for Retcode {
    /// Reads a native return code.
    fn from(code: i32) -> (ret: Retcode) {
        if code == RETCODE_OKAY {
            Retcode::Okay
        } else if code == RETCODE_ERROR {
            Retcode::Error
        } else if code == RETCODE_NOMEMORY {
            Retcode::NoMemory
        } else if code == RETCODE_READERROR {
            Retcode::ReadError
        } else if code == RETCODE_WRITEERROR {
            Retcode::WriteError
        } else if code == RETCODE_NOFILE {
            Retcode::NoFile
        } else if code == RETCODE_FILECREATEERROR {
            Retcode::FileCreateError
        } else if code == RETCODE_LPERROR {
            Retcode::LpError
        } else if code == RETCODE_NOPROBLEM {
            Retcode::NoProblem
        } else if code == RETCODE_INVALIDCALL {
            Retcode::InvalidCall
        } else if code == RETCODE_INVALIDDATA {
            Retcode::InvalidData
        } else if code == RETCODE_INVALIDRESULT {
            Retcode::InvalidResult
        } else if code == RETCODE_PLUGINNOTFOUND {
            Retcode::PluginNotFound
        } else if code == RETCODE_PARAMETERUNKNOWN {
            Retcode::ParameterUnknown
        } else if code == RETCODE_PARAMETERWRONGTYPE {
            Retcode::ParameterWrongType
        } else if code == RETCODE_PARAMETERWRONGVAL {
            Retcode::ParameterWrongVal
        } else if code == RETCODE_KEYALREADYEXISTING {
            Retcode::KeyAlreadyExisting
        } else if code == RETCODE_MAXDEPTHLEVEL {
            Retcode::MaxDepthLevel
        } else if code == RETCODE_BRANCHERROR {
            Retcode::BranchError
        } else if code == RETCODE_NOTIMPLEMENTED {
            Retcode::NotImplemented
        } else {
            Retcode::Unknown
        }
    }
}

impl vstd::std_specs::convert::FromSpecImpl<i32> for Retcode {
    open spec fn obeys_from_spec() -> bool {
        true
    }

    open spec fn from_spec(code: i32) -> Retcode {
        retcode_of(code as int)
    }
}

impl Retcode {
    /// The native code to hand to the engine for this return code.
    pub fn code(self) -> (code: i32)
        requires
            self != Retcode::Unknown,
        ensures
            code == code_of(self),
            retcode_of(code as int) == self,
    {
        match self {
            Retcode::Okay => RETCODE_OKAY,
            Retcode::Error => RETCODE_ERROR,
            Retcode::NoMemory => RETCODE_NOMEMORY,
            Retcode::ReadError => RETCODE_READERROR,
            Retcode::WriteError => RETCODE_WRITEERROR,
            Retcode::NoFile => RETCODE_NOFILE,
            Retcode::FileCreateError => RETCODE_FILECREATEERROR,
            Retcode::LpError => RETCODE_LPERROR,
            Retcode::NoProblem => RETCODE_NOPROBLEM,
            Retcode::InvalidCall => RETCODE_INVALIDCALL,
            Retcode::InvalidData => RETCODE_INVALIDDATA,
            Retcode::InvalidResult => RETCODE_INVALIDRESULT,
            Retcode::PluginNotFound => RETCODE_PLUGINNOTFOUND,
            Retcode::ParameterUnknown => RETCODE_PARAMETERUNKNOWN,
            Retcode::ParameterWrongType => RETCODE_PARAMETERWRONGTYPE,
            Retcode::ParameterWrongVal => RETCODE_PARAMETERWRONGVAL,
            Retcode::KeyAlreadyExisting => RETCODE_KEYALREADYEXISTING,
            Retcode::MaxDepthLevel => RETCODE_MAXDEPTHLEVEL,
            Retcode::BranchError => RETCODE_BRANCHERROR,
            Retcode::NotImplemented => RETCODE_NOTIMPLEMENTED,
            Retcode::Unknown => -19,
        }
    }

    /// Turns the answer of a native call into the result of the caller:
    /// `Ok` exactly for `Okay`, and the answer itself as the error otherwise.
    pub fn check(self) -> (outcome: Result<(), Retcode>)
        ensures
            outcome == checked(self),
    {
        if self == Retcode::Okay {
            Ok(())
        } else {
            Err(self)
        }
    }
}

/// Reads the native code that a call answered and turns it into the caller's
/// result in one step.
pub fn check_code(code: i32) -> (outcome: Result<(), Retcode>)
    ensures
        outcome == checked(retcode_of(code as int)),
        outcome is Ok <==> code == RETCODE_OKAY,
{
    Retcode::from(code).check()
}

/// Reading a code and writing it back gives the same code, for every code of
/// the engine's vocabulary.
pub proof fn lemma_code_round_trip(code: int)
    requires
        RETCODE_NOTIMPLEMENTED <= code <= RETCODE_OKAY,
    ensures
        retcode_of(code) != Retcode::Unknown,
        code_of(retcode_of(code)) == code,
{
}

/// Writing a return code and reading it back gives the same return code, and
/// two different return codes never share a native code.
pub proof fn lemma_retcode_round_trip(a: Retcode, b: Retcode)
    requires
        a != Retcode::Unknown,
    ensures
        retcode_of(code_of(a)) == a,
        RETCODE_NOTIMPLEMENTED <= code_of(a) <= RETCODE_OKAY,
        code_of(a) == code_of(b) ==> a == b,
{
}

} // verus!
