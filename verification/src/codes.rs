//! The native codes of the engine, as its headers define them.
use vstd::prelude::*;

verus! {

/// Return code: Normal termination.
pub const RETCODE_OKAY: i32 = 1;

/// Return code: Unspecified error.
pub const RETCODE_ERROR: i32 = 0;

/// Return code: Insufficient memory.
pub const RETCODE_NOMEMORY: i32 = -1;

/// Return code: Read error.
pub const RETCODE_READERROR: i32 = -2;

/// Return code: Write error.
pub const RETCODE_WRITEERROR: i32 = -3;

/// Return code: File not found.
pub const RETCODE_NOFILE: i32 = -4;

/// Return code: Cannot create file.
pub const RETCODE_FILECREATEERROR: i32 = -5;

/// Return code: Error in the LP solver.
pub const RETCODE_LPERROR: i32 = -6;

/// Return code: No problem exists.
pub const RETCODE_NOPROBLEM: i32 = -7;

/// Return code: Method cannot be called at this time.
pub const RETCODE_INVALIDCALL: i32 = -8;

/// Return code: Method cannot be called with this type of data.
pub const RETCODE_INVALIDDATA: i32 = -9;

/// Return code: Method returned an invalid result code.
pub const RETCODE_INVALIDRESULT: i32 = -10;

/// Return code: A required plugin was not found.
pub const RETCODE_PLUGINNOTFOUND: i32 = -11;

/// Return code: The parameter was not found.
pub const RETCODE_PARAMETERUNKNOWN: i32 = -12;

/// Return code: The parameter is not of the expected type.
pub const RETCODE_PARAMETERWRONGTYPE: i32 = -13;

/// Return code: The value is invalid for the parameter.
pub const RETCODE_PARAMETERWRONGVAL: i32 = -14;

/// Return code: The key is already in the table.
pub const RETCODE_KEYALREADYEXISTING: i32 = -15;

/// Return code: Maximal branching depth level exceeded.
pub const RETCODE_MAXDEPTHLEVEL: i32 = -16;

/// Return code: No branching could be created.
pub const RETCODE_BRANCHERROR: i32 = -17;

/// Return code: Function not implemented.
pub const RETCODE_NOTIMPLEMENTED: i32 = -18;

/// Result code: the extension did not run.
pub const RESULT_DIDNOTRUN: u32 = 1;

/// Result code: the current node is infeasible and can be cut off.
pub const RESULT_CUTOFF: u32 = 7;

/// Result code: a cutting plane was added.
pub const RESULT_SEPARATED: u32 = 8;

/// Result code: the domain of a variable was reduced.
pub const RESULT_REDUCEDDOM: u32 = 10;

/// Result code: a constraint was added.
pub const RESULT_CONSADDED: u32 = 11;

/// Result code: the node was branched.
pub const RESULT_BRANCHED: u32 = 13;

/// Result code: the extension ran with success.
pub const RESULT_SUCCESS: u32 = 17;

/// Status code of `Status::Unknown`.
pub const STATUS_UNKNOWN: u32 = 0;

/// Status code of `Status::Optimal`.
pub const STATUS_OPTIMAL: u32 = 1;

/// Status code of `Status::Infeasible`.
pub const STATUS_INFEASIBLE: u32 = 2;

/// Status code of `Status::Unbounded`.
pub const STATUS_UNBOUNDED: u32 = 3;

/// Status code of `Status::Inforunbd`.
pub const STATUS_INFORUNBD: u32 = 4;

/// Status code of `Status::UserInterrupt`.
pub const STATUS_USERINTERRUPT: u32 = 10;

/// Status code of `Status::Terminate`.
pub const STATUS_TERMINATE: u32 = 11;

/// Status code of `Status::NodeLimit`.
pub const STATUS_NODELIMIT: u32 = 20;

/// Status code of `Status::TotalNodeLimit`.
pub const STATUS_TOTALNODELIMIT: u32 = 21;

/// Status code of `Status::StallNodeLimit`.
pub const STATUS_STALLNODELIMIT: u32 = 22;

/// Status code of `Status::TimeLimit`.
pub const STATUS_TIMELIMIT: u32 = 23;

/// Status code of `Status::MemoryLimit`.
pub const STATUS_MEMLIMIT: u32 = 24;

/// Status code of `Status::GapLimit`.
pub const STATUS_GAPLIMIT: u32 = 25;

/// Status code of `Status::SolutionLimit`.
pub const STATUS_SOLLIMIT: u32 = 28;

/// Status code of `Status::BestSolutionLimit`.
pub const STATUS_BESTSOLLIMIT: u32 = 29;

/// Status code of `Status::RestartLimit`.
pub const STATUS_RESTARTLIMIT: u32 = 30;

/// Stage code: the problem is being built.
pub const STAGE_PROBLEM: u32 = 1;

/// Stage code: the solving data is being freed.
pub const STAGE_EXITSOLVE: u32 = 11;

/// Variable type code of `VarType::Binary`.
pub const VARTYPE_BINARY: u32 = 0;

/// Variable type code of `VarType::Integer`.
pub const VARTYPE_INTEGER: u32 = 1;

/// Variable type code of `VarType::ImplInt`.
pub const VARTYPE_IMPLINT: u32 = 2;

/// Variable type code of `VarType::Continuous`.
pub const VARTYPE_CONTINUOUS: u32 = 3;

/// Emphasis code of `ParamSetting::Default`.
pub const PARAMSETTING_DEFAULT: u32 = 0;

/// Emphasis code of `ParamSetting::Aggressive`.
pub const PARAMSETTING_AGGRESSIVE: u32 = 1;

/// Emphasis code of `ParamSetting::Fast`.
pub const PARAMSETTING_FAST: u32 = 2;

/// Emphasis code of `ParamSetting::Off`.
pub const PARAMSETTING_OFF: u32 = 3;

/// Objective sense code of `ObjSense::Maximize`.
pub const OBJSENSE_MAXIMIZE: i32 = -1;

/// Objective sense code of `ObjSense::Minimize`.
pub const OBJSENSE_MINIMIZE: i32 = 1;

} // verus!
