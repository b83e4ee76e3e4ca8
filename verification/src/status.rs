//! Solution status of an optimization run.
use crate::codes::{
    STATUS_BESTSOLLIMIT, STATUS_GAPLIMIT, STATUS_INFEASIBLE, STATUS_INFORUNBD, STATUS_MEMLIMIT,
    STATUS_NODELIMIT, STATUS_OPTIMAL, STATUS_RESTARTLIMIT, STATUS_SOLLIMIT, STATUS_STALLNODELIMIT,
    STATUS_TERMINATE, STATUS_TIMELIMIT, STATUS_TOTALNODELIMIT, STATUS_UNBOUNDED, STATUS_UNKNOWN,
    STATUS_USERINTERRUPT,
};
use vstd::prelude::*;

verus! {

/// How an optimization run stands or ended.
#[derive(Debug, Clone, Copy, PartialEq, Eq, Structural)]
pub enum Status {
    /// The solving status is not yet known.
    Unknown,
    /// The user interrupted the solving process.
    UserInterrupt,
    /// The solving process was interrupted because the node limit was reached.
    NodeLimit,
    /// The solving process was interrupted because the total node limit was
    /// reached (restarts included).
    TotalNodeLimit,
    /// The solving process was interrupted because the stalling node limit was
    /// reached (no improvement of the primal bound).
    StallNodeLimit,
    /// The solving process was interrupted because the time limit was reached.
    TimeLimit,
    /// The solving process was interrupted because the memory limit was reached.
    MemoryLimit,
    /// The solving process was interrupted because the gap limit was reached.
    GapLimit,
    /// The solving process was interrupted because the solution limit was reached.
    SolutionLimit,
    /// The solving process was interrupted because the limit on improving
    /// solutions was reached.
    BestSolutionLimit,
    /// The solving process was interrupted because the restart limit was reached.
    RestartLimit,
    /// The problem was solved to optimality, an optimal solution is available.
    Optimal,
    /// The problem was proven to be infeasible.
    Infeasible,
    /// The problem was proven to be unbounded.
    Unbounded,
    /// The problem was proven to be either infeasible or unbounded.
    Inforunbd,
    /// The process received a termination signal.
    Terminate,
}

/// The status that a native status code stands for, or `None` for a code that
/// this vocabulary does not hold. The engine also knows a primal and a dual
/// bound limit (codes 26 and 27); they have no counterpart here.
pub open spec fn status_of(code: int) -> Option<Status> {
    if code == STATUS_UNKNOWN {
        Some(Status::Unknown)
    } else if code == STATUS_OPTIMAL {
        Some(Status::Optimal)
    } else if code == STATUS_INFEASIBLE {
        Some(Status::Infeasible)
    } else if code == STATUS_UNBOUNDED {
        Some(Status::Unbounded)
    } else if code == STATUS_INFORUNBD {
        Some(Status::Inforunbd)
    } else if code == STATUS_USERINTERRUPT {
        Some(Status::UserInterrupt)
    } else if code == STATUS_TERMINATE {
        Some(Status::Terminate)
    } else if code == STATUS_NODELIMIT {
        Some(Status::NodeLimit)
    } else if code == STATUS_TOTALNODELIMIT {
        Some(Status::TotalNodeLimit)
    } else if code == STATUS_STALLNODELIMIT {
        Some(Status::StallNodeLimit)
    } else if code == STATUS_TIMELIMIT {
        Some(Status::TimeLimit)
    } else if code == STATUS_MEMLIMIT {
        Some(Status::MemoryLimit)
    } else if code == STATUS_GAPLIMIT {
        Some(Status::GapLimit)
    } else if code == STATUS_SOLLIMIT {
        Some(Status::SolutionLimit)
    } else if code == STATUS_BESTSOLLIMIT {
        Some(Status::BestSolutionLimit)
    } else if code == STATUS_RESTARTLIMIT {
        Some(Status::RestartLimit)
    } else {
        None
    }
}

/// The native code of a status.
pub open spec fn status_code(status: Status) -> int {
    match status {
        Status::Unknown => STATUS_UNKNOWN as int,
        Status::Optimal => STATUS_OPTIMAL as int,
        Status::Infeasible => STATUS_INFEASIBLE as int,
        Status::Unbounded => STATUS_UNBOUNDED as int,
        Status::Inforunbd => STATUS_INFORUNBD as int,
        Status::UserInterrupt => STATUS_USERINTERRUPT as int,
        Status::Terminate => STATUS_TERMINATE as int,
        Status::NodeLimit => STATUS_NODELIMIT as int,
        Status::TotalNodeLimit => STATUS_TOTALNODELIMIT as int,
        Status::StallNodeLimit => STATUS_STALLNODELIMIT as int,
        Status::TimeLimit => STATUS_TIMELIMIT as int,
        Status::MemoryLimit => STATUS_MEMLIMIT as int,
        Status::GapLimit => STATUS_GAPLIMIT as int,
        Status::SolutionLimit => STATUS_SOLLIMIT as int,
        Status::BestSolutionLimit => STATUS_BESTSOLLIMIT as int,
        Status::RestartLimit => STATUS_RESTARTLIMIT as int,
    }
}

impl Status {
    /// Reads a native status code, or says that the code is not one of this
    /// vocabulary.
    pub fn lookup(val: u32) -> (status: Option<Status>)
        ensures
            status == status_of(val as int),
    {
        if val == STATUS_UNKNOWN {
            Some(Status::Unknown)
        } else if val == STATUS_OPTIMAL {
            Some(Status::Optimal)
        } else if val == STATUS_INFEASIBLE {
            Some(Status::Infeasible)
        } else if val == STATUS_UNBOUNDED {
            Some(Status::Unbounded)
        } else if val == STATUS_INFORUNBD {
            Some(Status::Inforunbd)
        } else if val == STATUS_USERINTERRUPT {
            Some(Status::UserInterrupt)
        } else if val == STATUS_TERMINATE {
            Some(Status::Terminate)
        } else if val == STATUS_NODELIMIT {
            Some(Status::NodeLimit)
        } else if val == STATUS_TOTALNODELIMIT {
            Some(Status::TotalNodeLimit)
        } else if val == STATUS_STALLNODELIMIT {
            Some(Status::StallNodeLimit)
        } else if val == STATUS_TIMELIMIT {
            Some(Status::TimeLimit)
        } else if val == STATUS_MEMLIMIT {
            Some(Status::MemoryLimit)
        } else if val == STATUS_GAPLIMIT {
            Some(Status::GapLimit)
        } else if val == STATUS_SOLLIMIT {
            Some(Status::SolutionLimit)
        } else if val == STATUS_BESTSOLLIMIT {
            Some(Status::BestSolutionLimit)
        } else if val == STATUS_RESTARTLIMIT {
            Some(Status::RestartLimit)
        } else {
            None
        }
    }

    /// Reads a native status code of this vocabulary. A code outside it means
    /// that the engine and this library do not belong together, and is left to
    /// the caller to refuse.
    pub fn from(val: u32) -> (status: Status)
        requires
            status_of(val as int) is Some,
        ensures
            status_of(val as int) == Some(status),
            status_code(status) == val,
    {
        match Status::lookup(val) {
            Some(status) => status,
            None => Status::Unknown,
        }
    }
}

/// Every status has exactly one native code: reading the code of a status
/// gives that status back, and two different statuses never share a code.
pub proof fn lemma_status_codes_distinct(a: Status, b: Status)
    ensures
        status_of(status_code(a)) == Some(a),
        status_code(a) == status_code(b) ==> a == b,
{
}

/// A native code that stands for a status is the code of that status.
pub proof fn lemma_status_code_round_trip(code: int)
    requires
        status_of(code) is Some,
    ensures
        status_code(status_of(code)->Some_0) == code,
{
}

} // verus!
