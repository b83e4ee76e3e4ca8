use russcip::retcode::{check_code, Retcode};
use russcip::status::Status;

#[test]
fn status_codes_of_the_vocabulary() {
    assert_eq!(Status::from(0), Status::Unknown);
    assert_eq!(Status::from(1), Status::Optimal);
    assert_eq!(Status::from(2), Status::Infeasible);
    assert_eq!(Status::from(3), Status::Unbounded);
    assert_eq!(Status::from(4), Status::Inforunbd);
    assert_eq!(Status::from(10), Status::UserInterrupt);
    assert_eq!(Status::from(11), Status::Terminate);
    assert_eq!(Status::from(20), Status::NodeLimit);
    assert_eq!(Status::from(21), Status::TotalNodeLimit);
    assert_eq!(Status::from(22), Status::StallNodeLimit);
    assert_eq!(Status::from(23), Status::TimeLimit);
    assert_eq!(Status::from(24), Status::MemoryLimit);
    assert_eq!(Status::from(25), Status::GapLimit);
    assert_eq!(Status::from(28), Status::SolutionLimit);
    assert_eq!(Status::from(29), Status::BestSolutionLimit);
    assert_eq!(Status::from(30), Status::RestartLimit);
}

#[test]
fn status_codes_outside_the_vocabulary() {
    assert_eq!(Status::lookup(5), None);
    assert_eq!(Status::lookup(26), None);
    assert_eq!(Status::lookup(27), None);
    assert_eq!(Status::lookup(31), None);
    assert_eq!(Status::lookup(u32::MAX), None);
    assert_eq!(Status::lookup(23), Some(Status::TimeLimit));
}

#[test]
fn retcode_reads_every_native_code() {
    assert_eq!(Retcode::from(1), Retcode::Okay);
    assert_eq!(Retcode::from(0), Retcode::Error);
    assert_eq!(Retcode::from(-1), Retcode::NoMemory);
    assert_eq!(Retcode::from(-2), Retcode::ReadError);
    assert_eq!(Retcode::from(-3), Retcode::WriteError);
    assert_eq!(Retcode::from(-4), Retcode::NoFile);
    assert_eq!(Retcode::from(-5), Retcode::FileCreateError);
    assert_eq!(Retcode::from(-6), Retcode::LpError);
    assert_eq!(Retcode::from(-7), Retcode::NoProblem);
    assert_eq!(Retcode::from(-8), Retcode::InvalidCall);
    assert_eq!(Retcode::from(-9), Retcode::InvalidData);
    assert_eq!(Retcode::from(-10), Retcode::InvalidResult);
    assert_eq!(Retcode::from(-11), Retcode::PluginNotFound);
    assert_eq!(Retcode::from(-12), Retcode::ParameterUnknown);
    assert_eq!(Retcode::from(-13), Retcode::ParameterWrongType);
    assert_eq!(Retcode::from(-14), Retcode::ParameterWrongVal);
    assert_eq!(Retcode::from(-15), Retcode::KeyAlreadyExisting);
    assert_eq!(Retcode::from(-16), Retcode::MaxDepthLevel);
    assert_eq!(Retcode::from(-17), Retcode::BranchError);
    assert_eq!(Retcode::from(-18), Retcode::NotImplemented);
    assert_eq!(Retcode::from(-19), Retcode::Unknown);
    assert_eq!(Retcode::from(2), Retcode::Unknown);
    assert_eq!(Retcode::from(i32::MIN), Retcode::Unknown);
}

#[test]
fn retcode_round_trip() {
    for code in -18..=1 {
        assert_eq!(Retcode::from(code).code(), code);
    }
}

#[test]
fn check_passes_okay_only() {
    assert_eq!(Retcode::Okay.check(), Ok(()));
    assert_eq!(Retcode::Error.check(), Err(Retcode::Error));
    assert_eq!(Retcode::Unknown.check(), Err(Retcode::Unknown));
    assert_eq!(check_code(1), Ok(()));
    assert_eq!(check_code(-12), Err(Retcode::ParameterUnknown));
    assert_eq!(check_code(77), Err(Retcode::Unknown));
}
