//! The verdict on a submission: what its compilation, its run and the
//! check of its output add up to.

use crate::checker::{CheckerMessage, CheckerStatus};
use crate::provider::{ExecuatorMessage, ExecuatorStatus};
use vstd::prelude::*;

verus! {

/// The final word on a judged run.
#[derive(Debug, Clone)]
pub enum Verdict {
    /// The output was accepted.
    AC,
    /// The output was rejected; `report` is what the checker wrote.
    WA { report: String },
    CompileError,
    RuntimeError,
    TimeLimitExceeded,
    MemoryLimitExceeded,
    /// No verdict could be reached; `message` says why.
    UnknownError { message: String },
}

/// The verdict that the end of the run alone gives; `None` for a run
/// that passed: then the checker decides.
pub open spec fn run_verdict(run: ExecuatorMessage) -> Option<Verdict> {
    match run.status {
        ExecuatorStatus::PASS => None,
        ExecuatorStatus::CE => Some(Verdict::CompileError),
        ExecuatorStatus::RE => Some(Verdict::RuntimeError),
        ExecuatorStatus::TLE => Some(Verdict::TimeLimitExceeded),
        ExecuatorStatus::MLE => Some(Verdict::MemoryLimitExceeded),
        ExecuatorStatus::UKE => Some(Verdict::UnknownError { message: run.message }),
    }
}

/// The verdict that the checker gives.
pub open spec fn checker_verdict(check: CheckerMessage) -> Verdict {
    match check.status {
        CheckerStatus::AC => Verdict::AC,
        CheckerStatus::WA => Verdict::WA { report: check.message },
        CheckerStatus::UKE => Verdict::UnknownError { message: check.message },
    }
}

impl Verdict {
    /// Computes `run_verdict`.
    pub fn of_run(run: ExecuatorMessage) -> (v: Option<Verdict>)
        ensures
            v == run_verdict(run),
    {
        match run.status {
            ExecuatorStatus::PASS => None,
            ExecuatorStatus::CE => Some(Verdict::CompileError),
            ExecuatorStatus::RE => Some(Verdict::RuntimeError),
            ExecuatorStatus::TLE => Some(Verdict::TimeLimitExceeded),
            ExecuatorStatus::MLE => Some(Verdict::MemoryLimitExceeded),
            ExecuatorStatus::UKE => Some(Verdict::UnknownError { message: run.message }),
        }
    }

    /// Computes `checker_verdict`.
    pub fn of_check(check: CheckerMessage) -> (v: Verdict)
        ensures
            v == checker_verdict(check),
    {
        match check.status {
            CheckerStatus::AC => Verdict::AC,
            CheckerStatus::WA => Verdict::WA { report: check.message },
            CheckerStatus::UKE => Verdict::UnknownError { message: check.message },
        }
    }

    /// Whether the output is to go through a checker: exactly after a run
    /// that passed.
    pub fn needs_check(run: &ExecuatorMessage) -> (b: bool)
        ensures
            b == (run_verdict(*run) is None),
    {
        match run.status {
            ExecuatorStatus::PASS => true,
            _ => false,
        }
    }
}

/// A run that did not pass is never accepted, and a checker that gave no
/// verdict never turns into an acceptance or a rejection.
pub proof fn lemma_only_a_checker_accepts(run: ExecuatorMessage, check: CheckerMessage)
    ensures
        run_verdict(run) matches Some(v) ==> !(v is AC) && !(v is WA),
        check.status == CheckerStatus::UKE ==> checker_verdict(check) is UnknownError,
        checker_verdict(check) is AC <==> check.status == CheckerStatus::AC,
{
}

} // verus!
