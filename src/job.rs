use vstd::prelude::*;

verus! {

/// What one attempt to run a queued job did.
#[derive(Debug, Clone, Copy, PartialEq, Eq, Structural)]
pub enum JobOutcome {
    /// The queue was empty; nothing ran.
    Empty,
    /// Exactly one job ran to completion.
    Ran,
    /// Exactly one job ran and threw.
    Threw,
}

/// The engine reports 0 for an empty queue, 1 for a job that completed,
/// and anything else (a negative code) for a job that threw.
pub open spec fn outcome_of(code: i32) -> JobOutcome {
    if code == 0 {
        JobOutcome::Empty
    } else if code == 1 {
        JobOutcome::Ran
    } else {
        JobOutcome::Threw
    }
}

/// Reads the engine's pending-job flag: any nonzero value means at least
/// one job is queued.
pub fn job_pending(flag: i32) -> (r: bool)
    ensures
        r == (flag != 0),
{
    flag != 0
}

/// Decodes the status code of one pending-job execution.
pub fn job_outcome(code: i32) -> (r: JobOutcome)
    ensures
        r == outcome_of(code),
{
    if code == 0 {
        JobOutcome::Empty
    } else if code == 1 {
        JobOutcome::Ran
    } else {
        JobOutcome::Threw
    }
}

impl JobOutcome {
    /// The host-facing result when no exception has to be surfaced:
    /// `Some(false)` for an empty queue, `Some(true)` for a completed job,
    /// `None` when the job threw and the thrown value must be extracted.
    pub fn completed(self) -> (r: Option<bool>)
        ensures
            self == JobOutcome::Empty ==> r == Some(false),
            self == JobOutcome::Ran ==> r == Some(true),
            self == JobOutcome::Threw ==> r.is_none(),
    {
        match self {
            JobOutcome::Empty => Some(false),
            JobOutcome::Ran => Some(true),
            JobOutcome::Threw => None,
        }
    }
}

} // verus!
