//! What is known about the process of a job.
use vstd::prelude::*;

verus! {

/// How a process ended: whether it reported success, and its exit code where
/// the operating system gave one (a process killed by a signal has none).
#[derive(Clone, Copy, Debug, PartialEq, Eq, Structural)]
pub struct ExitOutcome {
    pub success: bool,
    pub code: Option<i32>,
}

/// Status of a job.
#[derive(Clone, Copy, Debug, PartialEq, Eq, Structural)]
pub enum JobStatus {
    /// The job has been launched and its exit has not been observed yet.
    InProgress,
    /// The process could not be queried or signalled.
    Failed,
    /// The process has ended, with this outcome.
    Done(ExitOutcome),
}

impl JobStatus {
    /// `Failed` and `Done` are terminal: a job never leaves them.
    pub open spec fn terminal(self) -> bool {
        !(self is InProgress)
    }

    /// The exit code that the status carries, if any.
    pub open spec fn code(self) -> Option<i32> {
        match self {
            JobStatus::Done(outcome) => outcome.code,
            _ => None,
        }
    }

    /// The status as a text: `IN_PROGRESS`, `FAILED`, or `DONE` with the
    /// description of the exit in brackets. The description is `exit`, the
    /// wording of the platform for how the process ended.
    pub open spec fn text(self, exit: Seq<char>) -> Seq<char> {
        match self {
            JobStatus::InProgress => "IN_PROGRESS"@,
            JobStatus::Failed => "FAILED"@,
            JobStatus::Done(_) => "DONE("@ + exit + ")"@,
        }
    }

    /// The status as a text, see [`JobStatus::text`].
    pub fn to_text(&self, exit: &str) -> (text: String)
        ensures
            text@ == self.text(exit@),
    {
        match self {
            JobStatus::InProgress => String::from_str("IN_PROGRESS"),
            JobStatus::Failed => String::from_str("FAILED"),
            JobStatus::Done(_) => String::from_str("DONE(").concat(exit).concat(")"),
        }
    }

    pub fn is_terminal(&self) -> (b: bool)
        ensures
            b == self.terminal(),
    {
        match self {
            JobStatus::InProgress => false,
            _ => true,
        }
    }

    /// The exit code of a finished job.
    pub fn exit_code(&self) -> (c: Option<i32>)
        ensures
            c == self.code(),
    {
        match self {
            JobStatus::Done(outcome) => outcome.code,
            _ => None,
        }
    }

    /// Whether the job has ended and its process reported success.
    pub fn succeeded(&self) -> (b: bool)
        ensures
            b == (self matches JobStatus::Done(outcome) && outcome.success),
    {
        match self {
            JobStatus::Done(outcome) => outcome.success,
            _ => false,
        }
    }
}

} // verus!
