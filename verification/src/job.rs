//! A job: one command run as a process, and what is known of that process.
//!
//! A job never touches the process itself. Whoever drives it checks with
//! [`Job::touches_process`] whether a request reaches the process, asks the
//! operating system, and hands the answer to [`Job::status`] or
//! [`Job::stop`], which decide what becomes of the job.
use crate::command::Command;
use crate::job_error::JobError;
use crate::job_id::{output_file, output_name};
use crate::job_status::{ExitOutcome, JobStatus};
use crate::text::{blank, is_blank};
use vstd::prelude::*;
use vstd::std_specs::convert::FromSpec;

verus! {

/// What a non-blocking look at the process found.
#[derive(Clone, Copy, Debug, PartialEq, Eq, Structural)]
pub enum ExitCheck {
    /// The process has not ended.
    Running,
    /// The process has ended, with this outcome.
    Exited(ExitOutcome),
    /// The operating system could not tell.
    Failed,
}

/// What became of the request to kill the process.
#[derive(Clone, Copy, Debug, PartialEq, Eq, Structural)]
pub enum Signal {
    /// The signal is on its way; the process may still be running.
    Sent,
    /// The operating system refused to send it.
    Failed,
}

/// What has to be launched for a job.
pub struct Launch {
    /// The program and its arguments.
    pub command: Command,
    /// The name of the file that takes the output: standard output and
    /// standard error together, in the order in which they arrive.
    pub output: String,
}

/// What a job is, as a plain value.
pub struct JobState {
    pub id: u128,
    pub owner: Seq<char>,
    pub command_line: Seq<char>,
    pub status: JobStatus,
    /// Whether the job still holds its process.
    pub has_process: bool,
}

impl JobState {
    /// A job holds its process exactly as long as it is in progress.
    pub open spec fn consistent(self) -> bool {
        self.has_process == !self.status.terminal()
    }

    /// A job that has just been launched.
    pub open spec fn launched(id: u128, owner: Seq<char>, command_line: Seq<char>) -> JobState {
        JobState { id, owner, command_line, status: JobStatus::InProgress, has_process: true }
    }

    /// The job with its process given up and a terminal status.
    pub open spec fn ended(self, status: JobStatus) -> JobState {
        JobState { status, has_process: false, ..self }
    }

    /// Whether a request of `as_user` reaches the process: the user owns the
    /// job and the job is in progress.
    pub open spec fn touches_process(self, as_user: Seq<char>) -> bool {
        as_user == self.owner && !self.status.terminal()
    }

    /// The job after a look at its process found `observed` (`None`: nobody
    /// looked). Only a job in progress changes.
    pub open spec fn after_check(self, observed: Option<ExitCheck>) -> JobState {
        if self.status.terminal() {
            self
        } else {
            match observed {
                Some(ExitCheck::Exited(outcome)) => self.ended(JobStatus::Done(outcome)),
                Some(ExitCheck::Failed) => self.ended(JobStatus::Failed),
                _ => self,
            }
        }
    }

    /// The job after the signal to kill its process met with `signalled`
    /// (`None`: none was sent). Only a job in progress changes, and only
    /// where the signal could not be sent.
    pub open spec fn after_signal(self, signalled: Option<Signal>) -> JobState {
        if !self.status.terminal() && signalled == Some(Signal::Failed) {
            self.ended(JobStatus::Failed)
        } else {
            self
        }
    }

    /// The job after `as_user` asked for its status.
    pub open spec fn after_status(self, as_user: Seq<char>, observed: Option<ExitCheck>) -> JobState {
        if as_user == self.owner {
            self.after_check(observed)
        } else {
            self
        }
    }

    /// The answer to `as_user` asking for the status.
    pub open spec fn status_reply(
        self,
        as_user: Seq<char>,
        observed: Option<ExitCheck>,
    ) -> Result<JobStatus, JobError> {
        if as_user == self.owner {
            Ok(self.after_check(observed).status)
        } else {
            Err(JobError::Unauthorized)
        }
    }

    /// The job after `as_user` asked to stop it.
    pub open spec fn after_stop(self, as_user: Seq<char>, signalled: Option<Signal>) -> JobState {
        if as_user == self.owner {
            self.after_signal(signalled)
        } else {
            self
        }
    }

    /// The answer to `as_user` asking to stop the job.
    pub open spec fn stop_reply(self, as_user: Seq<char>) -> Result<(), JobError> {
        if as_user == self.owner {
            Ok(())
        } else {
            Err(JobError::Unauthorized)
        }
    }

    /// The answer to `as_user` asking where the output of the job is: the
    /// name of the file, or the refusal.
    pub open spec fn output_reply(self, as_user: Seq<char>) -> Result<Seq<char>, JobError> {
        if as_user == self.owner {
            Ok(output_name(self.id))
        } else {
            Err(JobError::Unauthorized)
        }
    }

    /// The job after a request.
    pub open spec fn after(self, request: JobRequest) -> JobState {
        match request {
            JobRequest::Status(as_user, observed) => self.after_status(as_user, observed),
            JobRequest::Stop(as_user, signalled) => self.after_stop(as_user, signalled),
            JobRequest::Output(_) => self,
        }
    }

    /// The job after a series of requests, the first of them first.
    pub open spec fn after_all(self, requests: Seq<JobRequest>) -> JobState
        decreases requests.len(),
    {
        if requests.len() == 0 {
            self
        } else {
            self.after(requests[0]).after_all(requests.drop_first())
        }
    }
}

/// A request to a job, with the user who makes it and what the operating
/// system answered where the request reached the process.
pub enum JobRequest {
    Status(Seq<char>, Option<ExitCheck>),
    Stop(Seq<char>, Option<Signal>),
    Output(Seq<char>),
}

/// The status of a job together with its hold on the process. The two
/// change together: the process is held exactly while the job is in progress.
#[derive(Clone, Copy)]
struct Lifecycle {
    status: JobStatus,
    has_process: bool,
}

impl Lifecycle {
    #[verifier::type_invariant]
    spec fn holds_process_while_running(self) -> bool {
        self.has_process == !self.status.terminal()
    }

    fn running() -> (life: Lifecycle)
        ensures
            life.status == JobStatus::InProgress,
            life.has_process,
    {
        Lifecycle { status: JobStatus::InProgress, has_process: true }
    }

    fn ended(status: JobStatus) -> (life: Lifecycle)
        requires
            status.terminal(),
        ensures
            life.status == status,
            !life.has_process,
    {
        Lifecycle { status, has_process: false }
    }
}

/// The details of a job.
pub struct Job {
    id: u128,
    command_line: String,
    owner: String,
    life: Lifecycle,
}

impl View for Job {
    type V = JobState;

    closed spec fn view(&self) -> JobState {
        JobState {
            id: self.id,
            owner: self.owner@,
            command_line: self.command_line@,
            status: self.life.status,
            has_process: self.life.has_process,
        }
    }
}

impl Job {
    /// What must be launched for a job `id` to run `command_line`: the
    /// program, its arguments, and the file that takes its output. A blank
    /// command line is refused.
    pub fn launch_plan(id: u128, command_line: &str) -> (r: Result<Launch, JobError>)
        ensures
            match r {
                Ok(launch) => {
                    &&& Command::parse_ok(command_line@, launch.command)
                    &&& launch.output@ == output_name(id)
                },
                Err(JobError::InvalidCommand(text)) => {
                    &&& is_blank(command_line@)
                    &&& text@ == command_line@
                },
                Err(_) => false,
            },
    {
        match Command::parse(command_line) {
            Ok(command) => Ok(Launch { command, output: output_file(id) }),
            Err(e) => Err(e),
        }
    }

    /// Creates the job `id` of `owner` for `command_line`, given what came
    /// of launching its process. There is a job only if there is a process:
    /// a blank command line is refused whatever `spawned` says, and a failed
    /// launch gives the error that its cause converts to.
    pub fn new(
        id: u128,
        owner: &str,
        command_line: &str,
        spawned: Result<(), std::io::Error>,
    ) -> (r: Result<Job, JobError>)
        ensures
            match r {
                Ok(job) => {
                    &&& !is_blank(command_line@)
                    &&& spawned is Ok
                    &&& job@ == JobState::launched(id, owner@, command_line@)
                },
                Err(JobError::InvalidCommand(text)) => {
                    &&& is_blank(command_line@)
                    &&& text@ == command_line@
                },
                Err(e) => {
                    &&& !is_blank(command_line@)
                    &&& spawned matches Err(cause)
                    &&& e == JobError::from_spec(cause)
                },
            },
    {
        if blank(command_line) {
            return Err(JobError::InvalidCommand(String::from_str(command_line)));
        }
        match spawned {
            Ok(()) => Ok(
                Job {
                    id,
                    command_line: String::from_str(command_line),
                    owner: String::from_str(owner),
                    life: Lifecycle::running(),
                },
            ),
            Err(cause) => Err(JobError::from(cause)),
        }
    }

    /// Whether a request of `as_user` reaches the process, so that the
    /// process has to be asked before [`Job::status`] or [`Job::stop`].
    pub fn touches_process(&self, as_user: &str) -> (b: bool)
        ensures
            b == self@.touches_process(as_user@),
    {
        as_user.eq(self.owner.as_str()) && !self.life.status.is_terminal()
    }

    /// The status of the job, for its owner only. While the job is in
    /// progress, `observed` decides: an observed exit makes the job `Done`, a
    /// failed look makes it `Failed`, and either gives up the process. A
    /// terminal status stays as it is.
    pub fn status(&mut self, as_user: &str, observed: Option<ExitCheck>) -> (r: Result<
        JobStatus,
        JobError,
    >)
        ensures
            final(self)@ == old(self)@.after_status(as_user@, observed),
            r == old(self)@.status_reply(as_user@, observed),
            final(self)@.consistent(),
    {
        proof {
            use_type_invariant(&self.life);
        }
        if !as_user.eq(self.owner.as_str()) {
            return Err(JobError::Unauthorized);
        }
        if !self.life.status.is_terminal() {
            match observed {
                Some(ExitCheck::Exited(outcome)) => {
                    self.life = Lifecycle::ended(JobStatus::Done(outcome));
                },
                Some(ExitCheck::Failed) => {
                    self.life = Lifecycle::ended(JobStatus::Failed);
                },
                _ => {},
            }
        }
        Ok(self.life.status)
    }

    /// The name of the file that holds the output of the job, for its owner
    /// only, whatever the status of the job.
    pub fn output(&self, as_user: &str) -> (r: Result<String, JobError>)
        ensures
            match r {
                Ok(name) => self@.output_reply(as_user@) == Ok::<Seq<char>, JobError>(name@),
                Err(e) => self@.output_reply(as_user@) == Err::<Seq<char>, JobError>(e),
            },
    {
        if !as_user.eq(self.owner.as_str()) {
            return Err(JobError::Unauthorized);
        }
        Ok(output_file(self.id))
    }

    /// Stops the job, for its owner only. The job does not wait for the
    /// process: a signal that was sent leaves the job in progress, and a
    /// later [`Job::status`] sees the end. A signal that could not be sent
    /// makes the job `Failed`. A job that has ended stays as it is.
    pub fn stop(&mut self, as_user: &str, signalled: Option<Signal>) -> (r: Result<(), JobError>)
        ensures
            final(self)@ == old(self)@.after_stop(as_user@, signalled),
            r == old(self)@.stop_reply(as_user@),
            final(self)@.consistent(),
    {
        proof {
            use_type_invariant(&self.life);
        }
        if !as_user.eq(self.owner.as_str()) {
            return Err(JobError::Unauthorized);
        }
        if !self.life.status.is_terminal() {
            match signalled {
                Some(Signal::Failed) => {
                    self.life = Lifecycle::ended(JobStatus::Failed);
                },
                _ => {},
            }
        }
        Ok(())
    }

    /// The identifier of the job.
    pub fn get_id(&self) -> (id: u128)
        ensures
            id == self@.id,
    {
        self.id
    }

    /// Whether the job still holds its process: true exactly while it is in
    /// progress.
    pub fn has_process(&self) -> (b: bool)
        ensures
            b == self@.has_process,
            self@.consistent(),
    {
        proof {
            use_type_invariant(&self.life);
        }
        self.life.has_process
    }
}

/// Only the owner reaches a job: to anyone else every request answers
/// `Unauthorized`, and the job stays as it was.
pub proof fn law_ownership_isolation(
    job: JobState,
    as_user: Seq<char>,
    observed: Option<ExitCheck>,
    signalled: Option<Signal>,
)
    requires
        as_user != job.owner,
    ensures
        job.status_reply(as_user, observed) == Err::<JobStatus, JobError>(JobError::Unauthorized),
        job.after_status(as_user, observed) == job,
        job.stop_reply(as_user) == Err::<(), JobError>(JobError::Unauthorized),
        job.after_stop(as_user, signalled) == job,
        job.output_reply(as_user) == Err::<Seq<char>, JobError>(JobError::Unauthorized),
        !job.touches_process(as_user),
{
}

/// No request changes who a job is: its identifier, its owner and its
/// command line stay, and it goes on holding its process exactly while it
/// is in progress.
pub proof fn law_identity_is_fixed(job: JobState, requests: Seq<JobRequest>)
    requires
        job.consistent(),
    ensures
        job.after_all(requests).id == job.id,
        job.after_all(requests).owner == job.owner,
        job.after_all(requests).command_line == job.command_line,
        job.after_all(requests).consistent(),
    decreases requests.len(),
{
    if requests.len() > 0 {
        law_identity_is_fixed(job.after(requests[0]), requests.drop_first());
    }
}

/// A job that has ended stays as it is, whatever is asked of it, by whom,
/// and whatever the operating system answers.
pub proof fn law_terminal_is_final(job: JobState, requests: Seq<JobRequest>)
    requires
        job.status.terminal(),
    ensures
        job.after_all(requests) == job,
    decreases requests.len(),
{
    if requests.len() > 0 {
        assert(job.after(requests[0]) == job);
        law_terminal_is_final(job, requests.drop_first());
    }
}

/// Once the owner has been told `Done` or `Failed`, the owner is told the
/// same ever after, whatever requests came in between.
pub proof fn law_terminal_stability(
    job: JobState,
    first: Option<ExitCheck>,
    between: Seq<JobRequest>,
    later: Option<ExitCheck>,
)
    requires
        job.status_reply(job.owner, first) matches Ok(status) && status.terminal(),
    ensures
        job.after_status(job.owner, first).after_all(between).status_reply(job.owner, later)
            == job.status_reply(job.owner, first),
{
    law_terminal_is_final(job.after_status(job.owner, first), between);
}

/// Stopping a job a second time answers as the first time did, to the owner
/// and to anyone else, and changes nothing where the first signal was sent
/// or the job had ended. The process is given up at most once: after either
/// call the job holds it exactly if it is in progress.
pub proof fn law_idempotent_stop(
    job: JobState,
    as_user: Seq<char>,
    first: Option<Signal>,
    second: Option<Signal>,
)
    requires
        job.consistent(),
    ensures
        job.after_stop(as_user, first).stop_reply(as_user) == job.stop_reply(as_user),
        job.after_stop(as_user, first).consistent(),
        job.after_stop(as_user, first).after_stop(as_user, second).consistent(),
        job.after_stop(as_user, first).status.terminal() ==> job.after_stop(as_user, first).after_stop(
            as_user,
            second,
        ) == job.after_stop(as_user, first),
        second != Some(Signal::Failed) ==> job.after_stop(as_user, first).after_stop(
            as_user,
            second,
        ) == job.after_stop(as_user, first),
{
}

/// The place of the output does not depend on the state of the job: a user
/// is told the same whatever the status is, and so before and after any
/// series of requests.
pub proof fn law_output_is_stable(
    job: JobState,
    as_user: Seq<char>,
    status: JobStatus,
    requests: Seq<JobRequest>,
)
    requires
        job.consistent(),
    ensures
        (JobState { status, has_process: !status.terminal(), ..job }).output_reply(as_user)
            == job.output_reply(as_user),
        job.after_all(requests).output_reply(as_user) == job.output_reply(as_user),
{
    law_identity_is_fixed(job, requests);
}

} // verus!
