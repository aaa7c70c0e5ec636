//! The registry: the jobs of a service, each under its identifier.
//!
//! The registry decides nothing about a job. It finds the entry and hands
//! the request on; who may do what is the job's affair. It is a plain value:
//! a service that shares it between threads keeps it behind a lock.
use crate::command::Command;
use crate::job::{ExitCheck, Job, JobRequest, JobState, Launch, Signal};
use crate::job_error::JobError;
use crate::job_id::output_name;
use crate::job_status::JobStatus;
use crate::text::is_blank;
use std::collections::HashMap;
use vstd::prelude::*;
use vstd::std_specs::convert::FromSpec;

verus! {

/// Why the registry, or the job it found, refused a request.
#[derive(Debug)]
pub enum RegistryError {
    /// There is an entry for the identifier already.
    Conflict,
    /// There is no entry for the identifier.
    NotFound,
    /// The job refused.
    Job(JobError),
}

/// The jobs of a registry as plain values, by identifier.
pub type Jobs = Map<u128, JobState>;

/// The entries after an attempt to insert `job` under `id`: an identifier
/// is taken once and for all.
pub open spec fn after_insert(jobs: Jobs, id: u128, job: JobState) -> Jobs {
    if jobs.contains_key(id) {
        jobs
    } else {
        jobs.insert(id, job)
    }
}

/// The answer to an attempt to insert a job under `id`.
pub open spec fn insert_reply(jobs: Jobs, id: u128) -> Result<(), RegistryError> {
    if jobs.contains_key(id) {
        Err(RegistryError::Conflict)
    } else {
        Ok(())
    }
}

/// The entries after `as_user` asked for the status of job `id`.
pub open spec fn after_status(
    jobs: Jobs,
    id: u128,
    as_user: Seq<char>,
    observed: Option<ExitCheck>,
) -> Jobs {
    if jobs.contains_key(id) {
        jobs.insert(id, jobs[id].after_status(as_user, observed))
    } else {
        jobs
    }
}

/// The answer to `as_user` asking for the status of job `id`.
pub open spec fn status_reply(
    jobs: Jobs,
    id: u128,
    as_user: Seq<char>,
    observed: Option<ExitCheck>,
) -> Result<JobStatus, RegistryError> {
    if jobs.contains_key(id) {
        match jobs[id].status_reply(as_user, observed) {
            Ok(status) => Ok(status),
            Err(e) => Err(RegistryError::Job(e)),
        }
    } else {
        Err(RegistryError::NotFound)
    }
}

/// The entries after `as_user` asked to stop job `id`.
pub open spec fn after_stop(
    jobs: Jobs,
    id: u128,
    as_user: Seq<char>,
    signalled: Option<Signal>,
) -> Jobs {
    if jobs.contains_key(id) {
        jobs.insert(id, jobs[id].after_stop(as_user, signalled))
    } else {
        jobs
    }
}

/// The answer to `as_user` asking to stop job `id`.
pub open spec fn stop_reply(jobs: Jobs, id: u128, as_user: Seq<char>) -> Result<(), RegistryError> {
    if jobs.contains_key(id) {
        match jobs[id].stop_reply(as_user) {
            Ok(()) => Ok(()),
            Err(e) => Err(RegistryError::Job(e)),
        }
    } else {
        Err(RegistryError::NotFound)
    }
}

/// The answer to `as_user` asking for the output of job `id`.
pub open spec fn output_reply(jobs: Jobs, id: u128, as_user: Seq<char>) -> Result<
    Seq<char>,
    RegistryError,
> {
    if jobs.contains_key(id) {
        match jobs[id].output_reply(as_user) {
            Ok(name) => Ok(name),
            Err(e) => Err(RegistryError::Job(e)),
        }
    } else {
        Err(RegistryError::NotFound)
    }
}

/// Whether a request of `as_user` for job `id` reaches a process.
pub open spec fn touches_process(jobs: Jobs, id: u128, as_user: Seq<char>) -> bool {
    jobs.contains_key(id) && jobs[id].touches_process(as_user)
}

/// Something that happens to a registry: an attempt to insert a job, or a
/// request to the job under an identifier.
pub enum Event {
    Insert(u128, JobState),
    Request(u128, JobRequest),
}

/// The entries after an event.
pub open spec fn after(jobs: Jobs, event: Event) -> Jobs {
    match event {
        Event::Insert(id, job) => after_insert(jobs, id, job),
        Event::Request(id, request) => if jobs.contains_key(id) {
            jobs.insert(id, jobs[id].after(request))
        } else {
            jobs
        },
    }
}

/// The entries after a series of events, the first of them first.
pub open spec fn after_all(jobs: Jobs, events: Seq<Event>) -> Jobs
    decreases events.len(),
{
    if events.len() == 0 {
        jobs
    } else {
        after_all(after(jobs, events[0]), events.drop_first())
    }
}

/// The jobs of a service.
pub struct Registry {
    jobs: HashMap<u128, Job>,
}

impl View for Registry {
    type V = Jobs;

    closed spec fn view(&self) -> Jobs {
        self.jobs@.map_values(|job: Job| job@)
    }
}

impl Registry {
    /// A registry without jobs.
    pub fn new() -> (registry: Registry)
        ensures
            registry@ == Map::<u128, JobState>::empty(),
    {
        let registry = Registry { jobs: HashMap::new() };
        assert(registry@ =~= Map::<u128, JobState>::empty());
        registry
    }

    /// The number of jobs.
    pub fn len(&self) -> (n: usize)
        ensures
            n == self@.len(),
            self@.dom().finite(),
    {
        assert(self@.dom() =~= self.jobs@.dom());
        self.jobs.len()
    }

    /// Whether there is a job under `id`.
    pub fn contains(&self, id: u128) -> (b: bool)
        ensures
            b == self@.contains_key(id),
    {
        self.jobs.contains_key(&id)
    }

    /// Puts `job` under `id`, unless the identifier is taken: then the
    /// registry stays as it is, and the job is dropped.
    pub fn insert(&mut self, id: u128, job: Job) -> (r: Result<(), RegistryError>)
        ensures
            final(self)@ == after_insert(old(self)@, id, job@),
            r == insert_reply(old(self)@, id),
    {
        if self.jobs.contains_key(&id) {
            Err(RegistryError::Conflict)
        } else {
            self.jobs.insert(id, job);
            assert(self@ =~= old(self)@.insert(id, job@));
            Ok(())
        }
    }

    /// What must be launched for a new job `id` to run `command_line`, as
    /// [`Job::launch_plan`] gives it, unless the identifier is taken.
    pub fn launch_plan(&self, id: u128, command_line: &str) -> (r: Result<Launch, RegistryError>)
        ensures
            match r {
                Ok(launch) => {
                    &&& !self@.contains_key(id)
                    &&& Command::parse_ok(command_line@, launch.command)
                    &&& launch.output@ == output_name(id)
                },
                Err(RegistryError::Conflict) => self@.contains_key(id),
                Err(RegistryError::Job(JobError::InvalidCommand(text))) => {
                    &&& !self@.contains_key(id)
                    &&& is_blank(command_line@)
                    &&& text@ == command_line@
                },
                Err(_) => false,
            },
    {
        if self.jobs.contains_key(&id) {
            return Err(RegistryError::Conflict);
        }
        match Job::launch_plan(id, command_line) {
            Ok(plan) => Ok(plan),
            Err(e) => Err(RegistryError::Job(e)),
        }
    }

    /// Creates the job `id` of `owner` for `command_line` and puts it under
    /// its identifier, given what came of launching its process. A taken
    /// identifier is refused before anything else; after that the job is
    /// made as [`Job::new`] makes it. Only a job that was made is entered.
    pub fn create(
        &mut self,
        id: u128,
        owner: &str,
        command_line: &str,
        spawned: Result<(), std::io::Error>,
    ) -> (r: Result<(), RegistryError>)
        ensures
            match r {
                Ok(()) => {
                    &&& !old(self)@.contains_key(id)
                    &&& !is_blank(command_line@)
                    &&& spawned is Ok
                    &&& final(self)@ == old(self)@.insert(
                        id,
                        JobState::launched(id, owner@, command_line@),
                    )
                },
                Err(RegistryError::Conflict) => {
                    &&& old(self)@.contains_key(id)
                    &&& final(self)@ == old(self)@
                },
                Err(RegistryError::Job(JobError::InvalidCommand(text))) => {
                    &&& !old(self)@.contains_key(id)
                    &&& is_blank(command_line@)
                    &&& text@ == command_line@
                    &&& final(self)@ == old(self)@
                },
                Err(RegistryError::Job(e)) => {
                    &&& !old(self)@.contains_key(id)
                    &&& !is_blank(command_line@)
                    &&& spawned matches Err(cause)
                    &&& e == JobError::from_spec(cause)
                    &&& final(self)@ == old(self)@
                },
                Err(RegistryError::NotFound) => false,
            },
    {
        if self.jobs.contains_key(&id) {
            return Err(RegistryError::Conflict);
        }
        match Job::new(id, owner, command_line, spawned) {
            Ok(job) => {
                self.jobs.insert(id, job);
                assert(self@ =~= old(self)@.insert(id, job@));
                Ok(())
            },
            Err(e) => Err(RegistryError::Job(e)),
        }
    }

    /// The job under `id`, if there is one.
    pub fn get(&self, id: u128) -> (job: Option<&Job>)
        ensures
            match job {
                Some(found) => self@.contains_key(id) && found@ == self@[id],
                None => !self@.contains_key(id),
            },
    {
        self.jobs.get(&id)
    }

    /// Whether a request of `as_user` for job `id` reaches a process, so
    /// that the process has to be asked before [`Registry::status`] or
    /// [`Registry::stop`].
    pub fn touches_process(&self, id: u128, as_user: &str) -> (b: bool)
        ensures
            b == touches_process(self@, id, as_user@),
    {
        match self.jobs.get(&id) {
            Some(job) => job.touches_process(as_user),
            None => false,
        }
    }

    /// The status of job `id`, as [`Job::status`] gives it to `as_user`.
    pub fn status(&mut self, id: u128, as_user: &str, observed: Option<ExitCheck>) -> (r: Result<
        JobStatus,
        RegistryError,
    >)
        ensures
            final(self)@ == after_status(old(self)@, id, as_user@, observed),
            r == status_reply(old(self)@, id, as_user@, observed),
    {
        match self.jobs.remove(&id) {
            Some(mut job) => {
                let answer = job.status(as_user, observed);
                self.jobs.insert(id, job);
                assert(self@ =~= after_status(old(self)@, id, as_user@, observed));
                match answer {
                    Ok(status) => Ok(status),
                    Err(e) => Err(RegistryError::Job(e)),
                }
            },
            None => {
                assert(self@ =~= old(self)@);
                Err(RegistryError::NotFound)
            },
        }
    }

    /// Stops job `id`, as [`Job::stop`] does for `as_user`.
    pub fn stop(&mut self, id: u128, as_user: &str, signalled: Option<Signal>) -> (r: Result<
        (),
        RegistryError,
    >)
        ensures
            final(self)@ == after_stop(old(self)@, id, as_user@, signalled),
            r == stop_reply(old(self)@, id, as_user@),
    {
        match self.jobs.remove(&id) {
            Some(mut job) => {
                let answer = job.stop(as_user, signalled);
                self.jobs.insert(id, job);
                assert(self@ =~= after_stop(old(self)@, id, as_user@, signalled));
                match answer {
                    Ok(()) => Ok(()),
                    Err(e) => Err(RegistryError::Job(e)),
                }
            },
            None => {
                assert(self@ =~= old(self)@);
                Err(RegistryError::NotFound)
            },
        }
    }

    /// Applies an operation to the job under `id` and hands back its answer.
    /// The operation has the job to itself while it runs, and whatever it
    /// does to the job is what becomes of the entry. Without an entry
    /// nothing is applied.
    pub fn with_job<R, F: FnOnce(&mut Job) -> R>(&mut self, id: u128, f: F) -> (r: Result<
        R,
        RegistryError,
    >)
        requires
            forall|job: &mut Job| f.requires((job,)),
        ensures
            r is Ok <==> old(self)@.contains_key(id),
            r is Ok ==> final(self)@ == old(self)@.insert(id, final(self)@[id]),
            r is Ok ==> exists|job: &mut Job|
                {
                    &&& #[trigger] f.ensures((job,), r->Ok_0)
                    &&& (*job)@ == old(self)@[id]
                    &&& (*final(job))@ == final(self)@[id]
                },
            r is Err ==> r->Err_0 == RegistryError::NotFound && final(self)@ == old(self)@,
    {
        match self.jobs.remove(&id) {
            Some(mut job) => {
                assert(old(self)@.contains_key(id));
                let ghost before = job;
                let answer = f(&mut job);
                let ghost applied = choose|j: &mut Job| #[trigger]
                    f.ensures((j,), answer) && *j == before && *final(j) == job;
                self.jobs.insert(id, job);
                assert(self@ =~= old(self)@.insert(id, job@));
                let r: Result<R, RegistryError> = Ok(answer);
                assert(f.ensures((applied,), r->Ok_0));
                r
            },
            None => {
                assert(self@ =~= old(self)@);
                Err(RegistryError::NotFound)
            },
        }
    }

    /// The name of the file that holds the output of job `id`, as
    /// [`Job::output`] gives it to `as_user`.
    pub fn output(&self, id: u128, as_user: &str) -> (r: Result<String, RegistryError>)
        ensures
            match r {
                Ok(name) => output_reply(self@, id, as_user@) == Ok::<Seq<char>, RegistryError>(
                    name@,
                ),
                Err(e) => output_reply(self@, id, as_user@) == Err::<Seq<char>, RegistryError>(e),
            },
    {
        match self.jobs.get(&id) {
            Some(job) => match job.output(as_user) {
                Ok(name) => Ok(name),
                Err(e) => Err(RegistryError::Job(e)),
            },
            None => Err(RegistryError::NotFound),
        }
    }
}

/// An identifier is taken once: after a job was put under it, every later
/// attempt to put one there is refused with `Conflict` and changes nothing,
/// whatever happened to the registry in between.
pub proof fn law_create_once(
    jobs: Jobs,
    id: u128,
    first: JobState,
    between: Seq<Event>,
    second: JobState,
)
    requires
        insert_reply(jobs, id) is Ok,
    ensures
        insert_reply(after_all(after_insert(jobs, id, first), between), id) == Err::<
            (),
            RegistryError,
        >(RegistryError::Conflict),
        after_insert(after_all(after_insert(jobs, id, first), between), id, second) == after_all(
            after_insert(jobs, id, first),
            between,
        ),
{
    law_entries_stay(after_insert(jobs, id, first), id, between);
}

/// The registry never drops an entry: a job that is there is there after
/// any series of events.
pub proof fn law_entries_stay(jobs: Jobs, id: u128, events: Seq<Event>)
    requires
        jobs.contains_key(id),
    ensures
        after_all(jobs, events).contains_key(id),
    decreases events.len(),
{
    if events.len() > 0 {
        law_entries_stay(after(jobs, events[0]), id, events.drop_first());
    }
}

/// Through the registry, too, only the owner reaches a job: to anyone else
/// every request for it answers `Unauthorized`, and no entry changes.
pub proof fn law_registry_isolation(
    jobs: Jobs,
    id: u128,
    as_user: Seq<char>,
    observed: Option<ExitCheck>,
    signalled: Option<Signal>,
)
    requires
        jobs.contains_key(id),
        as_user != jobs[id].owner,
    ensures
        status_reply(jobs, id, as_user, observed) == Err::<JobStatus, RegistryError>(
            RegistryError::Job(JobError::Unauthorized),
        ),
        after_status(jobs, id, as_user, observed) == jobs,
        stop_reply(jobs, id, as_user) == Err::<(), RegistryError>(
            RegistryError::Job(JobError::Unauthorized),
        ),
        after_stop(jobs, id, as_user, signalled) == jobs,
        output_reply(jobs, id, as_user) == Err::<Seq<char>, RegistryError>(
            RegistryError::Job(JobError::Unauthorized),
        ),
        !touches_process(jobs, id, as_user),
{
    assert(after_status(jobs, id, as_user, observed) =~= jobs);
    assert(after_stop(jobs, id, as_user, signalled) =~= jobs);
}

/// A request for one job leaves every other job as it was.
pub proof fn law_jobs_are_apart(jobs: Jobs, id: u128, other: u128, request: JobRequest)
    requires
        jobs.contains_key(other),
        other != id,
    ensures
        after(jobs, Event::Request(id, request)).contains_key(other),
        after(jobs, Event::Request(id, request))[other] == jobs[other],
{
}

} // verus!
