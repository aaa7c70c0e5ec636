//! The service in front of the registry: what each request does to the
//! jobs, and which HTTP status answers it. The owner of a request is the
//! subject of the caller's token.
use crate::command::Command;
use crate::job::{ExitCheck, JobState, Launch, Signal};
use crate::job_error::{is_not_found, JobError};
use crate::job_id::output_name;
use crate::job_status::JobStatus;
use crate::registry::{
    after_status, after_stop, output_reply, status_reply, stop_reply, Jobs, Registry, RegistryError,
};
use crate::security::{user_id_of, Claims, User, TOKEN_LIFETIME};
use crate::text::is_blank;
use vstd::prelude::*;

verus! {

/// The HTTP statuses that the service answers with.
#[derive(Clone, Copy, Debug, PartialEq, Eq, Structural)]
pub enum HttpStatus {
    Success,
    Created,
    BadRequest,
    Unauthorized,
    Forbidden,
    NotFound,
    Conflict,
    InternalServerError,
}

impl HttpStatus {
    /// The number of the status.
    pub open spec fn number(self) -> u16 {
        match self {
            HttpStatus::Success => 200,
            HttpStatus::Created => 201,
            HttpStatus::BadRequest => 400,
            HttpStatus::Unauthorized => 401,
            HttpStatus::Forbidden => 403,
            HttpStatus::NotFound => 404,
            HttpStatus::Conflict => 409,
            HttpStatus::InternalServerError => 500,
        }
    }

    /// The number of the status.
    pub fn code(&self) -> (n: u16)
        ensures
            n == self.number(),
    {
        match self {
            HttpStatus::Success => 200,
            HttpStatus::Created => 201,
            HttpStatus::BadRequest => 400,
            HttpStatus::Unauthorized => 401,
            HttpStatus::Forbidden => 403,
            HttpStatus::NotFound => 404,
            HttpStatus::Conflict => 409,
            HttpStatus::InternalServerError => 500,
        }
    }
}

/// The status that answers a refusal: a taken identifier is a conflict, a
/// missing job is not found, a user who is not the owner is forbidden, a
/// command that cannot be run is a bad request, and anything else is an
/// error of the server.
pub open spec fn refusal(e: RegistryError) -> HttpStatus {
    match e {
        RegistryError::Conflict => HttpStatus::Conflict,
        RegistryError::NotFound => HttpStatus::NotFound,
        RegistryError::Job(JobError::Unauthorized) => HttpStatus::Forbidden,
        RegistryError::Job(JobError::CommandNotFound) => HttpStatus::BadRequest,
        RegistryError::Job(JobError::InvalidCommand(_)) => HttpStatus::BadRequest,
        RegistryError::Job(JobError::IoError(_)) => HttpStatus::InternalServerError,
    }
}

/// The status that answers a refusal.
pub fn status_of(e: &RegistryError) -> (status: HttpStatus)
    ensures
        status == refusal(*e),
{
    match e {
        RegistryError::Conflict => HttpStatus::Conflict,
        RegistryError::NotFound => HttpStatus::NotFound,
        RegistryError::Job(JobError::Unauthorized) => HttpStatus::Forbidden,
        RegistryError::Job(JobError::CommandNotFound) => HttpStatus::BadRequest,
        RegistryError::Job(JobError::InvalidCommand(_)) => HttpStatus::BadRequest,
        RegistryError::Job(JobError::IoError(_)) => HttpStatus::InternalServerError,
    }
}

/// The status that answers the creation of job `id`.
pub open spec fn create_status(
    jobs: Jobs,
    id: u128,
    command_line: Seq<char>,
    spawned: Result<(), std::io::Error>,
) -> HttpStatus {
    if jobs.contains_key(id) {
        HttpStatus::Conflict
    } else if is_blank(command_line) {
        HttpStatus::BadRequest
    } else {
        match spawned {
            Ok(()) => HttpStatus::Created,
            Err(cause) => if is_not_found(cause) {
                HttpStatus::BadRequest
            } else {
                HttpStatus::InternalServerError
            },
        }
    }
}

/// The service is up.
pub fn health() -> (status: HttpStatus)
    ensures
        status == HttpStatus::Success,
{
    HttpStatus::Success
}

/// Logs a user in at the time `now`, in seconds since the epoch: the claims
/// of the token to issue, or `Unauthorized` for a user who is not known.
pub fn login(user: User, now: usize) -> (r: Result<Claims, HttpStatus>)
    requires
        now + TOKEN_LIFETIME <= usize::MAX,
    ensures
        match r {
            Ok(claims) => {
                &&& user_id_of(user.name@) == Some(claims.sub@)
                &&& claims.user_name@ == user.name@
                &&& claims.iat == now
                &&& claims.exp == now + TOKEN_LIFETIME
            },
            Err(status) => user_id_of(user.name@) is None && status == HttpStatus::Unauthorized,
        },
{
    match crate::security::login(user, now) {
        Some(claims) => Ok(claims),
        None => Err(HttpStatus::Unauthorized),
    }
}

/// What must be launched before job `id` can be created, or the status
/// that refuses the creation before anything is launched: `Conflict` for a
/// taken identifier, `BadRequest` for a blank command line.
pub fn create_plan(jobs: &Registry, id: u128, command_line: &str) -> (r: Result<Launch, HttpStatus>)
    ensures
        match r {
            Ok(launch) => {
                &&& !jobs@.contains_key(id)
                &&& Command::parse_ok(command_line@, launch.command)
                &&& launch.output@ == output_name(id)
            },
            Err(status) => {
                &&& jobs@.contains_key(id) || is_blank(command_line@)
                &&& status == create_status(jobs@, id, command_line@, Ok(()))
            },
        },
{
    match jobs.launch_plan(id, command_line) {
        Ok(launch) => Ok(launch),
        Err(e) => Err(status_of(&e)),
    }
}

/// Creates job `id` for `owner`, given what came of launching its process,
/// and answers `Created`. Nothing is created under a taken identifier, for
/// a blank command line, or where the launch failed.
pub fn create(
    jobs: &mut Registry,
    owner: &str,
    id: u128,
    command_line: &str,
    spawned: Result<(), std::io::Error>,
) -> (status: HttpStatus)
    ensures
        status == create_status(old(jobs)@, id, command_line@, spawned),
        status == HttpStatus::Created ==> final(jobs)@ == old(jobs)@.insert(
            id,
            JobState::launched(id, owner@, command_line@),
        ),
        status != HttpStatus::Created ==> final(jobs)@ == old(jobs)@,
{
    match jobs.create(id, owner, command_line, spawned) {
        Ok(()) => HttpStatus::Created,
        Err(e) => status_of(&e),
    }
}

/// The status of job `id` for `as_user`, or the HTTP status of the refusal.
pub fn get(jobs: &mut Registry, id: u128, as_user: &str, observed: Option<ExitCheck>) -> (r: Result<
    JobStatus,
    HttpStatus,
>)
    ensures
        final(jobs)@ == after_status(old(jobs)@, id, as_user@, observed),
        r == (match status_reply(old(jobs)@, id, as_user@, observed) {
            Ok(status) => Ok::<JobStatus, HttpStatus>(status),
            Err(e) => Err(refusal(e)),
        }),
{
    match jobs.status(id, as_user, observed) {
        Ok(status) => Ok(status),
        Err(e) => Err(status_of(&e)),
    }
}

/// The name of the file with the output of job `id` for `as_user`, or the
/// HTTP status of the refusal.
pub fn get_output(jobs: &Registry, id: u128, as_user: &str) -> (r: Result<String, HttpStatus>)
    ensures
        match r {
            Ok(name) => output_reply(jobs@, id, as_user@) == Ok::<Seq<char>, RegistryError>(name@),
            Err(status) => output_reply(jobs@, id, as_user@) matches Err(e) && status == refusal(e),
        },
{
    match jobs.output(id, as_user) {
        Ok(name) => Ok(name),
        Err(e) => Err(status_of(&e)),
    }
}

/// Stops job `id` for `as_user`.
pub fn delete(jobs: &mut Registry, id: u128, as_user: &str, signalled: Option<Signal>) -> (status:
    HttpStatus)
    ensures
        final(jobs)@ == after_stop(old(jobs)@, id, as_user@, signalled),
        status == (match stop_reply(old(jobs)@, id, as_user@) {
            Ok(()) => HttpStatus::Success,
            Err(e) => refusal(e),
        }),
{
    match jobs.stop(id, as_user, signalled) {
        Ok(()) => HttpStatus::Success,
        Err(e) => status_of(&e),
    }
}

} // verus!
