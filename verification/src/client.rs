//! The client side of the job service: which request each operation sends,
//! and what an answer of the service means. Sending is left to the caller.
use crate::job_id::{hyphenated, uuid_text};
use crate::text::{decimal, decimal_text};
use vstd::prelude::*;

verus! {

/// Errors of the client.
#[derive(Debug)]
pub enum Error {
    /// The service answered with this HTTP status, which is no success.
    ApiError(u16),
    /// The client does not know the endpoint that the operation needs.
    InternalError,
}

/// The HTTP method of a request.
#[derive(Clone, Copy, Debug, PartialEq, Eq, Structural)]
pub enum Method {
    Get,
    Post,
    Delete,
}

/// What a request carries as JSON.
#[derive(Debug)]
pub enum Body {
    /// Nothing.
    Empty,
    /// The credentials of a user.
    Login { name: String, password: String },
    /// A job to start.
    NewJob { id: u128, command_line: String },
}

/// A request to the service.
#[derive(Debug)]
pub struct Request {
    pub method: Method,
    pub url: String,
    /// The token to authenticate with, where the operation needs one.
    pub token: Option<String>,
    pub body: Body,
}

/// The status of a job as the service reports it.
#[derive(Debug)]
pub struct Status {
    pub status: String,
    pub exit_status: Option<i32>,
}

/// HTTP statuses from 200 to 299 report success.
pub open spec fn is_success(code: u16) -> bool {
    200 <= code < 300
}

/// Accepts an answer of the service by its HTTP status: any status that
/// does not report success is an error that carries it.
pub fn accept(code: u16) -> (r: Result<(), Error>)
    ensures
        is_success(code) ==> r == Ok::<(), Error>(()),
        !is_success(code) ==> r == Err::<(), Error>(Error::ApiError(code)),
{
    if 200 <= code && code < 300 {
        Ok(())
    } else {
        Err(Error::ApiError(code))
    }
}

/// The path that a table of endpoints gives for a name: that of the first
/// entry with this name.
pub open spec fn path_of(endpoints: Seq<(String, String)>, name: Seq<char>) -> Option<Seq<char>>
    decreases endpoints.len(),
{
    if endpoints.len() == 0 {
        None
    } else if endpoints[0].0@ == name {
        Some(endpoints[0].1@)
    } else {
        path_of(endpoints.drop_first(), name)
    }
}

/// The parameters for talking to the job service.
pub struct WorkerClient {
    pub base_url: String,
    pub endpoints: Vec<(String, String)>,
}

impl WorkerClient {
    /// The URL of an endpoint of this client, as a value.
    pub open spec fn url_of(self, name: Seq<char>) -> Option<Seq<char>> {
        match path_of(self.endpoints@, name) {
            Some(path) => Some(self.base_url@ + path),
            None => None,
        }
    }

    /// The URL of job `id`, where the client knows the endpoint of the jobs.
    pub open spec fn job_url_of(self, id: u128) -> Option<Seq<char>> {
        match self.url_of("jobs"@) {
            Some(jobs) => Some(jobs + "/"@ + hyphenated(id)),
            None => None,
        }
    }

    /// A client with the default base URL and endpoints.
    pub fn new() -> (client: WorkerClient)
        ensures
            client.base_url@ == "https://localhost:8000"@,
            client.endpoints@.len() == 2,
            client.endpoints@[0].0@ == "login"@,
            client.endpoints@[0].1@ == "/auth/login"@,
            client.endpoints@[1].0@ == "jobs"@,
            client.endpoints@[1].1@ == "/v1/jobs"@,
            client.url_of("login"@) == Some("https://localhost:8000"@ + "/auth/login"@),
            client.url_of("jobs"@) == Some("https://localhost:8000"@ + "/v1/jobs"@),
    {
        let mut endpoints: Vec<(String, String)> = Vec::new();
        endpoints.push((String::from_str("login"), String::from_str("/auth/login")));
        endpoints.push((String::from_str("jobs"), String::from_str("/v1/jobs")));
        let client = WorkerClient { base_url: String::from_str("https://localhost:8000"), endpoints };
        proof {
            reveal_strlit("login");
            reveal_strlit("jobs");
            reveal_with_fuel(path_of, 3);
            assert(client.endpoints@.drop_first()[0] == client.endpoints@[1]);
        }
        client
    }

    /// The URL of the endpoint `name`: the base URL followed by the path of
    /// the endpoint, or nothing where the client knows no such endpoint.
    pub fn endpoint(&self, name: &str) -> (url: Option<String>)
        ensures
            match url {
                Some(text) => self.url_of(name@) == Some(text@),
                None => self.url_of(name@) is None,
            },
    {
        let mut i: usize = 0;
        assert(self.endpoints@.skip(0) =~= self.endpoints@);
        while i < self.endpoints.len()
            invariant
                i <= self.endpoints.len(),
                path_of(self.endpoints@, name@) == path_of(self.endpoints@.skip(i as int), name@),
            decreases self.endpoints.len() - i,
        {
            assert(self.endpoints@.skip(i as int).drop_first() =~= self.endpoints@.skip(i + 1));
            if name.eq(self.endpoints[i].0.as_str()) {
                let url = self.base_url.clone().concat(self.endpoints[i].1.as_str());
                return Some(url);
            }
            i += 1;
        }
        None
    }

    /// The URL under which the service answers for job `id`.
    pub fn job_url(&self, id: u128) -> (url: Option<String>)
        ensures
            match url {
                Some(text) => self.job_url_of(id) == Some(text@),
                None => self.job_url_of(id) is None,
            },
    {
        match self.endpoint("jobs") {
            Some(jobs) => Some(jobs.concat("/").concat(uuid_text(id).as_str())),
            None => None,
        }
    }

    /// The request that logs `user` in. The answer to it carries a token.
    pub fn login(&self, user: &str, password: &str) -> (r: Result<Request, Error>)
        ensures
            match r {
                Ok(request) => {
                    &&& self.url_of("login"@) == Some(request.url@)
                    &&& request.method == Method::Post
                    &&& request.token is None
                    &&& request.body matches Body::Login { name, password: secret }
                    &&& name@ == user@
                    &&& secret@ == password@
                },
                Err(e) => self.url_of("login"@) is None && e == Error::InternalError,
            },
    {
        match self.endpoint("login") {
            Some(url) => Ok(
                Request {
                    method: Method::Post,
                    url,
                    token: None,
                    body: Body::Login {
                        name: String::from_str(user),
                        password: String::from_str(password),
                    },
                },
            ),
            None => Err(Error::InternalError),
        }
    }

    /// The request that starts job `id` with `command_line`.
    pub fn start(&self, token: &str, id: u128, command_line: &str) -> (r: Result<Request, Error>)
        ensures
            match r {
                Ok(request) => {
                    &&& self.url_of("jobs"@) == Some(request.url@)
                    &&& request.method == Method::Post
                    &&& request.token matches Some(bearer)
                    &&& bearer@ == token@
                    &&& request.body matches Body::NewJob { id: job, command_line: text }
                    &&& job == id
                    &&& text@ == command_line@
                },
                Err(e) => self.url_of("jobs"@) is None && e == Error::InternalError,
            },
    {
        match self.endpoint("jobs") {
            Some(url) => Ok(
                Request {
                    method: Method::Post,
                    url,
                    token: Some(String::from_str(token)),
                    body: Body::NewJob { id, command_line: String::from_str(command_line) },
                },
            ),
            None => Err(Error::InternalError),
        }
    }

    /// The request that asks for the status of job `id`.
    pub fn status(&self, token: &str, id: u128) -> (r: Result<Request, Error>)
        ensures
            match r {
                Ok(request) => {
                    &&& self.job_url_of(id) == Some(request.url@)
                    &&& request.method == Method::Get
                    &&& request.token matches Some(bearer)
                    &&& bearer@ == token@
                    &&& request.body is Empty
                },
                Err(e) => self.job_url_of(id) is None && e == Error::InternalError,
            },
    {
        match self.job_url(id) {
            Some(url) => Ok(
                Request {
                    method: Method::Get,
                    url,
                    token: Some(String::from_str(token)),
                    body: Body::Empty,
                },
            ),
            None => Err(Error::InternalError),
        }
    }

    /// The request that asks for the output of job `id`.
    pub fn output(&self, token: &str, id: u128) -> (r: Result<Request, Error>)
        ensures
            match r {
                Ok(request) => {
                    &&& self.job_url_of(id) matches Some(job)
                    &&& request.url@ == job + "/output"@
                    &&& request.method == Method::Get
                    &&& request.token matches Some(bearer)
                    &&& bearer@ == token@
                    &&& request.body is Empty
                },
                Err(e) => self.job_url_of(id) is None && e == Error::InternalError,
            },
    {
        match self.job_url(id) {
            Some(url) => Ok(
                Request {
                    method: Method::Get,
                    url: url.concat("/output"),
                    token: Some(String::from_str(token)),
                    body: Body::Empty,
                },
            ),
            None => Err(Error::InternalError),
        }
    }

    /// The request that stops job `id`.
    pub fn stop(&self, token: &str, id: u128) -> (r: Result<Request, Error>)
        ensures
            match r {
                Ok(request) => {
                    &&& self.job_url_of(id) == Some(request.url@)
                    &&& request.method == Method::Delete
                    &&& request.token matches Some(bearer)
                    &&& bearer@ == token@
                    &&& request.body is Empty
                },
                Err(e) => self.job_url_of(id) is None && e == Error::InternalError,
            },
    {
        match self.job_url(id) {
            Some(url) => Ok(
                Request {
                    method: Method::Delete,
                    url,
                    token: Some(String::from_str(token)),
                    body: Body::Empty,
                },
            ),
            None => Err(Error::InternalError),
        }
    }
}

impl Status {
    /// The status in one line: its name, then in brackets the exit code
    /// in decimal, or `_` where there is none.
    pub fn line(&self) -> (text: String)
        ensures
            text@ == self.status@ + " ("@ + (match self.exit_status {
                Some(code) => decimal(code as int),
                None => "_"@,
            }) + ")"@,
    {
        let head = self.status.clone().concat(" (");
        match self.exit_status {
            Some(code) => head.concat(decimal_text(code).as_str()).concat(")"),
            None => head.concat("_").concat(")"),
        }
    }
}

} // verus!
