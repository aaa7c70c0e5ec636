//! Run shell commands as jobs: launch them, query their state, find their
//! output and stop them, with every operation reserved to the job's owner.
//!
//! The library holds the decisions; the process itself is driven by the
//! caller, which reports what the operating system answered.
pub mod api;
pub mod client;
pub mod command;
pub mod job;
pub mod job_error;
pub mod job_id;
pub mod job_status;
pub mod registry;
pub mod security;
pub mod text;

pub use client::{Status, WorkerClient};
pub use command::Command;
pub use job::{ExitCheck, Job, JobRequest, JobState, Launch, Signal};
pub use job_error::JobError;
pub use job_status::{ExitOutcome, JobStatus};
pub use registry::{Registry, RegistryError};
pub use security::{Claims, User};
