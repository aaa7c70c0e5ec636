//! Errors of a job.
use vstd::prelude::*;
use vstd::std_specs::convert::FromSpecImpl;

verus! {

/// `std::io::Error`, carried as it is: nothing inside it is visible here.
#[verifier::external_type_specification]
#[verifier::external_body]
pub struct ExIoError(std::io::Error);

/// Whether an error says that something does not exist: whether its kind,
/// as `std::io::Error::kind` gives it, is `std::io::ErrorKind::NotFound`.
pub uninterp spec fn is_not_found(error: std::io::Error) -> bool;

/// `std::io::Error::kind`, compared with `ErrorKind::NotFound`, taken on
/// trust: the answer is the one that `is_not_found` names for this error.
#[verifier::external_body]
fn kind_is_not_found(error: &std::io::Error) -> (b: bool)
    ensures
        b == is_not_found(*error),
{
    error.kind() == std::io::ErrorKind::NotFound
}

/// `Display` of `std::io::Error`: the description of the error, which for
/// an error of the operating system is worded by the platform. Nothing is
/// claimed of the text.
#[verifier::external_body]
fn io_error_text(error: &std::io::Error) -> (text: String) {
    error.to_string()
}

/// Error type for jobs.
#[derive(Debug)]
pub enum JobError {
    /// The command line holds no program to run; it is kept as it was given.
    InvalidCommand(String),
    /// The program of the command cannot be found.
    CommandNotFound,
    /// Any other I/O error met while launching the command, such as lacking
    /// the permission to create the file that stores its output.
    IoError(std::io::Error),
    /// The acting user is not the owner of the job.
    Unauthorized,
}

impl From<std::io::Error> for JobError {
    fn from(error: std::io::Error) -> (e: Self) {
        if kind_is_not_found(&error) {
            JobError::CommandNotFound
        } else {
            JobError::IoError(error)
        }
    }
}

impl FromSpecImpl<std::io::Error> for JobError {
    open spec fn obeys_from_spec() -> bool {
        true
    }

    open spec fn from_spec(error: std::io::Error) -> Self {
        if is_not_found(error) {
            JobError::CommandNotFound
        } else {
            JobError::IoError(error)
        }
    }
}

impl JobError {
    /// The message of this error, for people.
    pub fn message(&self) -> (text: String)
        ensures
            match *self {
                JobError::InvalidCommand(command) => text@ == "Invalid command "@ + command@,
                JobError::CommandNotFound => text@ == "Command not found"@,
                JobError::IoError(_) => "I/O error: "@.is_prefix_of(text@),
                JobError::Unauthorized => text@ == "Unauthorized"@,
            },
    {
        match self {
            JobError::InvalidCommand(command) => {
                String::from_str("Invalid command ").concat(command.as_str())
            },
            JobError::CommandNotFound => String::from_str("Command not found"),
            JobError::IoError(error) => {
                let detail = io_error_text(error);
                String::from_str("I/O error: ").concat(detail.as_str())
            },
            JobError::Unauthorized => String::from_str("Unauthorized"),
        }
    }
}

} // verus!
