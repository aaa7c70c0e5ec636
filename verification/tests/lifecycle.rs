use std::io::ErrorKind;
use worker::job_id::output_file;
use worker::{ExitCheck, ExitOutcome, Job, JobError, JobStatus, Signal};

const ALICE: &str = "alice";
const BOB: &str = "bob";

fn job(id: u128) -> Job {
    Job::new(id, ALICE, "sleep 100", Ok(())).unwrap()
}

fn exited(success: bool, code: Option<i32>) -> Option<ExitCheck> {
    Some(ExitCheck::Exited(ExitOutcome { success, code }))
}

#[test]
fn new_job_is_in_progress_and_holds_its_process() {
    let mut job = job(1);
    assert_eq!(job.get_id(), 1);
    assert!(job.has_process());
    assert!(job.touches_process(ALICE));
    assert!(!job.touches_process(BOB));
    assert_eq!(job.status(ALICE, None).unwrap(), JobStatus::InProgress);
}

#[test]
fn new_job_needs_a_command_and_a_process() {
    assert!(matches!(
        Job::new(1, ALICE, "", Ok(())),
        Err(JobError::InvalidCommand(text)) if text.is_empty()
    ));
    let missing = std::io::Error::new(ErrorKind::NotFound, "missing");
    assert!(matches!(
        Job::new(1, ALICE, " \n", Err(missing)),
        Err(JobError::InvalidCommand(text)) if text == " \n"
    ));
    let missing = std::io::Error::new(ErrorKind::NotFound, "missing");
    assert!(matches!(
        Job::new(1, ALICE, "nope-no-such-binary", Err(missing)),
        Err(JobError::CommandNotFound)
    ));
    let busy = std::io::Error::new(ErrorKind::WouldBlock, "busy");
    assert!(matches!(
        Job::new(1, ALICE, "ls", Err(busy)),
        Err(JobError::IoError(cause)) if cause.kind() == ErrorKind::WouldBlock
    ));
}

#[test]
fn strangers_change_nothing() {
    let mut job = job(2);
    assert!(matches!(job.status(BOB, exited(true, Some(0))), Err(JobError::Unauthorized)));
    assert!(matches!(job.status(BOB, Some(ExitCheck::Failed)), Err(JobError::Unauthorized)));
    assert!(matches!(job.stop(BOB, Some(Signal::Failed)), Err(JobError::Unauthorized)));
    assert!(matches!(job.output(BOB), Err(JobError::Unauthorized)));
    assert!(matches!(job.status(""  , None), Err(JobError::Unauthorized)));
    assert!(job.has_process());
    assert_eq!(job.status(ALICE, None).unwrap(), JobStatus::InProgress);
}

#[test]
fn observed_exit_makes_the_job_done() {
    let mut job = job(3);
    assert_eq!(
        job.status(ALICE, Some(ExitCheck::Running)).unwrap(),
        JobStatus::InProgress
    );
    assert!(job.has_process());
    let done = job.status(ALICE, exited(false, Some(2))).unwrap();
    assert_eq!(done, JobStatus::Done(ExitOutcome { success: false, code: Some(2) }));
    assert!(done.is_terminal());
    assert!(!job.has_process());
    assert!(!job.touches_process(ALICE));
}

#[test]
fn failed_look_makes_the_job_failed() {
    let mut job = job(4);
    assert_eq!(job.status(ALICE, Some(ExitCheck::Failed)).unwrap(), JobStatus::Failed);
    assert!(!job.has_process());
    assert_eq!(job.status(ALICE, exited(true, Some(0))).unwrap(), JobStatus::Failed);
}

#[test]
fn terminal_status_is_stable() {
    let mut job = job(5);
    let done = job.status(ALICE, exited(true, Some(0))).unwrap();
    assert_eq!(job.status(ALICE, Some(ExitCheck::Running)).unwrap(), done);
    assert_eq!(job.status(ALICE, exited(false, Some(9))).unwrap(), done);
    assert_eq!(job.status(ALICE, Some(ExitCheck::Failed)).unwrap(), done);
    assert!(job.stop(ALICE, Some(Signal::Failed)).is_ok());
    assert_eq!(job.status(ALICE, None).unwrap(), done);
}

#[test]
fn stop_does_not_wait_and_is_idempotent() {
    let mut job = job(6);
    assert!(job.stop(ALICE, Some(Signal::Sent)).is_ok());
    assert!(job.has_process());
    assert_eq!(job.status(ALICE, Some(ExitCheck::Running)).unwrap(), JobStatus::InProgress);
    assert!(job.stop(ALICE, Some(Signal::Sent)).is_ok());
    assert!(job.has_process());
    let done = job.status(ALICE, exited(false, None)).unwrap();
    assert_eq!(done, JobStatus::Done(ExitOutcome { success: false, code: None }));
    assert!(job.stop(ALICE, None).is_ok());
    assert!(job.stop(ALICE, Some(Signal::Sent)).is_ok());
    assert_eq!(job.status(ALICE, None).unwrap(), done);
}

#[test]
fn failed_signal_makes_the_job_failed() {
    let mut job = job(7);
    assert!(job.stop(ALICE, Some(Signal::Failed)).is_ok());
    assert!(!job.has_process());
    assert_eq!(job.status(ALICE, exited(true, Some(0))).unwrap(), JobStatus::Failed);
    assert!(job.stop(ALICE, Some(Signal::Failed)).is_ok());
    assert_eq!(job.status(ALICE, None).unwrap(), JobStatus::Failed);
}

#[test]
fn output_is_the_same_in_every_state() {
    let id = 0x0123_4567_89ab_cdef_0123_4567_89ab_cdef_u128;
    let name = "01234567-89ab-cdef-0123-456789abcdef.txt";
    let mut job = job(id);
    assert_eq!(job.output(ALICE).unwrap(), name);
    let _ = job.status(ALICE, exited(true, Some(0)));
    assert_eq!(job.output(ALICE).unwrap(), name);

    let mut failed = Job::new(id, ALICE, "ls", Ok(())).unwrap();
    let _ = failed.stop(ALICE, Some(Signal::Failed));
    assert_eq!(failed.output(ALICE).unwrap(), name);
    assert_eq!(output_file(id), name);
}

#[test]
fn output_file_is_named_by_the_hyphenated_identifier() {
    assert_eq!(output_file(0), "00000000-0000-0000-0000-000000000000.txt");
    assert_eq!(output_file(1), "00000000-0000-0000-0000-000000000001.txt");
    assert_eq!(output_file(u128::MAX), "ffffffff-ffff-ffff-ffff-ffffffffffff.txt");
    assert_eq!(
        output_file(0xf14f83b7_c626_4255_9da4_cec1ac22b4a1),
        "f14f83b7-c626-4255-9da4-cec1ac22b4a1.txt"
    );
}

#[test]
fn status_texts() {
    assert_eq!(JobStatus::InProgress.to_text(""), "IN_PROGRESS");
    assert_eq!(JobStatus::Failed.to_text("ignored"), "FAILED");
    let done = JobStatus::Done(ExitOutcome { success: true, code: Some(0) });
    assert_eq!(done.to_text("exit status: 0"), "DONE(exit status: 0)");
    assert_eq!(done.exit_code(), Some(0));
    assert_eq!(JobStatus::Failed.exit_code(), None);
    assert!(!JobStatus::InProgress.is_terminal());
    assert!(JobStatus::Failed.is_terminal());
    assert!(!JobStatus::Failed.succeeded());
}
