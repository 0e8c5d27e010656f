use minisched::adapter::WaitProbe;
use minisched::task::{
    classify, ExitCode, FailureReason, LaunchOutcome, Space, State, Status, Task,
    ERRNO_NO_SUCH_PROCESS,
};

fn fresh_task(priority: u8, now: u64) -> Task {
    Task::new("/bin/ls".to_string(), None, Space::User, priority, now)
}

#[test]
fn new_task_starts_clean() {
    let t = Task::new(
        "/bin/echo".to_string(),
        Some(vec!["hi".to_string()]),
        Space::Kernal,
        7,
        42,
    );
    assert_eq!(t.state, State::New);
    assert_eq!(t.duration, 0);
    assert_eq!(t.priority, 7);
    assert!(t.exit_code.is_none());
    assert!(t.pid.is_none());
    assert!(t.failure.is_none());
    assert!(!t.aged);
    assert_eq!(t.get_space(), Space::Kernal);
    assert_eq!(t.get_date_time_created(), 42);
    assert!(t.needs_launch());
    assert!(t.is_wf());
}

#[test]
fn new_tasks_get_distinct_ids() {
    let a = fresh_task(1, 0);
    let b = fresh_task(1, 0);
    assert_ne!(a.get_id(), b.get_id());
}

#[test]
fn classify_is_the_exit_taxonomy() {
    assert_eq!(classify(&WaitProbe::Alive), Status::Running);
    assert_eq!(
        classify(&WaitProbe::Exited(0)),
        Status::Terminated(ExitCode::Success)
    );
    assert_eq!(
        classify(&WaitProbe::Exited(2)),
        Status::Terminated(ExitCode::Failure)
    );
    assert_eq!(
        classify(&WaitProbe::Exited(-1)),
        Status::Terminated(ExitCode::Failure)
    );
    assert_eq!(
        classify(&WaitProbe::OtherChange),
        Status::Terminated(ExitCode::Failure)
    );
}

#[test]
fn state_labels_match_console_names() {
    assert_eq!(State::New.label(), "NEW");
    assert_eq!(State::Ready.label(), "READY");
    assert_eq!(State::Running.label(), "RUNNING");
    assert_eq!(State::Waiting.label(), "WAITING");
    assert_eq!(State::Terminated.label(), "TERMINATED");
    assert_eq!(ExitCode::Success.label(), "0 (SUCCESS)");
    assert_eq!(ExitCode::Failure.label(), "1 (FAILURE)");
}

#[test]
fn launch_failure_is_terminal_without_a_handle() {
    let mut t = fresh_task(3, 10);
    t.make_ready();
    t.record_launch_failure("No such file or directory".to_string());
    assert_eq!(t.state, State::Terminated);
    assert_eq!(t.exit_code, Some(ExitCode::Failure));
    assert!(t.pid.is_none());
    assert_eq!(t.duration, 0);
    assert!(matches!(t.failure, Some(FailureReason::LaunchError(_))));
    assert!(t.is_wf());
}

#[test]
fn exit_outcome_iff_terminated_along_a_lifecycle() {
    let mut t = fresh_task(2, 0);
    assert_eq!(t.exit_code.is_some(), t.state == State::Terminated);
    t.make_ready();
    assert_eq!(t.exit_code.is_some(), t.state == State::Terminated);
    t.start_running(4321, 0);
    assert_eq!(t.exit_code.is_some(), t.state == State::Terminated);
    t.preempt(150);
    assert_eq!(t.exit_code.is_some(), t.state == State::Terminated);
    t.promote_if_aged();
    assert_eq!(t.state, State::Ready);
    t.restart(300);
    t.complete(ExitCode::Success, 450);
    assert_eq!(t.state, State::Terminated);
    assert_eq!(t.exit_code, Some(ExitCode::Success));
    assert!(t.is_wf());
}

#[test]
fn duration_accumulates_across_preemptions() {
    let mut t = fresh_task(2, 0);
    t.make_ready();
    t.start_running(4321, 100);
    t.preempt(250);
    assert_eq!(t.duration, 150);
    t.promote_if_aged();
    t.restart(400);
    assert_eq!(t.duration, 150);
    t.complete(ExitCode::Success, 475);
    assert_eq!(t.duration, 225);
}

#[test]
fn duration_charges_nothing_on_a_clock_that_reads_backwards() {
    let mut t = fresh_task(2, 0);
    t.make_ready();
    t.start_running(4321, 100);
    t.preempt(50);
    assert_eq!(t.duration, 0);
}

#[test]
fn duration_saturates_at_the_largest_value() {
    let mut t = fresh_task(2, 0);
    t.make_ready();
    t.start_running(4321, 0);
    t.duration = u64::MAX - 10;
    t.complete(ExitCode::Success, 100);
    assert_eq!(t.duration, u64::MAX);
}

#[test]
fn failed_wait_records_the_errno() {
    let mut t = fresh_task(2, 0);
    t.make_ready();
    t.start_running(4321, 0);
    t.fail_with(FailureReason::WaitError(10), 75);
    assert_eq!(t.state, State::Terminated);
    assert_eq!(t.exit_code, Some(ExitCode::Failure));
    assert!(matches!(t.failure, Some(FailureReason::WaitError(10))));
    assert_eq!(t.duration, 75);
    assert!(t.is_wf());
}

#[test]
fn failed_signal_records_the_errno() {
    let mut t = fresh_task(2, 0);
    t.make_ready();
    t.start_running(4321, 0);
    t.fail_with(FailureReason::SignalError(3), 5);
    assert_eq!(t.exit_code, Some(ExitCode::Failure));
    assert!(matches!(t.failure, Some(FailureReason::SignalError(3))));
    assert!(t.is_wf());
}

#[test]
fn pause_on_a_terminated_task_is_a_no_op() {
    let mut t = fresh_task(3, 10);
    t.make_ready();
    t.record_launch_failure("No such file or directory".to_string());
    let state = t.state;
    let duration = t.duration;
    let exit_code = t.exit_code;
    let aged = t.aged;
    t.pause(99_999);
    assert_eq!(t.state, state);
    assert_eq!(t.duration, duration);
    assert_eq!(t.exit_code, exit_code);
    assert_eq!(t.aged, aged);
    assert!(t.pid.is_none());
}

#[test]
fn pause_on_a_new_or_ready_task_is_a_no_op() {
    let mut t = fresh_task(3, 0);
    t.pause(100);
    assert_eq!(t.state, State::New);
    t.make_ready();
    t.pause(200);
    assert_eq!(t.state, State::Ready);
    assert_eq!(t.duration, 0);
}

#[test]
fn probe_without_a_handle_reports_no_such_process() {
    let t = fresh_task(1, 0);
    assert_eq!(t.get_current_state(), Err(ERRNO_NO_SUCH_PROCESS));
}

#[test]
fn probe_of_a_foreign_pid_reports_an_errno() {
    let mut t = fresh_task(1, 0);
    t.make_ready();
    // Not a child of this process, so the non-blocking wait must fail
    // with ECHILD rather than answer for it.
    t.start_running(999_999, 0);
    assert_eq!(t.get_current_state(), Err(10));
}

#[test]
fn run_on_a_failed_spawn_follows_the_failure_path() {
    let mut t = fresh_task(4, 0);
    t.make_ready();
    let mut chan = minisched::channel::CompletionChannel::new();
    let reported = t.run(
        LaunchOutcome::SpawnFailed("No such file or directory".to_string()),
        &mut chan,
        0,
    );
    assert_eq!(reported, Some(Status::Terminated(ExitCode::Failure)));
    assert_eq!(t.state, State::Terminated);
    assert_eq!(t.exit_code, Some(ExitCode::Failure));
    assert!(t.pid.is_none());
    assert_eq!(chan.recv(), Some(Status::Terminated(ExitCode::Failure)));
    assert_eq!(chan.recv(), None);
}
