//! The task state machine: identity, priority, lifecycle state, duration
//! accounting and terminal outcome of one schedulable unit of work.

use vstd::prelude::*;

use crate::adapter;
use crate::adapter::WaitProbe;
use crate::channel::CompletionChannel;

verus! {

/// `errno` value reported when a status probe is asked of a task that has
/// no process handle (no such process).
pub const ERRNO_NO_SUCH_PROCESS: i32 = 3;

/// A status a task reports on the completion channel.
#[derive(Debug, PartialEq, Eq, Structural, Copy, Clone)]
pub enum Status {
    Running,
    Terminated(ExitCode),
}

/// The terminal classification of a task.
#[derive(Debug, PartialEq, Eq, Structural, Copy, Clone)]
pub enum ExitCode {
    Success,
    Failure,
}

/// The lifecycle state of a task.
#[derive(Debug, PartialEq, Eq, Structural, Copy, Clone)]
pub enum State {
    New,
    Ready,
    Running,
    Waiting,
    Terminated,
}

/// The memory-space tag of a task.
#[derive(Debug, PartialEq, Eq, Structural, Copy, Clone)]
pub enum Space {
    User,
    Kernal,
}

/// Why a task was classified `Failure` through an operating-system error,
/// kept so the terminal report can show a diagnosable cause.
#[derive(Debug, Clone)]
pub enum FailureReason {
    /// Spawning the binary failed; carries the launch error message.
    LaunchError(String),
    /// A non-blocking wait query failed; carries the `errno` value.
    WaitError(i32),
    /// Delivering a stop or continue signal failed; carries the `errno`
    /// value.
    SignalError(i32),
}

/// What the caller's launch attempt produced, handed to [`Task::run`].
/// A launch is attempted exactly when the task has no process handle yet.
pub enum LaunchOutcome {
    /// The task already has a handle, so no spawn was attempted.
    NotAttempted,
    /// The spawn succeeded and produced this process id.
    Spawned(i32),
    /// The spawn failed; carries the launch error message.
    SpawnFailed(String),
}

/// One schedulable unit of work: a child process moved through the
/// lifecycle by the dispatcher and the scheduler loop.
pub struct Task {
    /// Lifecycle state; `Terminated` is absorbing.
    pub state: State,
    /// Wall-clock milliseconds spent in `Running`, accumulated over all
    /// scheduling ticks; never decreases.
    pub duration: u64,
    /// Scheduling priority; a lower value is served first.
    pub priority: u8,
    /// Terminal outcome; present exactly when the state is `Terminated`.
    pub exit_code: Option<ExitCode>,
    /// Globally unique identifier fixed at creation.
    pub id: u128,
    /// Process handle; present once the task has been launched.
    pub pid: Option<i32>,
    /// The binary the task launches.
    pub path_to_binary: String,
    /// Optional argument list for the binary.
    pub args: Option<Vec<String>>,
    /// Millisecond timestamp fixed at construction.
    pub created: u64,
    /// Millisecond timestamp of the last transition into `Running`.
    pub started: u64,
    /// Whether the task has run for at least one quantum, which qualifies
    /// it for a Waiting -> Ready promotion.
    pub aged: bool,
    /// The recorded OS error behind a `Failure` outcome, when there is one.
    pub failure: Option<FailureReason>,
    /// The memory-space tag given at construction.
    pub space: Space,
}

impl Task {
    /// The task has been handed a process handle at some point.
    pub open spec fn launched(self) -> bool {
        self.pid is Some
    }

    /// The task has reported its one status on the completion channel:
    /// that happens exactly when a launch was attempted, which either
    /// produced a handle or terminated the task at once.
    pub open spec fn notified(self) -> bool {
        self.launched() || self.state == State::Terminated
    }

    /// The state-machine invariant: the terminal outcome exists exactly in
    /// the terminal state, a task that holds or waits for the CPU has a
    /// handle, a waiting or requalified task has run at least one quantum
    /// — so a launched task is only ever ready again after a preemption,
    /// which stopped its process first — and a recorded OS error always
    /// belongs to a `Failure` outcome.
    pub open spec fn wf(self) -> bool {
        &&& (self.exit_code is Some <==> self.state == State::Terminated)
        &&& (self.state == State::New ==> self.pid is None)
        &&& (self.state == State::Running ==> self.pid is Some)
        &&& (self.state == State::Waiting ==> self.pid is Some && self.aged)
        &&& (self.state == State::Ready && self.pid is Some ==> self.aged)
        &&& (self.failure is Some ==> self.exit_code == Some(ExitCode::Failure))
    }

    /// The fields fixed at construction, which no transition may change.
    pub open spec fn same_identity(self, other: Task) -> bool {
        &&& self.id == other.id
        &&& self.priority == other.priority
        &&& self.path_to_binary == other.path_to_binary
        &&& self.args == other.args
        &&& self.created == other.created
        &&& self.space == other.space
    }

    /// The duration after charging the wall-clock time from the last entry
    /// into `Running` up to `now`: saturating, and charging nothing if the
    /// clock reads earlier than that entry.
    pub open spec fn dur_after(self, now: u64) -> u64 {
        let elapsed: int = if now >= self.started {
            now - self.started
        } else {
            0
        };
        if self.duration + elapsed <= u64::MAX {
            (self.duration + elapsed) as u64
        } else {
            u64::MAX
        }
    }

    /// Creates a task in state `New` with a fresh identifier, no process
    /// handle, no outcome, and zero accumulated duration. `now` is the
    /// creation timestamp in milliseconds.
    pub fn new(
        path_to_binary: String,
        args: Option<Vec<String>>,
        space: Space,
        priority: u8,
        now: u64,
    ) -> (t: Task)
        ensures
            t.wf(),
            t.state == State::New,
            t.duration == 0,
            t.priority == priority,
            t.exit_code is None,
            t.pid is None,
            t.failure is None,
            !t.aged,
            t.path_to_binary == path_to_binary,
            t.args == args,
            t.created == now,
            t.started == now,
            t.space == space,
    {
        Task {
            state: State::New,
            duration: 0,
            priority,
            exit_code: None,
            id: adapter::fresh_id(),
            pid: None,
            path_to_binary,
            args,
            created: now,
            started: now,
            aged: false,
            failure: None,
            space,
        }
    }

    /// The unique identifier fixed at creation.
    pub fn get_id(&self) -> (r: u128)
        ensures
            r == self.id,
    {
        self.id
    }

    /// The memory-space tag fixed at creation.
    pub fn get_space(&self) -> (r: Space)
        ensures
            r == self.space,
    {
        self.space
    }

    /// The creation timestamp in milliseconds.
    pub fn get_date_time_created(&self) -> (r: u64)
        ensures
            r == self.created,
    {
        self.created
    }

    /// Whether a dispatch must spawn the binary: true exactly while the
    /// task has never been launched.
    pub fn needs_launch(&self) -> (r: bool)
        ensures
            r <==> self.pid is None,
    {
        match self.pid {
            Some(_) => false,
            None => true,
        }
    }

    /// The task after one aging promotion: a waiting task that has run at
    /// least one quantum re-enters `Ready`; any other task is unchanged.
    pub open spec fn promoted(self) -> Task {
        if self.state == State::Waiting && self.aged {
            Task { state: State::Ready, ..self }
        } else {
            self
        }
    }

    /// Moves a new task into the schedulable pool.
    pub fn make_ready(&mut self)
        requires
            old(self).wf(),
            old(self).state == State::New,
        ensures
            final(self).wf(),
            final(self).same_identity(*old(self)),
            final(self).state == State::Ready,
            final(self).pid == old(self).pid,
            final(self).duration == old(self).duration,
            final(self).exit_code is None,
            final(self).aged == old(self).aged,
            final(self).started == old(self).started,
            final(self).failure == old(self).failure,
    {
        self.state = State::Ready;
    }

    /// Applies one aging promotion: a waiting task that has run at least
    /// one quantum re-enters `Ready`; any other task is left alone.
    pub fn promote_if_aged(&mut self)
        requires
            old(self).wf(),
        ensures
            final(self).wf(),
            *final(self) == old(self).promoted(),
    {
        if self.state == State::Waiting && self.aged {
            self.state = State::Ready;
        }
    }

    /// Records a failed spawn: the task terminates at once with `Failure`
    /// and the launch error message, without ever acquiring a process
    /// handle, and with no run time charged.
    pub fn record_launch_failure(&mut self, msg: String)
        requires
            old(self).wf(),
            old(self).state == State::Ready,
            old(self).pid is None,
        ensures
            final(self).wf(),
            final(self).same_identity(*old(self)),
            final(self).state == State::Terminated,
            final(self).exit_code == Some(ExitCode::Failure),
            final(self).pid is None,
            final(self).duration == old(self).duration,
            final(self).failure == Some(FailureReason::LaunchError(msg)),
            final(self).aged == old(self).aged,
            final(self).started == old(self).started,
    {
        self.exit_code = Some(ExitCode::Failure);
        self.state = State::Terminated;
        self.failure = Some(FailureReason::LaunchError(msg));
    }

    /// Records a successful spawn: the handle is stored, the task enters
    /// `Running`, and the entry time is noted for duration accounting.
    pub fn start_running(&mut self, pid: i32, now: u64)
        requires
            old(self).wf(),
            old(self).state == State::Ready,
            old(self).pid is None,
        ensures
            final(self).wf(),
            final(self).same_identity(*old(self)),
            final(self).state == State::Running,
            final(self).pid == Some(pid),
            final(self).started == now,
            final(self).duration == old(self).duration,
            final(self).exit_code is None,
            final(self).failure is None,
            final(self).aged == old(self).aged,
    {
        self.pid = Some(pid);
        self.state = State::Running;
        self.started = now;
    }

    /// Re-enters `Running` on a resume: the handle is kept and the entry
    /// time is noted for duration accounting.
    pub fn restart(&mut self, now: u64)
        requires
            old(self).wf(),
            old(self).state == State::Ready,
            old(self).pid is Some,
        ensures
            final(self).wf(),
            final(self).same_identity(*old(self)),
            final(self).state == State::Running,
            final(self).pid == old(self).pid,
            final(self).started == now,
            final(self).duration == old(self).duration,
            final(self).exit_code is None,
            final(self).aged == old(self).aged,
            final(self).failure == old(self).failure,
    {
        self.state = State::Running;
        self.started = now;
    }

    /// Moves a running task back to `Waiting` under preemption: the time
    /// since it entered `Running` is charged to its duration and it is
    /// marked aged, qualifying it for a later promotion to `Ready`.
    pub fn preempt(&mut self, now: u64)
        requires
            old(self).wf(),
            old(self).state == State::Running,
        ensures
            final(self).wf(),
            final(self).same_identity(*old(self)),
            final(self).state == State::Waiting,
            final(self).pid == old(self).pid,
            final(self).duration == old(self).dur_after(now),
            final(self).duration >= old(self).duration,
            final(self).aged,
            final(self).exit_code is None,
            final(self).started == old(self).started,
            final(self).failure == old(self).failure,
    {
        self.accumulate(now);
        self.state = State::Waiting;
        self.aged = true;
    }

    /// Moves a running task to `Terminated` on an observed exit: the time
    /// since it entered `Running` is charged and the outcome is recorded.
    pub fn complete(&mut self, code: ExitCode, now: u64)
        requires
            old(self).wf(),
            old(self).state == State::Running,
        ensures
            final(self).wf(),
            final(self).same_identity(*old(self)),
            final(self).state == State::Terminated,
            final(self).exit_code == Some(code),
            final(self).pid == old(self).pid,
            final(self).duration == old(self).dur_after(now),
            final(self).duration >= old(self).duration,
            final(self).aged == old(self).aged,
            final(self).started == old(self).started,
            final(self).failure is None,
    {
        self.accumulate(now);
        self.exit_code = Some(code);
        self.state = State::Terminated;
        self.failure = None;
    }

    /// Moves a running task to `Terminated` with `Failure` after an OS
    /// error (a failed wait query or a failed signal): the time since it
    /// entered `Running` is charged and the cause is recorded.
    pub fn fail_with(&mut self, reason: FailureReason, now: u64)
        requires
            old(self).wf(),
            old(self).state == State::Running,
        ensures
            final(self).wf(),
            final(self).same_identity(*old(self)),
            final(self).state == State::Terminated,
            final(self).exit_code == Some(ExitCode::Failure),
            final(self).pid == old(self).pid,
            final(self).duration == old(self).dur_after(now),
            final(self).duration >= old(self).duration,
            final(self).aged == old(self).aged,
            final(self).started == old(self).started,
            final(self).failure == Some(reason),
    {
        self.accumulate(now);
        self.exit_code = Some(ExitCode::Failure);
        self.state = State::Terminated;
        self.failure = Some(reason);
    }

    /// Moves a ready task to `Terminated` with `Failure` when its resume
    /// signal could not be delivered: no run time is charged, since the
    /// task never re-entered `Running`.
    fn fail_with_from_ready(&mut self, reason: FailureReason)
        requires
            old(self).wf(),
            old(self).state == State::Ready,
        ensures
            final(self).wf(),
            final(self).same_identity(*old(self)),
            final(self).state == State::Terminated,
            final(self).exit_code == Some(ExitCode::Failure),
            final(self).pid == old(self).pid,
            final(self).duration == old(self).duration,
            final(self).aged == old(self).aged,
            final(self).started == old(self).started,
            final(self).failure == Some(reason),
    {
        self.exit_code = Some(ExitCode::Failure);
        self.state = State::Terminated;
        self.failure = Some(reason);
    }

    /// Charges the wall-clock time from the last entry into `Running` up
    /// to `now`, saturating and never decreasing the duration.
    fn accumulate(&mut self, now: u64)
        ensures
            final(self).duration == old(self).dur_after(now),
            final(self).duration >= old(self).duration,
            final(self).state == old(self).state,
            final(self).exit_code == old(self).exit_code,
            final(self).pid == old(self).pid,
            final(self).aged == old(self).aged,
            final(self).started == old(self).started,
            final(self).failure == old(self).failure,
            final(self).same_identity(*old(self)),
    {
        let elapsed: u64 = if now >= self.started {
            now - self.started
        } else {
            0
        };
        if self.duration <= u64::MAX - elapsed {
            self.duration = self.duration + elapsed;
        } else {
            self.duration = u64::MAX;
        }
    }

    /// Executable form of the state-machine invariant [`Task::wf`], so
    /// that unverified callers can test it before relying on it.
    pub fn is_wf(&self) -> (r: bool)
        ensures
            r == self.wf(),
    {
        let terminal_iff_outcome: bool = match self.exit_code {
            Some(_) => self.state == State::Terminated,
            None => self.state != State::Terminated,
        };
        let handle_ok: bool = match self.pid {
            Some(_) => self.state != State::New,
            None => self.state != State::Running && self.state != State::Waiting,
        };
        let waiting_aged: bool = self.state != State::Waiting || self.aged;
        let ready_aged: bool = !(self.state == State::Ready && !self.needs_launch())
            || self.aged;
        let failure_ok: bool = match self.failure {
            Some(_) => match self.exit_code {
                Some(ExitCode::Failure) => true,
                _ => false,
            },
            None => true,
        };
        terminal_iff_outcome && handle_ok && waiting_aged && ready_aged && failure_ok
    }

    /// Pauses the task: when it is running, the stop signal is sent to its
    /// process and the task is preempted to `Waiting` with its run time
    /// charged; when the signal cannot be delivered, the task terminates
    /// with `Failure` and the `errno` value recorded. On a task that is
    /// not running — in particular an already-terminated one — this is a
    /// no-op: nothing is signalled and nothing changes.
    pub fn pause(&mut self, now: u64)
        requires
            old(self).wf(),
        ensures
            final(self).wf(),
            final(self).same_identity(*old(self)),
            final(self).duration >= old(self).duration,
            final(self).pid == old(self).pid,
            old(self).state != State::Running ==> *final(self) == *old(self),
            old(self).state == State::Running ==> final(self).duration == old(self).dur_after(
                now,
            ) && {
                ||| {
                    &&& final(self).state == State::Waiting
                    &&& final(self).aged
                    &&& final(self).exit_code is None
                }
                ||| {
                    &&& final(self).state == State::Terminated
                    &&& final(self).exit_code == Some(ExitCode::Failure)
                    &&& final(self).failure matches Some(FailureReason::SignalError(_))
                }
            },
    {
        if self.state == State::Running {
            let pid = match self.pid {
                Some(p) => p,
                None => {
                    proof {
                        assert(false);
                    }
                    0
                },
            };
            match adapter::send_stop(pid) {
                Ok(()) => self.preempt(now),
                Err(e) => self.fail_with(FailureReason::SignalError(e), now),
            }
        }
    }

    /// Resumes the task: when it is ready and holds a process handle, the
    /// continue signal is sent and the task re-enters `Running`; when the
    /// signal cannot be delivered, the task terminates with `Failure` and
    /// the `errno` value recorded. On any other task this is a no-op.
    pub fn resume(&mut self, now: u64)
        requires
            old(self).wf(),
        ensures
            final(self).wf(),
            final(self).same_identity(*old(self)),
            final(self).duration >= old(self).duration,
            final(self).pid == old(self).pid,
            !(old(self).state == State::Ready && old(self).pid is Some) ==> *final(self) == *old(
                self,
            ),
            old(self).state == State::Ready && old(self).pid is Some ==> final(self).duration
                == old(self).duration && {
                ||| {
                    &&& final(self).state == State::Running
                    &&& final(self).started == now
                    &&& final(self).exit_code is None
                }
                ||| {
                    &&& final(self).state == State::Terminated
                    &&& final(self).exit_code == Some(ExitCode::Failure)
                    &&& final(self).failure matches Some(FailureReason::SignalError(_))
                }
            },
    {
        if self.state == State::Ready {
            match self.pid {
                Some(p) => {
                    match adapter::send_continue(p) {
                        Ok(()) => self.restart(now),
                        Err(e) => self.fail_with_from_ready(FailureReason::SignalError(e)),
                    }
                },
                None => {},
            }
        }
    }
    /// Probes the task's process once, without blocking and without
    /// changing the task, and classifies the answer with [`classify`]:
    /// still alive means `Running`, a zero exit code means `Success`, and
    /// a nonzero exit code or any other state change means `Failure`. A
    /// task without a process handle, and a process the OS cannot answer
    /// for, yield the `errno` value instead. What the OS answers depends
    /// on the moment of the poll, so only the handle-less case is pinned
    /// here; the classification itself is pinned by [`classify`].
    pub fn get_current_state(&self) -> (r: Result<Status, i32>)
        ensures
            self.pid is None ==> r == Err::<Status, i32>(ERRNO_NO_SUCH_PROCESS),
    {
        match self.pid {
            Some(pid) => match adapter::probe_child(pid) {
                Ok(probe) => Ok(classify(&probe)),
                Err(e) => Err(e),
            },
            None => Err(ERRNO_NO_SUCH_PROCESS),
        }
    }

    /// Launches or resumes the task, handing it the CPU for one quantum.
    ///
    /// The caller attempts a spawn exactly when the task has no process
    /// handle yet and passes the outcome in `launch`. A failed spawn
    /// terminates the task at once with `Failure`, still without a handle.
    /// A successful spawn records the handle, enters `Running`, and probes
    /// the process once: if it already exited it is classified and
    /// terminated, and if it is still alive it is paused back to
    /// `Waiting`. Without a spawn the task is resumed with the continue
    /// signal. On the launch paths exactly one status is reported on the
    /// completion channel — the task's single notification; a resume
    /// reports nothing.
    ///
    /// Returns the status that was reported, if one was.
    pub fn run(&mut self, launch: LaunchOutcome, chan: &mut CompletionChannel, now: u64) -> (r:
        Option<Status>)
        requires
            old(self).wf(),
            old(self).state == State::Ready,
            (launch is NotAttempted) <==> old(self).pid is Some,
        ensures
            run_post(*old(self), *final(self), launch, now, r),
            r is Some ==> final(chan)@ == old(chan)@.push(r->0),
            r is None ==> final(chan)@ == old(chan)@,
    {
        match launch {
            LaunchOutcome::NotAttempted => {
                self.resume(now);
                None
            },
            LaunchOutcome::SpawnFailed(msg) => {
                self.record_launch_failure(msg);
                chan.send(Status::Terminated(ExitCode::Failure));
                Some(Status::Terminated(ExitCode::Failure))
            },
            LaunchOutcome::Spawned(pid) => {
                self.start_running(pid, now);
                match adapter::probe_child(pid) {
                    Ok(probe) => match classify(&probe) {
                        Status::Running => {
                            chan.send(Status::Running);
                            self.pause(now);
                            Some(Status::Running)
                        },
                        Status::Terminated(code) => {
                            self.complete(code, now);
                            chan.send(Status::Terminated(code));
                            Some(Status::Terminated(code))
                        },
                    },
                    Err(e) => {
                        self.fail_with(FailureReason::WaitError(e), now);
                        chan.send(Status::Terminated(ExitCode::Failure));
                        Some(Status::Terminated(ExitCode::Failure))
                    },
                }
            },
        }
    }
}

impl State {
    /// The console name of the state.
    pub fn label(&self) -> (r: &'static str)
        ensures
            self == State::New ==> r@ == "NEW"@,
            self == State::Ready ==> r@ == "READY"@,
            self == State::Running ==> r@ == "RUNNING"@,
            self == State::Waiting ==> r@ == "WAITING"@,
            self == State::Terminated ==> r@ == "TERMINATED"@,
    {
        match self {
            State::New => "NEW",
            State::Ready => "READY",
            State::Running => "RUNNING",
            State::Waiting => "WAITING",
            State::Terminated => "TERMINATED",
        }
    }
}

impl ExitCode {
    /// The console name of the exit classification.
    pub fn label(&self) -> (r: &'static str)
        ensures
            self == ExitCode::Success ==> r@ == "0 (SUCCESS)"@,
            self == ExitCode::Failure ==> r@ == "1 (FAILURE)"@,
    {
        match self {
            ExitCode::Success => "0 (SUCCESS)",
            ExitCode::Failure => "1 (FAILURE)",
        }
    }
}

/// How one dispatch relates a task before [`Task::run`] to the task after
/// it, given the launch outcome `launch`, the tick time `now`, and the
/// status `r` that the call reported on the completion channel.
pub open spec fn run_post(
    pre: Task,
    post: Task,
    launch: LaunchOutcome,
    now: u64,
    r: Option<Status>,
) -> bool {
    &&& post.wf()
    &&& post.same_identity(pre)
    &&& post.duration >= pre.duration
    &&& (launch matches LaunchOutcome::SpawnFailed(msg) ==> {
        &&& post.state == State::Terminated
        &&& post.exit_code == Some(ExitCode::Failure)
        &&& post.pid is None
        &&& post.duration == pre.duration
        &&& post.failure == Some(FailureReason::LaunchError(msg))
        &&& r == Some(Status::Terminated(ExitCode::Failure))
    })
    &&& (launch matches LaunchOutcome::Spawned(pid) ==> {
        &&& post.pid == Some(pid)
        &&& post.duration == pre.duration
        &&& (post.state == State::Waiting || post.state == State::Terminated)
        &&& (post.state == State::Waiting ==> r == Some(Status::Running) && post.aged)
        &&& (post.state == State::Terminated ==> (post.exit_code matches Some(c) && (r == Some(
            Status::Terminated(c),
        ) || (r == Some(Status::Running) && post.failure matches Some(
            FailureReason::SignalError(_),
        )))))
    })
    &&& (launch is NotAttempted ==> {
        &&& post.pid == pre.pid
        &&& post.duration == pre.duration
        &&& r is None
        &&& (post.state == State::Running || post.state == State::Terminated)
        &&& (post.state == State::Running ==> post.started == now)
        &&& (post.state == State::Terminated ==> post.exit_code == Some(ExitCode::Failure)
            && post.failure matches Some(FailureReason::SignalError(_)))
    })
    &&& (r is Some <==> !(launch is NotAttempted))
}

/// The exit-status classification: a live process keeps running, a zero
/// exit code is `Success`, and a nonzero exit code or any other state
/// change (a signal-terminated process among them) is `Failure`.
pub open spec fn classify_spec(probe: WaitProbe) -> Status {
    match probe {
        WaitProbe::Alive => Status::Running,
        WaitProbe::Exited(code) => if code == 0 {
            Status::Terminated(ExitCode::Success)
        } else {
            Status::Terminated(ExitCode::Failure)
        },
        WaitProbe::OtherChange => Status::Terminated(ExitCode::Failure),
    }
}

/// Classifies one non-blocking wait answer into a task status.
pub fn classify(probe: &WaitProbe) -> (s: Status)
    ensures
        s == classify_spec(*probe),
{
    match probe {
        WaitProbe::Alive => Status::Running,
        WaitProbe::Exited(code) => if *code == 0 {
            Status::Terminated(ExitCode::Success)
        } else {
            Status::Terminated(ExitCode::Failure)
        },
        WaitProbe::OtherChange => Status::Terminated(ExitCode::Failure),
    }
}

} // verus!
