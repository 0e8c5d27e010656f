//! The dispatcher and the scheduler loop's per-tick steps, over the whole
//! task collection: aging promotion, priority selection, dispatch, and
//! the post-quantum reconciliation of the running task.

use vstd::prelude::*;

use crate::channel::CompletionChannel;
use crate::task::{FailureReason, LaunchOutcome, Space, State, Status, Task};
use crate::task::run_post;

verus! {

/// How many tasks of `s` satisfy `pred`.
pub open spec fn count_matching(s: Seq<Task>, pred: spec_fn(Task) -> bool) -> int
    decreases s.len(),
{
    if s.len() == 0 {
        0
    } else {
        count_matching(s.drop_last(), pred) + if pred(s.last()) {
            1int
        } else {
            0int
        }
    }
}

/// How many tasks of `s` are in state `Running`.
pub open spec fn running_count(s: Seq<Task>) -> int {
    count_matching(s, |t: Task| t.state == State::Running)
}

/// How many tasks of `s` have reported their one status on the completion
/// channel.
pub open spec fn notified_count(s: Seq<Task>) -> int {
    count_matching(s, |t: Task| t.notified())
}

/// Every task of `s` has reached the absorbing terminal state.
pub open spec fn all_terminated_spec(s: Seq<Task>) -> bool {
    forall|i: int| 0 <= i < s.len() ==> (#[trigger] s[i]).state == State::Terminated
}

/// Replacing the task at `i` changes the matching count by the difference
/// the replacement makes at that one position.
pub proof fn lemma_count_update(s: Seq<Task>, i: int, t: Task, pred: spec_fn(Task) -> bool)
    requires
        0 <= i < s.len(),
    ensures
        count_matching(s.update(i, t), pred) == count_matching(s, pred) - (if pred(s[i]) {
            1int
        } else {
            0int
        }) + (if pred(t) {
            1int
        } else {
            0int
        }),
    decreases s.len(),
{
    let su = s.update(i, t);
    if i == s.len() - 1 {
        assert(su.drop_last() =~= s.drop_last());
    } else {
        assert(su.drop_last() =~= s.drop_last().update(i, t));
        lemma_count_update(s.drop_last(), i, t, pred);
    }
}

/// When `pred` holds of no task, the matching count is zero.
pub proof fn lemma_count_none(s: Seq<Task>, pred: spec_fn(Task) -> bool)
    requires
        forall|i: int| 0 <= i < s.len() ==> !pred(#[trigger] s[i]),
    ensures
        count_matching(s, pred) == 0,
    decreases s.len(),
{
    if s.len() > 0 {
        assert(forall|i: int| 0 <= i < s.drop_last().len() ==> s.drop_last()[i] == s[i]);
        lemma_count_none(s.drop_last(), pred);
    }
}

/// When `pred` holds of every task, the matching count is the length.
pub proof fn lemma_count_all(s: Seq<Task>, pred: spec_fn(Task) -> bool)
    requires
        forall|i: int| 0 <= i < s.len() ==> pred(#[trigger] s[i]),
    ensures
        count_matching(s, pred) == s.len(),
    decreases s.len(),
{
    if s.len() > 0 {
        assert(forall|i: int| 0 <= i < s.drop_last().len() ==> s.drop_last()[i] == s[i]);
        lemma_count_all(s.drop_last(), pred);
    }
}

/// Two collections that agree on `pred` position by position have the same
/// matching count.
pub proof fn lemma_count_pointwise(s1: Seq<Task>, s2: Seq<Task>, pred: spec_fn(Task) -> bool)
    requires
        s1.len() == s2.len(),
        forall|i: int| 0 <= i < s1.len() ==> (pred(#[trigger] s1[i]) <==> pred(#[trigger] s2[i])),
    ensures
        count_matching(s1, pred) == count_matching(s2, pred),
    decreases s1.len(),
{
    if s1.len() > 0 {
        assert(forall|i: int| 0 <= i < s1.drop_last().len() ==> s1.drop_last()[i] == s1[i]
            && s2.drop_last()[i] == s2[i]);
        lemma_count_pointwise(s1.drop_last(), s2.drop_last(), pred);
    }
}

/// Extending a prefix by one task adds that task's contribution to the
/// matching count.
pub proof fn lemma_count_take_step(s: Seq<Task>, k: int, pred: spec_fn(Task) -> bool)
    requires
        0 <= k < s.len(),
    ensures
        count_matching(s.take(k + 1), pred) == count_matching(s.take(k), pred) + (if pred(
            s[k],
        ) {
            1int
        } else {
            0int
        }),
{
    assert(s.take(k + 1).drop_last() =~= s.take(k));
    assert(s.take(k + 1).last() == s[k]);
}

/// The task at `i` is the one the dispatcher must hand the CPU: it is
/// `Ready`, no ready task has a numerically smaller priority value, and it
/// is the earliest-created such task (the first by position, positions
/// following creation order).
pub open spec fn selected_spec(s: Seq<Task>, i: int) -> bool {
    &&& 0 <= i < s.len()
    &&& s[i].state == State::Ready
    &&& (forall|j: int| 0 <= j < s.len() && (#[trigger] s[j]).state == State::Ready ==> s[i].priority
        <= s[j].priority)
    &&& (forall|j: int| 0 <= j < i ==> ((#[trigger] s[j]).state != State::Ready || s[j].priority
        > s[i].priority))
}

/// One task specification of the startup input: the binary, its optional
/// arguments, its memory-space tag and its priority.
pub struct TaskSpec {
    /// The binary the task launches.
    pub path_to_binary: String,
    /// Optional argument list for the binary.
    pub args: Option<Vec<String>>,
    /// The memory-space tag.
    pub space: Space,
    /// Scheduling priority; a lower value is served first.
    pub priority: u8,
}

/// The whole run: the fixed task collection and the completion channel the
/// tasks report on.
pub struct Scheduler {
    /// The task collection, in creation order.
    pub tasks: Vec<Task>,
    /// The completion channel, drained once per task after the loop exits.
    pub chan: CompletionChannel,
}

impl Scheduler {
    /// The run invariant: every task is well formed, at most one task
    /// holds the CPU, and the channel holds exactly one report per task
    /// that has announced itself.
    pub open spec fn wf(self) -> bool {
        &&& (forall|i: int| 0 <= i < self.tasks@.len() ==> (#[trigger] self.tasks@[i]).wf())
        &&& running_count(self.tasks@) <= 1
        &&& self.chan@.len() == notified_count(self.tasks@)
    }

    /// Builds the run from an ordered sequence of task specifications:
    /// one task per specification, in order, each in state `New`, with an
    /// empty completion channel. `now` is the creation timestamp in
    /// milliseconds.
    pub fn new(specs: Vec<TaskSpec>, now: u64) -> (s: Scheduler)
        ensures
            s.wf(),
            s.tasks@.len() == specs@.len(),
            s.chan@ == Seq::<Status>::empty(),
            forall|i: int|
                0 <= i < specs@.len() ==> {
                    let t = #[trigger] s.tasks@[i];
                    &&& t.state == State::New
                    &&& t.duration == 0
                    &&& t.priority == specs@[i].priority
                    &&& t.pid is None
                    &&& t.exit_code is None
                    &&& t.failure is None
                    &&& !t.aged
                    &&& t.path_to_binary == specs@[i].path_to_binary
                    &&& t.args == specs@[i].args
                    &&& t.space == specs@[i].space
                    &&& t.created == now
                },
    {
        let ghost specs0 = specs@;
        let mut rest = specs;
        let mut tasks: Vec<Task> = Vec::new();
        while rest.len() > 0
            invariant
                tasks@.len() + rest@.len() == specs0.len(),
                forall|j: int| 0 <= j < rest@.len() ==> #[trigger] rest@[j] == specs0[
                    tasks@.len() + j],
                forall|i: int|
                    0 <= i < tasks@.len() ==> {
                        let t = #[trigger] tasks@[i];
                        &&& t.state == State::New
                        &&& t.duration == 0
                        &&& t.priority == specs0[i].priority
                        &&& t.pid is None
                        &&& t.exit_code is None
                        &&& t.failure is None
                        &&& !t.aged
                        &&& t.path_to_binary == specs0[i].path_to_binary
                        &&& t.args == specs0[i].args
                        &&& t.space == specs0[i].space
                        &&& t.created == now
                    },
            decreases rest@.len(),
        {
            let sp = rest.remove(0);
            let TaskSpec { path_to_binary, args, space, priority } = sp;
            let t = Task::new(path_to_binary, args, space, priority, now);
            tasks.push(t);
        }
        let chan = CompletionChannel::new();
        let s = Scheduler { tasks, chan };
        proof {
            lemma_count_none(s.tasks@, |t: Task| t.state == State::Running);
            lemma_count_none(s.tasks@, |t: Task| t.notified());
        }
        s
    }

    /// Moves every task of the fixed startup set from `New` into the
    /// schedulable pool.
    pub fn make_all_ready(&mut self)
        requires
            old(self).wf(),
            forall|i: int| 0 <= i < old(self).tasks@.len() ==> (#[trigger] old(
                self,
            ).tasks@[i]).state == State::New,
        ensures
            final(self).wf(),
            final(self).chan@ == old(self).chan@,
            final(self).tasks@.len() == old(self).tasks@.len(),
            forall|i: int|
                0 <= i < old(self).tasks@.len() ==> {
                    let t0 = old(self).tasks@[i];
                    let t1 = #[trigger] final(self).tasks@[i];
                    &&& t1.state == State::Ready
                    &&& t1.same_identity(t0)
                    &&& t1.duration == t0.duration
                    &&& t1.pid == t0.pid
                    &&& t1.exit_code == t0.exit_code
                    &&& t1.aged == t0.aged
                    &&& t1.failure == t0.failure
                    &&& t1.started == t0.started
                },
    {
        let ghost orig = self.tasks@;
        let ghost chan0 = self.chan@;
        let n = self.tasks.len();
        let mut k: usize = 0;
        while k < n
            invariant
                k <= n,
                n == self.tasks@.len(),
                self.chan@ == chan0,
                forall|i: int| 0 <= i < n ==> (#[trigger] orig[i]).state == State::New,
                forall|i: int| 0 <= i < n ==> (#[trigger] orig[i]).wf(),
                forall|i: int| k <= i < n ==> #[trigger] self.tasks@[i] == orig[i],
                forall|i: int|
                    0 <= i < k ==> {
                        let t0 = orig[i];
                        let t1 = #[trigger] self.tasks@[i];
                        &&& t1.wf()
                        &&& t1.state == State::Ready
                        &&& t1.same_identity(t0)
                        &&& t1.duration == t0.duration
                        &&& t1.pid == t0.pid
                        &&& t1.exit_code == t0.exit_code
                        &&& t1.aged == t0.aged
                        &&& t1.failure == t0.failure
                        &&& t1.started == t0.started
                    },
            decreases n - k,
        {
            self.tasks[k].make_ready();
            k += 1;
        }
        proof {
            lemma_count_pointwise(self.tasks@, orig, |t: Task| t.state == State::Running);
            lemma_count_pointwise(self.tasks@, orig, |t: Task| t.notified());
        }
    }

    /// One dispatcher tick, before the hand-off: first every waiting task
    /// that has run at least one quantum is promoted back to `Ready`, then
    /// among the ready tasks the one with the numerically smallest
    /// priority value is picked, ties broken by the earliest position —
    /// creation order. Returns its index, or `None` on an idle tick.
    pub fn select(&mut self) -> (r: Option<usize>)
        requires
            old(self).wf(),
        ensures
            final(self).wf(),
            final(self).chan@ == old(self).chan@,
            final(self).tasks@.len() == old(self).tasks@.len(),
            forall|j: int| 0 <= j < old(self).tasks@.len() ==> #[trigger] final(self).tasks@[j]
                == old(self).tasks@[j].promoted(),
            forall|j: int|
                0 <= j < old(self).tasks@.len() ==> (#[trigger] final(self).tasks@[j]).duration
                    >= old(self).tasks@[j].duration,
            r matches Some(i) ==> selected_spec(final(self).tasks@, i as int),
            r is None ==> forall|j: int|
                0 <= j < final(self).tasks@.len() ==> (#[trigger] final(self).tasks@[j]).state
                    != State::Ready,
    {
        let ghost orig = self.tasks@;
        let ghost chan0 = self.chan@;
        let n = self.tasks.len();
        let mut k: usize = 0;
        while k < n
            invariant
                k <= n,
                n == self.tasks@.len(),
                self.chan@ == chan0,
                forall|i: int| 0 <= i < n ==> (#[trigger] orig[i]).wf(),
                forall|i: int| k <= i < n ==> #[trigger] self.tasks@[i] == orig[i],
                forall|i: int| 0 <= i < k ==> #[trigger] self.tasks@[i] == orig[i].promoted()
                    && self.tasks@[i].wf(),
            decreases n - k,
        {
            self.tasks[k].promote_if_aged();
            k += 1;
        }
        proof {
            lemma_count_pointwise(self.tasks@, orig, |t: Task| t.state == State::Running);
            lemma_count_pointwise(self.tasks@, orig, |t: Task| t.notified());
        }
        let mut best: Option<usize> = None;
        let mut k: usize = 0;
        while k < n
            invariant
                k <= n,
                n == self.tasks@.len(),
                match best {
                    None => forall|j: int|
                        0 <= j < k ==> (#[trigger] self.tasks@[j]).state != State::Ready,
                    Some(b) => {
                        &&& b < k
                        &&& self.tasks@[b as int].state == State::Ready
                        &&& (forall|j: int|
                            0 <= j < k && (#[trigger] self.tasks@[j]).state == State::Ready
                                ==> self.tasks@[b as int].priority <= self.tasks@[j].priority)
                        &&& (forall|j: int|
                            0 <= j < b ==> ((#[trigger] self.tasks@[j]).state != State::Ready
                                || self.tasks@[j].priority > self.tasks@[b as int].priority))
                    },
                },
            decreases n - k,
        {
            if self.tasks[k].state == State::Ready {
                match best {
                    None => {
                        best = Some(k);
                    },
                    Some(b) => {
                        if self.tasks[k].priority < self.tasks[b].priority {
                            best = Some(k);
                        }
                    },
                }
            }
            k += 1;
        }
        best
    }

    /// Hands the CPU to the selected ready task for one quantum, passing
    /// it the caller's launch outcome — a spawn is attempted exactly when
    /// the task has no process handle yet — while no task is running.
    /// Every other task is untouched. Returns the status the task reported
    /// on the completion channel, if one was.
    pub fn dispatch(&mut self, i: usize, launch: LaunchOutcome, now: u64) -> (r: Option<Status>)
        requires
            old(self).wf(),
            i < old(self).tasks@.len(),
            old(self).tasks@[i as int].state == State::Ready,
            (launch is NotAttempted) <==> old(self).tasks@[i as int].pid is Some,
            running_count(old(self).tasks@) == 0,
        ensures
            final(self).wf(),
            final(self).tasks@.len() == old(self).tasks@.len(),
            forall|j: int|
                0 <= j < old(self).tasks@.len() && j != i ==> #[trigger] final(self).tasks@[j]
                    == old(self).tasks@[j],
            run_post(
                old(self).tasks@[i as int],
                final(self).tasks@[i as int],
                launch,
                now,
                r,
            ),
            forall|j: int|
                0 <= j < old(self).tasks@.len() ==> (#[trigger] final(self).tasks@[j]).duration
                    >= old(self).tasks@[j].duration,
            r is Some ==> final(self).chan@ == old(self).chan@.push(r->0),
            r is None ==> final(self).chan@ == old(self).chan@,
    {
        let ghost orig = self.tasks@;
        let r = self.tasks[i].run(launch, &mut self.chan, now);
        proof {
            let t1 = self.tasks@[i as int];
            assert(self.tasks@ =~= orig.update(i as int, t1));
            lemma_count_update(orig, i as int, t1, |t: Task| t.state == State::Running);
            lemma_count_update(orig, i as int, t1, |t: Task| t.notified());
        }
        r
    }

    /// Reconciles the whole collection after the quantum sleep: the task
    /// that was running is probed once — still alive means it is preempted
    /// back to `Waiting`, an observed exit is classified and finalized,
    /// and a failed probe terminates it with `Failure`. Every other task,
    /// an already-terminated one in particular, is left alone. Returns
    /// whether every task has terminated, which ends the run.
    pub fn reconcile_all(&mut self, now: u64) -> (all_done: bool)
        requires
            old(self).wf(),
        ensures
            final(self).wf(),
            final(self).chan@ == old(self).chan@,
            final(self).tasks@.len() == old(self).tasks@.len(),
            running_count(final(self).tasks@) == 0,
            all_done <==> all_terminated_spec(final(self).tasks@),
            forall|j: int|
                0 <= j < old(self).tasks@.len() ==> reconcile_post(
                    old(self).tasks@[j],
                    #[trigger] final(self).tasks@[j],
                    now,
                ),
            forall|j: int|
                0 <= j < old(self).tasks@.len() ==> (#[trigger] final(self).tasks@[j]).duration
                    >= old(self).tasks@[j].duration,
    {
        let ghost orig = self.tasks@;
        let ghost chan0 = self.chan@;
        let n = self.tasks.len();
        let mut k: usize = 0;
        while k < n
            invariant
                k <= n,
                n == self.tasks@.len(),
                self.chan@ == chan0,
                forall|i: int| 0 <= i < n ==> (#[trigger] orig[i]).wf(),
                forall|i: int| k <= i < n ==> #[trigger] self.tasks@[i] == orig[i],
                forall|i: int| 0 <= i < k ==> reconcile_post(
                    orig[i],
                    #[trigger] self.tasks@[i],
                    now,
                ),
                forall|i: int| 0 <= i < k ==> (#[trigger] self.tasks@[i]).state
                    != State::Running,
            decreases n - k,
        {
            if self.tasks[k].state == State::Running {
                match self.tasks[k].get_current_state() {
                    Ok(Status::Running) => self.tasks[k].pause(now),
                    Ok(Status::Terminated(code)) => self.tasks[k].complete(code, now),
                    Err(e) => self.tasks[k].fail_with(FailureReason::WaitError(e), now),
                }
            }
            k += 1;
        }
        proof {
            lemma_count_none(self.tasks@, |t: Task| t.state == State::Running);
            lemma_count_pointwise(self.tasks@, orig, |t: Task| t.notified());
        }
        self.all_terminated()
    }

    /// Whether every task has reached the absorbing terminal state.
    pub fn all_terminated(&self) -> (r: bool)
        ensures
            r <==> all_terminated_spec(self.tasks@),
    {
        let n = self.tasks.len();
        let mut k: usize = 0;
        while k < n
            invariant
                k <= n,
                n == self.tasks@.len(),
                forall|i: int| 0 <= i < k ==> (#[trigger] self.tasks@[i]).state
                    == State::Terminated,
            decreases n - k,
        {
            if !(self.tasks[k].state == State::Terminated) {
                return false;
            }
            k += 1;
        }
        true
    }

    /// Whether some task currently holds the CPU. A `false` answer means
    /// a dispatch may hand the CPU out.
    pub fn has_running(&self) -> (r: bool)
        ensures
            r <==> exists|i: int|
                0 <= i < self.tasks@.len() && (#[trigger] self.tasks@[i]).state == State::Running,
            !r ==> running_count(self.tasks@) == 0,
    {
        let n = self.tasks.len();
        let mut k: usize = 0;
        while k < n
            invariant
                k <= n,
                n == self.tasks@.len(),
                forall|i: int| 0 <= i < k ==> (#[trigger] self.tasks@[i]).state
                    != State::Running,
            decreases n - k,
        {
            if self.tasks[k].state == State::Running {
                return true;
            }
            k += 1;
        }
        proof {
            lemma_count_none(self.tasks@, |t: Task| t.state == State::Running);
        }
        false
    }

    /// Executable form of the run invariant [`Scheduler::wf`], so that
    /// unverified callers can test it before relying on it.
    pub fn is_wf(&self) -> (r: bool)
        ensures
            r == self.wf(),
    {
        let n = self.tasks.len();
        let mut k: usize = 0;
        let mut all_ok = true;
        let mut running: usize = 0;
        let mut notified: usize = 0;
        while k < n
            invariant
                k <= n,
                n == self.tasks@.len(),
                all_ok <==> (forall|i: int| 0 <= i < k ==> (#[trigger] self.tasks@[i]).wf()),
                running == count_matching(
                    self.tasks@.take(k as int),
                    |t: Task| t.state == State::Running,
                ),
                notified == count_matching(self.tasks@.take(k as int), |t: Task| t.notified()),
                running <= k,
                notified <= k,
            decreases n - k,
        {
            if !self.tasks[k].is_wf() {
                all_ok = false;
            }
            proof {
                lemma_count_take_step(self.tasks@, k as int, |t: Task| t.state == State::Running);
                lemma_count_take_step(self.tasks@, k as int, |t: Task| t.notified());
            }
            if self.tasks[k].state == State::Running {
                running += 1;
            }
            let task_notified = match self.tasks[k].pid {
                Some(_) => true,
                None => self.tasks[k].state == State::Terminated,
            };
            if task_notified {
                notified += 1;
            }
            k += 1;
        }
        proof {
            assert(self.tasks@.take(n as int) =~= self.tasks@);
        }
        let chan_len = self.chan.len();
        all_ok && running <= 1 && chan_len == notified
    }

    /// Takes the oldest report off the completion channel, or `None` when
    /// every report has been drained. The task collection is untouched.
    pub fn drain(&mut self) -> (r: Option<Status>)
        ensures
            final(self).tasks@ == old(self).tasks@,
            old(self).chan@.len() == 0 ==> r is None && final(self).chan@ == old(self).chan@,
            old(self).chan@.len() > 0 ==> r == Some(old(self).chan@[0]) && final(self).chan@
                == old(self).chan@.skip(1),
    {
        self.chan.recv()
    }
}

/// How the reconciliation step relates a task before it to the task after
/// it: a task that was not running — an already-terminated one in
/// particular — is untouched, and the running task moves to `Waiting`
/// with its run time charged, or to `Terminated`.
pub open spec fn reconcile_post(pre: Task, post: Task, now: u64) -> bool {
    &&& post.wf()
    &&& post.same_identity(pre)
    &&& post.duration >= pre.duration
    &&& post.pid == pre.pid
    &&& (pre.state != State::Running ==> post == pre)
    &&& (pre.state == State::Running ==> (post.state == State::Waiting || post.state
        == State::Terminated))
    &&& (pre.state == State::Running && post.state == State::Waiting ==> post.aged
        && post.duration == pre.dur_after(now) && post.exit_code is None)
    &&& (pre.state == State::Running && post.state == State::Terminated ==> post.exit_code
        is Some && post.duration == pre.dur_after(now))
}

/// For every task the invariant admits, the terminal outcome exists
/// exactly in the terminal state — at every observation point, since
/// every operation of the library preserves the invariant.
pub proof fn lemma_exit_outcome_iff_terminated(t: Task)
    requires
        t.wf(),
    ensures
        t.exit_code is Some <==> t.state == State::Terminated,
{
}

/// At most one task holds the CPU in every scheduler state the invariant
/// admits — the single-CPU abstraction.
pub proof fn lemma_at_most_one_running(s: Scheduler)
    requires
        s.wf(),
    ensures
        running_count(s.tasks@) <= 1,
{
}

/// A continue signal is never sent before a stop signal: resuming needs a
/// ready task that already has a process handle, and the invariant makes
/// such a task carry the aging mark, which only the stop-and-preempt step
/// sets — so every resume follows an earlier preemption of that task.
pub proof fn lemma_continue_only_after_stop(t: Task)
    requires
        t.wf(),
        t.state == State::Ready,
        t.pid is Some,
    ensures
        t.aged,
{
}

/// Dispatcher selection is deterministic: the selection rule — smallest
/// priority value among the ready tasks, earliest position on a tie —
/// picks exactly one index of any task collection.
pub proof fn lemma_selection_deterministic(s: Seq<Task>, i: int, j: int)
    requires
        selected_spec(s, i),
        selected_spec(s, j),
    ensures
        i == j,
{
    if i < j {
        assert(s[i].priority > s[j].priority);
        assert(s[j].priority <= s[i].priority);
    }
    if j < i {
        assert(s[j].priority > s[i].priority);
        assert(s[i].priority <= s[j].priority);
    }
}

/// After the loop exits — every task terminated — the completion channel
/// holds exactly one report per task, so the final drain of one receive
/// per task observes every notification.
pub proof fn lemma_drain_available(s: Scheduler)
    requires
        s.wf(),
        all_terminated_spec(s.tasks@),
    ensures
        s.chan@.len() == s.tasks@.len(),
{
    lemma_count_all(s.tasks@, |t: Task| t.notified());
}

} // verus!
