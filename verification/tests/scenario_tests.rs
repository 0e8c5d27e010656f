//! Whole-run scenarios, driven through the verified scheduling steps with
//! simulated launch and exit events in place of real child processes.

use minisched::sched::{Scheduler, TaskSpec};
use minisched::task::{ExitCode, LaunchOutcome, Space, State, Status};

fn spec(path: &str, priority: u8) -> TaskSpec {
    TaskSpec {
        path_to_binary: path.to_string(),
        args: None,
        space: Space::User,
        priority,
    }
}

fn count_running(s: &Scheduler) -> usize {
    s.tasks
        .iter()
        .filter(|t| t.state == State::Running)
        .count()
}

// Five tasks with priorities {3,1,2,5,4}, one pointing at a nonexistent
// path: the bad one is dispatched when its priority is the lowest pending
// and terminates at once with Failure; the others reach Terminated with
// Success, and the run ends only after all five show Terminated.
#[test]
fn five_tasks_with_one_bad_path() {
    let specs = vec![
        spec("/bad/path", 3),
        spec("/bin/prog1", 1),
        spec("/bin/prog2", 2),
        spec("/bin/prog3", 5),
        spec("/bin/prog4", 4),
    ];
    let mut s = Scheduler::new(specs, 0);
    s.make_all_ready();
    assert!(s.is_wf());

    let mut now: u64 = 0;
    let mut picked_priorities: Vec<u8> = Vec::new();
    let mut ticks = 0;
    while !s.all_terminated() {
        ticks += 1;
        assert!(ticks < 100, "the run must end");
        if let Some(i) = s.select() {
            picked_priorities.push(s.tasks[i].priority);
            assert!(count_running(&s) == 0);
            if s.tasks[i].needs_launch() {
                if s.tasks[i].path_to_binary == "/bad/path" {
                    let reported = s.dispatch(
                        i,
                        LaunchOutcome::SpawnFailed("No such file or directory".to_string()),
                        now,
                    );
                    assert_eq!(reported, Some(Status::Terminated(ExitCode::Failure)));
                } else {
                    // A real dispatch spawns, finds the child alive on the
                    // immediate poll, and pauses it; simulate exactly that.
                    s.tasks[i].start_running(1000 + i as i32, now);
                    s.chan.send(Status::Running);
                    s.tasks[i].preempt(now);
                }
            } else {
                // Resumed for one quantum, during which the child exits.
                s.tasks[i].restart(now);
                now += 150;
                s.tasks[i].complete(ExitCode::Success, now);
            }
        }
        assert!(count_running(&s) <= 1);
        assert!(s.is_wf());
        now += 10;
        s.reconcile_all(now);
    }

    // Selection order: each task is picked in priority order, the good
    // ones twice (launch, then resume-to-exit), the bad one once.
    assert_eq!(picked_priorities, vec![1, 1, 2, 2, 3, 4, 4, 5, 5]);

    for t in &s.tasks {
        assert_eq!(t.state, State::Terminated);
        assert_eq!(t.exit_code.is_some(), true);
    }
    assert_eq!(s.tasks[0].exit_code, Some(ExitCode::Failure));
    assert!(s.tasks[0].pid.is_none());
    for i in 1..5 {
        assert_eq!(s.tasks[i].exit_code, Some(ExitCode::Success));
    }

    // The final drain observes exactly one notification per task.
    assert_eq!(s.chan.len(), s.tasks.len());
    let mut terminal = 0;
    let mut intermediate = 0;
    for _ in 0..s.tasks.len() {
        match s.drain() {
            Some(Status::Running) => intermediate += 1,
            Some(Status::Terminated(_)) => terminal += 1,
            None => panic!("a notification is missing"),
        }
    }
    assert_eq!((intermediate, terminal), (4, 1));
    assert_eq!(s.drain(), None);
}

// A long-running task repeatedly preempted: after N ticks without the
// child exiting it has gone Running -> Waiting -> Ready -> Running N
// times, and its accumulated duration is exactly N quanta of simulated
// wall-clock time.
#[test]
fn long_running_task_is_preempted_every_tick() {
    const QUANTUM: u64 = 150;
    const N: u64 = 8;
    let mut s = Scheduler::new(vec![spec("/bin/longrun", 1)], 0);
    s.make_all_ready();

    let mut now: u64 = 0;
    // First dispatch: spawn, immediate poll finds it alive, pause.
    let first = s.select();
    assert_eq!(first, Some(0));
    s.tasks[0].start_running(1000, now);
    s.chan.send(Status::Running);
    s.tasks[0].preempt(now);
    assert_eq!(s.tasks[0].state, State::Waiting);
    assert_eq!(s.tasks[0].duration, 0);

    let mut durations: Vec<u64> = vec![s.tasks[0].duration];
    for _ in 0..N {
        // The aged task is promoted and selected again.
        assert_eq!(s.select(), Some(0));
        assert_eq!(s.tasks[0].state, State::Ready);
        s.tasks[0].restart(now);
        assert_eq!(s.tasks[0].state, State::Running);
        assert!(count_running(&s) == 1);
        now += QUANTUM;
        // The quantum elapses without an exit: preempted again.
        s.tasks[0].preempt(now);
        assert_eq!(s.tasks[0].state, State::Waiting);
        assert!(s.tasks[0].aged);
        durations.push(s.tasks[0].duration);
        assert!(s.is_wf());
    }

    assert_eq!(s.tasks[0].duration, N * QUANTUM);
    // The duration never decreased at any observation point.
    for w in durations.windows(2) {
        assert!(w[0] <= w[1]);
    }
    assert_eq!(s.tasks[0].exit_code, None);
    assert_eq!(s.tasks[0].state, State::Waiting);
}
