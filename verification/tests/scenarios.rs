use wake_interval::sim::run_simulation;
use wake_interval::{PollOutcome, SharedState, TimerAction, WakeInterval};

#[test]
fn ready_on_third_poll_with_unit_interval() {
    // Inner task ready on the 3rd poll, interval of 1 time unit, no wake
    // source but the timer: ready exactly on the 3rd poll, the timer woke
    // at most once per interval before then, and never after completion.
    let r = run_simulation(1, 3);
    assert_eq!(r.polls, 3);
    assert_eq!(r.elapsed, 2);
    assert!(r.wakes_before_completion <= 2);
    assert_eq!(r.wakes_before_completion, 2);
    assert_eq!(r.wakes_after_completion, 0);
    assert_eq!(r.spawns, 1);
}

#[test]
fn ready_immediately_still_spawns_timer_once() {
    // Inner task ready on the very first poll: the timer is still spawned,
    // observes completion on its first check, and never wakes.
    let r = run_simulation(5, 1);
    assert_eq!(r.polls, 1);
    assert_eq!(r.elapsed, 0);
    assert_eq!(r.wakes_before_completion, 0);
    assert_eq!(r.wakes_after_completion, 0);
    assert_eq!(r.spawns, 1);
}

#[test]
fn first_timer_check_after_immediate_completion_terminates() {
    // The same immediate-completion run, step by step: the first poll both
    // requests the spawn and completes, so the timer's very first check
    // decides to terminate without ever waking.
    let mut adapter = WakeInterval::new(5);
    let mut s = SharedState::new();
    let spawn = adapter.poll_prepare(&mut s, 0);
    assert!(spawn);
    let out = adapter.poll_finish(&mut s, PollOutcome::Ready("done"));
    assert_eq!(out, PollOutcome::Ready("done"));
    assert_eq!(s.timer_step(), TimerAction::Terminate);
}

#[test]
fn readiness_time_is_bounded_by_polls_times_interval() {
    // Across interval durations and readiness counts, readiness arrives
    // within readiness-count * interval simulated time.
    let cases: [(u64, usize); 6] = [(1, 1), (1, 2), (1, 10), (7, 3), (1000, 4), (250, 40)];
    for (interval, ready_count) in cases {
        let r = run_simulation(interval, ready_count);
        assert_eq!(r.polls, ready_count);
        assert_eq!(u128::from(r.elapsed), (ready_count as u128 - 1) * u128::from(interval));
        assert!(u128::from(r.elapsed) <= ready_count as u128 * u128::from(interval));
        assert_eq!(r.wakes_after_completion, 0);
    }
}

#[test]
fn timer_spawned_once_whatever_the_poll_count() {
    for ready_count in 1..9usize {
        let r = run_simulation(2, ready_count);
        assert_eq!(r.spawns, 1);
        assert_eq!(r.wakes_before_completion, ready_count - 1);
    }
}
