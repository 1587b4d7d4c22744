//! A simulated scheduler that drives the adapter around a toy task, used to
//! show the protocol's end-to-end behaviour: readiness is reached in bounded
//! simulated time, the timer is spawned once, and no wake is issued after
//! completion.

use vstd::prelude::*;

use crate::adapter::{PollOutcome, WakeInterval};
use crate::handshake::{SharedState, TimerAction};

verus! {

/// Toy task that is ready exactly when it has been polled `ready_count`
/// times.
pub struct WaitForPoll {
    /// Number of times polled so far.
    pub num_polls: usize,
    /// The task reports ready on reaching this many polls.
    pub ready_count: usize,
}

impl WaitForPoll {
    pub fn new(ready_count: usize) -> (t: Self)
        ensures
            t.num_polls == 0,
            t.ready_count == ready_count,
    {
        WaitForPoll { num_polls: 0, ready_count }
    }

    /// One poll of the toy task: count the call and report ready exactly when
    /// the configured count is reached.
    pub fn poll(&mut self) -> (r: PollOutcome<()>)
        requires
            old(self).num_polls < usize::MAX,
        ensures
            final(self).num_polls == old(self).num_polls + 1,
            final(self).ready_count == old(self).ready_count,
            r is Ready <==> final(self).num_polls == final(self).ready_count,
    {
        self.num_polls = self.num_polls + 1;
        if self.num_polls == self.ready_count {
            PollOutcome::Ready(())
        } else {
            PollOutcome::Pending
        }
    }
}

/// What one simulated run of the adapter recorded.
pub struct SimReport {
    /// Poll calls made up to and including the one on which the adapter
    /// reported ready.
    pub polls: usize,
    /// Simulated time units that passed before the adapter reported ready.
    pub elapsed: u64,
    /// Timer wakes issued before completion.
    pub wakes_before_completion: usize,
    /// Timer wakes issued at or after completion.
    pub wakes_after_completion: usize,
    /// Background timer spawns requested.
    pub spawns: usize,
}

/// Drive a fresh adapter around a toy task that becomes ready on poll number
/// `ready_count`, under a simulated scheduler whose only wake source is the
/// background timer: the scheduler polls a new task once unprompted, each
/// later poll happens only because the timer woke the task one interval
/// later, and after the adapter reports ready the timer is checked once more.
///
/// The contract is the protocol's liveness and quiescence in one statement:
/// readiness arrives on poll `ready_count` after exactly
/// `(ready_count - 1) * interval` simulated time — bounded by
/// `ready_count * interval` — the timer is spawned exactly once, it wakes the
/// task exactly once per interval before completion, and never after.
pub fn run_simulation(interval: u64, ready_count: usize) -> (r: SimReport)
    requires
        1 <= ready_count,
        (ready_count - 1) as int * interval as int <= u64::MAX as int,
    ensures
        r.polls == ready_count,
        r.elapsed as int == (ready_count - 1) as int * interval as int,
        r.elapsed as int <= ready_count as int * interval as int,
        r.spawns == 1,
        r.wakes_before_completion == ready_count - 1,
        r.wakes_after_completion == 0,
{
    let mut adapter = WakeInterval::new(interval);
    let mut handshake = SharedState::new();
    let mut task = WaitForPoll::new(ready_count);

    let mut polls: usize = 0;
    let mut elapsed: u64 = 0;
    let mut wakes_before: usize = 0;
    let mut spawns: usize = 0;
    let mut done = false;

    while !done
        invariant
            task.ready_count == ready_count,
            task.num_polls == polls,
            adapter.interval == interval,
            1 <= ready_count,
            (ready_count - 1) as int * interval as int <= u64::MAX as int,
            polls <= ready_count,
            !done ==> polls < ready_count,
            done ==> polls == ready_count,
            adapter.first <==> polls == 0,
            spawns == (if polls >= 1 { 1usize } else { 0usize }),
            done == handshake.completed,
            !done ==> elapsed as int == polls as int * interval as int,
            done ==> elapsed as int == (polls - 1) as int * interval as int,
            !done ==> wakes_before == polls,
            done ==> wakes_before == polls - 1,
        decreases ready_count - polls,
    {
        let ghost p0: int = polls as int;
        let handle: u64 = polls as u64;
        let spawn = adapter.poll_prepare(&mut handshake, handle);
        if spawn {
            spawns = spawns + 1;
        }
        let outcome = task.poll();
        let result = adapter.poll_finish(&mut handshake, outcome);
        polls = polls + 1;
        match result {
            PollOutcome::Ready(_) => {
                done = true;
            },
            PollOutcome::Pending => {
                // The task is still pending and nothing else will wake it:
                // one interval of simulated time passes, then the timer
                // checks the handshake and finds a handle to wake.
                proof {
                    let iv: int = interval as int;
                    let rc: int = ready_count as int;
                    assert((p0 + 1) * iv == p0 * iv + iv && (p0 + 1) * iv <= (rc - 1) * iv)
                        by (nonlinear_arith)
                        requires
                            0 <= p0,
                            p0 + 1 <= rc - 1,
                            0 <= iv,
                    ;
                }
                elapsed = elapsed + interval;
                match handshake.timer_step() {
                    TimerAction::Wake(_) => {
                        wakes_before = wakes_before + 1;
                    },
                    // Unreachable: the handshake is not completed and
                    // carries the handle this very poll stored.
                    TimerAction::Terminate => {},
                    TimerAction::Sleep => {},
                }
            },
        }
    }
    // One more timer check after completion: it must decide to terminate.
    let mut wakes_after: usize = 0;
    match handshake.timer_step() {
        // Unreachable: the handshake records completion.
        TimerAction::Wake(_) => {
            wakes_after = wakes_after + 1;
        },
        TimerAction::Terminate => {},
        TimerAction::Sleep => {},
    }
    proof {
        let iv: int = interval as int;
        let rc: int = ready_count as int;
        assert((rc - 1) * iv <= rc * iv) by (nonlinear_arith)
            requires
                1 <= rc,
                0 <= iv,
        ;
    }
    SimReport {
        polls,
        elapsed,
        wakes_before_completion: wakes_before,
        wakes_after_completion: wakes_after,
        spawns,
    }
}

} // verus!
