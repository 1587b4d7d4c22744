//! The adapter's own control state and the two halves of its poll path:
//! the bookkeeping before the inner task is consulted, and the bookkeeping
//! after it reports.

use vstd::prelude::*;

use crate::handshake::SharedState;

verus! {

/// What an inner task reports when it is polled: its final value, or not yet
/// ready.
#[derive(Debug, PartialEq, Eq)]
pub enum PollOutcome<T> {
    Ready(T),
    Pending,
}

/// The control state of an adapter that keeps an inner task re-polled at a
/// fixed interval.
///
/// The inner task itself and the thread that runs the timer live with the
/// caller; the adapter's poll path is driven through [`Self::poll_prepare`]
/// and [`Self::poll_finish`], with the inner task consulted in between.
pub struct WakeInterval {
    /// True until the first poll call; the first poll is the one that
    /// launches the background timer.
    pub first: bool,
    /// Time to wait between forced wakes, in the caller's time unit.
    pub interval: u64,
}

/// The adapter's control state after one poll call.
pub open spec fn after_prepare(w: WakeInterval) -> WakeInterval {
    WakeInterval { first: false, interval: w.interval }
}

/// Whether a poll call on adapter state `w` requests the timer spawn.
pub open spec fn spawn_requested(w: WakeInterval) -> bool {
    w.first
}

/// The adapter's control state after `n` poll calls starting from `w`.
pub open spec fn after_polls(w: WakeInterval, n: nat) -> WakeInterval
    decreases n,
{
    if n == 0 {
        w
    } else {
        after_prepare(after_polls(w, (n - 1) as nat))
    }
}

/// How many of the first `n` poll calls starting from `w` request the spawn.
pub open spec fn spawns_within(w: WakeInterval, n: nat) -> nat
    decreases n,
{
    if n == 0 {
        0
    } else {
        spawns_within(w, (n - 1) as nat) + (if spawn_requested(after_polls(w, (n - 1) as nat)) {
            1nat
        } else {
            0nat
        })
    }
}

impl WakeInterval {
    /// A fresh adapter with the given wake interval; its timer is launched
    /// by the first poll, not here.
    pub fn new(interval: u64) -> (w: Self)
        ensures
            w.first,
            w.interval == interval,
    {
        WakeInterval { first: true, interval }
    }

    /// The first half of a poll call, before the inner task is consulted:
    /// record the caller's wake handle in the handshake — the scheduler may
    /// supply a different handle on every call — and decide whether the
    /// background timer must be spawned, which happens exactly on the first
    /// poll.
    pub fn poll_prepare(&mut self, handshake: &mut SharedState, handle: u64) -> (spawn: bool)
        requires
            !old(handshake).completed,
        ensures
            spawn == spawn_requested(*old(self)),
            *final(self) == after_prepare(*old(self)),
            final(handshake).wake_handle == Some(handle),
            !final(handshake).completed,
    {
        handshake.store_wake_handle(handle);
        let spawn = self.first;
        self.first = false;
        spawn
    }

    /// The second half of a poll call: given what the inner task reported,
    /// record completion in the handshake exactly when the task is done, and
    /// pass the report through to the caller unchanged.
    pub fn poll_finish<T>(&self, handshake: &mut SharedState, inner: PollOutcome<T>) -> (r:
        PollOutcome<T>)
        requires
            !old(handshake).completed,
        ensures
            r == inner,
            final(handshake).wake_handle == old(handshake).wake_handle,
            final(handshake).completed == (inner is Ready),
    {
        match inner {
            PollOutcome::Ready(v) => {
                handshake.mark_completed();
                PollOutcome::Ready(v)
            },
            PollOutcome::Pending => PollOutcome::Pending,
        }
    }
}

/// After at least one poll call the adapter has left its first-poll state,
/// whatever it started from.
pub proof fn lemma_polled_not_first(w: WakeInterval, n: nat)
    requires
        n >= 1,
    ensures
        !after_polls(w, n).first,
    decreases n,
{
    if n > 1 {
        lemma_polled_not_first(w, (n - 1) as nat);
    }
}

/// Spawning the timer is idempotent: over any positive number of poll calls
/// on a freshly constructed adapter, the background timer spawn is requested
/// exactly once — on the first call.
pub proof fn lemma_spawn_exactly_once(w: WakeInterval, n: nat)
    requires
        w.first,
        n >= 1,
    ensures
        spawns_within(w, n) == 1,
    decreases n,
{
    if n == 1 {
        assert(spawns_within(w, 0) == 0);
        assert(after_polls(w, 0) == w);
    } else {
        lemma_spawn_exactly_once(w, (n - 1) as nat);
        lemma_polled_not_first(w, (n - 1) as nat);
    }
}

} // verus!
