//! The handshake record shared between the adapter and its background timer,
//! and the decision rule the timer applies on each periodic check.

use vstd::prelude::*;

verus! {

/// What the background timer decides to do on one periodic check of the
/// handshake.
#[derive(Clone, Copy, Debug, PartialEq, Eq, Structural)]
pub enum TimerAction {
    /// The task has completed: the timer stops checking and exits.
    Terminate,
    /// The task is still running and a wake handle is on record: invoke that
    /// handle to request a re-poll, then sleep for another interval.
    Wake(u64),
    /// The task is still running but no handle has been recorded yet: sleep
    /// for another interval and check again.
    Sleep,
}

/// The record shared between the adapter's poll path and the timer. Every
/// access to it is exclusive; each of these methods models one such critical
/// section.
///
/// Wake handles are carried as plain identifiers. The caller that talks to
/// the real scheduler keeps the mapping from identifier to scheduler token,
/// so a `Wake` decision names exactly which token to invoke.
pub struct SharedState {
    /// The handle supplied by the most recent poll call, if any poll has
    /// happened yet.
    pub wake_handle: Option<u64>,
    /// True once the inner task has yielded its final value.
    pub completed: bool,
}

/// The decision the timer takes on a given snapshot of the handshake:
/// terminate once the task has completed, otherwise wake the recorded handle
/// if there is one, otherwise just sleep on.
pub open spec fn timer_decision(s: SharedState) -> TimerAction {
    if s.completed {
        TimerAction::Terminate
    } else if s.wake_handle is Some {
        TimerAction::Wake(s.wake_handle->0)
    } else {
        TimerAction::Sleep
    }
}

impl SharedState {
    /// A fresh handshake: no handle yet, task not completed.
    pub fn new() -> (s: Self)
        ensures
            s.wake_handle is None,
            !s.completed,
    {
        SharedState { wake_handle: None, completed: false }
    }

    /// Record the handle supplied by the current poll call, overwriting any
    /// previous one, so a later forced wake reaches the scheduler context
    /// now responsible for the task.
    pub fn store_wake_handle(&mut self, handle: u64)
        ensures
            final(self).wake_handle == Some(handle),
            final(self).completed == old(self).completed,
    {
        self.wake_handle = Some(handle);
    }

    /// Record that the inner task has yielded its final value.
    pub fn mark_completed(&mut self)
        ensures
            final(self).completed,
            final(self).wake_handle == old(self).wake_handle,
    {
        self.completed = true;
    }

    /// One periodic check by the timer: inspect the snapshot and decide.
    pub fn timer_step(&self) -> (a: TimerAction)
        ensures
            a == timer_decision(*self),
    {
        if self.completed {
            TimerAction::Terminate
        } else {
            match self.wake_handle {
                Some(h) => TimerAction::Wake(h),
                None => TimerAction::Sleep,
            }
        }
    }
}

/// Once the handshake records completion, every timer check decides to
/// terminate — in particular, the timer never again invokes a wake handle,
/// whatever handle the handshake still carries.
pub proof fn lemma_no_wake_after_completion(s: SharedState)
    requires
        s.completed,
    ensures
        timer_decision(s) == TimerAction::Terminate,
        forall|h: u64| timer_decision(s) != TimerAction::Wake(h),
{
}

} // verus!
