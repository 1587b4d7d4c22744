//! An adapter that wraps an asynchronous task and guarantees it is re-polled
//! at a fixed interval, even when no other wake source exists.
//!
//! The adapter and a background timer coordinate through a small shared
//! handshake record: every poll stores the scheduler's current wake handle in
//! it, and the timer periodically inspects it, waking the task until the
//! handshake records completion. This crate verifies that protocol: the
//! handshake state and its transitions, the timer's decision rule, and the
//! poll path's bookkeeping. The unverifiable surroundings — the real `Future`
//! trait, the timer thread, the executor — live outside the library and drive
//! these functions.

pub mod adapter;
pub mod handshake;
pub mod sim;

pub use adapter::PollOutcome;
pub use adapter::WakeInterval;
pub use handshake::SharedState;
pub use handshake::TimerAction;
pub use sim::WaitForPoll;
