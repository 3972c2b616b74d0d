//! How the actor spends its turns.
//!
//! The actor waits on its job queue for a bounded time. A job is run to its
//! reply; a wait that times out is spent on a health poll, so that detached
//! sessions are cleared even when no caller shows up; a closed queue ends
//! the actor.

use vstd::prelude::*;

verus! {

/// How long the actor waits for a job before it polls, in milliseconds.
pub const IDLE_TIMEOUT_MS: u64 = 100;

/// How a wait on the job queue ended.
#[derive(Debug, Clone, Copy, PartialEq, Eq, Structural)]
pub enum Wake {
    /// A job arrived.
    Job,
    /// The time ran out.
    Timeout,
    /// Every sender is gone.
    Disconnected,
}

/// What the actor does with its turn.
#[derive(Debug, Clone, Copy, PartialEq, Eq, Structural)]
pub enum Turn {
    RunJob,
    Poll,
    Stop,
}

/// The turn that follows a wait.
pub open spec fn turn_after(wake: Wake) -> Turn {
    match wake {
        Wake::Job => Turn::RunJob,
        Wake::Timeout => Turn::Poll,
        Wake::Disconnected => Turn::Stop,
    }
}

/// Decides what the actor does after a wait on its job queue.
pub fn next_turn(wake: Wake) -> (turn: Turn)
    ensures
        turn == turn_after(wake),
{
    match wake {
        Wake::Job => Turn::RunJob,
        Wake::Timeout => Turn::Poll,
        Wake::Disconnected => Turn::Stop,
    }
}

} // verus!
