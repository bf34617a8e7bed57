use vstd::prelude::*;

verus! {

/// Linux signal number of the interrupt signal.
pub const SIGINT: i32 = 2;

/// Linux signal number of the quit signal.
pub const SIGQUIT: i32 = 3;

/// Linux signal number of the terminate signal.
pub const SIGTERM: i32 = 15;

/// The termination-class signals: those that request a shutdown.
pub open spec fn termination_signal(signum: i32) -> bool {
    signum == SIGINT || signum == SIGQUIT || signum == SIGTERM
}

/// The shutdown state after `signum` arrives in state `current`.
///
/// `0` means "running". The state moves from `0` to the number of the first
/// termination signal and never changes afterwards.
pub open spec fn after_signal(current: i32, signum: i32) -> i32 {
    if current == 0 && termination_signal(signum) {
        signum
    } else {
        current
    }
}

/// Whether `signum` is one of the signals that request a shutdown.
pub fn is_termination_signal(signum: i32) -> (r: bool)
    ensures
        r == termination_signal(signum),
{
    signum == SIGINT || signum == SIGQUIT || signum == SIGTERM
}

/// The shutdown state to store after `signum` was delivered in state
/// `current`.
///
/// Only a termination signal changes the state, and only while no shutdown
/// has been requested yet: a recorded signal is never overwritten or reset.
pub fn record_signal(current: i32, signum: i32) -> (r: i32)
    ensures
        r == after_signal(current, signum),
        current != 0 ==> r == current,
        current == 0 && termination_signal(signum) ==> r == signum,
        r != 0 ==> r == current || r == signum,
{
    if current == 0 && is_termination_signal(signum) {
        signum
    } else {
        current
    }
}

/// What the main loop does at the start of an iteration.
#[derive(Clone, Copy, Debug, PartialEq, Eq, Structural)]
pub enum Iteration {
    /// No shutdown is requested: wait for the next batch of events.
    Wait,
    /// A shutdown is requested: leave the loop and forward `signum` to the
    /// supervised process.
    Shutdown { signum: i32 },
}

/// The step the main loop takes given the shutdown state it read.
pub open spec fn iteration_for(shutdown: i32) -> Iteration {
    if shutdown == 0 {
        Iteration::Wait
    } else {
        Iteration::Shutdown { signum: shutdown }
    }
}

/// Decides, from the shutdown state read at the top of an iteration, whether
/// the loop waits for more events or stops.
pub fn next_iteration(shutdown: i32) -> (r: Iteration)
    ensures
        r == iteration_for(shutdown),
{
    if shutdown == 0 {
        Iteration::Wait
    } else {
        Iteration::Shutdown { signum: shutdown }
    }
}

} // verus!
