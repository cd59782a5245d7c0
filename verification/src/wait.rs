//! Why the traced process stopped, as a closed tagged variant resolved by
//! exhaustive matching, and the session states it drives.

use vstd::prelude::*;

verus! {

/// The signal number of the trap signal (`SIGTRAP`), the breakpoint and
/// step-completion stop of interest.
pub const TRAP_SIGNAL: i32 = 5;

/// The kernel-reported reason the traced process changed state.
#[derive(Clone, Copy, Debug, PartialEq, Eq, Structural)]
pub enum WaitEvent {
    /// The process exited normally with the given code.
    Exited(i32),
    /// The process was killed by the given signal.
    Signaled(i32),
    /// The process is alive but was stopped by the given signal.
    Stopped(i32),
    /// Any other state change (trace events, continuation, no change).
    Other,
}

/// How the session treats one stop: the process is gone, a planted trap
/// fired (requiring a restore), or it is a plain step/stop.
#[derive(Clone, Copy, Debug, PartialEq, Eq, Structural)]
pub enum StopClass {
    Terminated,
    BreakpointTrap,
    PlainStop,
}

pub open spec fn spec_classify(e: WaitEvent) -> StopClass {
    match e {
        WaitEvent::Exited(_) => StopClass::Terminated,
        WaitEvent::Stopped(sig) => if sig == TRAP_SIGNAL {
            StopClass::BreakpointTrap
        } else {
            StopClass::PlainStop
        },
        _ => StopClass::PlainStop,
    }
}

/// Decides the session's treatment of a wait status: only an exit ends the
/// session, only a stop on the trap signal is treated as a breakpoint hit.
pub fn classify_wait(e: &WaitEvent) -> (r: StopClass)
    ensures
        r == spec_classify(*e),
{
    match e {
        WaitEvent::Exited(_) => StopClass::Terminated,
        WaitEvent::Stopped(sig) => if *sig == TRAP_SIGNAL {
            StopClass::BreakpointTrap
        } else {
            StopClass::PlainStop
        },
        WaitEvent::Signaled(_) => StopClass::PlainStop,
        WaitEvent::Other => StopClass::PlainStop,
    }
}

/// The session's state: accepting commands while the target is stopped, or
/// finished because the target exited.  `Exited` is terminal.
#[derive(Clone, Copy, Debug, PartialEq, Eq, Structural)]
pub enum SessionState {
    Stopped,
    Exited,
}

pub open spec fn spec_next_state(cur: SessionState, last: Option<WaitEvent>) -> SessionState {
    if cur is Exited {
        SessionState::Exited
    } else {
        match last {
            Some(WaitEvent::Exited(_)) => SessionState::Exited,
            _ => SessionState::Stopped,
        }
    }
}

/// Advances the session state machine on the wait status of the last
/// dispatched command (`None` when the command did not resume the target):
/// the session leaves `Stopped` only on an exit, and never leaves `Exited`.
pub fn next_state(cur: SessionState, last: &Option<WaitEvent>) -> (r: SessionState)
    ensures
        r == spec_next_state(cur, *last),
        cur is Exited ==> r is Exited,
        (cur is Stopped && !(*last matches Some(WaitEvent::Exited(_)))) ==> r is Stopped,
{
    match cur {
        SessionState::Exited => SessionState::Exited,
        SessionState::Stopped => match last {
            Some(WaitEvent::Exited(_)) => SessionState::Exited,
            _ => SessionState::Stopped,
        },
    }
}

} // verus!
