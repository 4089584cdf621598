use vstd::prelude::*;
use crate::scheduler::{step_spec, Phase, SchedulerAction, SchedulerEvent};

verus! {

/// What the connection pump does after one poll of the broker connection.
#[derive(Debug, Clone, Copy, PartialEq, Eq, Structural)]
pub enum PumpAction {
    /// The poll returned an event: poll again.
    Continue,
    /// The poll failed: the session is severed, shut the process down.
    Shutdown,
}

pub open spec fn pump_spec(poll_ok: bool) -> PumpAction {
    if poll_ok {
        PumpAction::Continue
    } else {
        PumpAction::Shutdown
    }
}

/// The pump's decision after a poll that succeeded (`poll_ok`) or failed.
pub fn after_poll(poll_ok: bool) -> (r: PumpAction)
    ensures
        r == pump_spec(poll_ok),
{
    if poll_ok {
        PumpAction::Continue
    } else {
        PumpAction::Shutdown
    }
}

/// A failed poll shuts down, and the shutdown it signals stops the
/// measurement loop from any phase, with no snapshot left half handed off.
pub proof fn lemma_poll_failure_stops(p: Phase, interval: u64)
    ensures
        pump_spec(false) == PumpAction::Shutdown,
        pump_spec(true) == PumpAction::Continue,
        step_spec(p, SchedulerEvent::Shutdown, interval) == (Phase::Stopped, SchedulerAction::Stop),
{
}

} // verus!
