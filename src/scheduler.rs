use vstd::prelude::*;
use crate::cycle::{ServiceError, SpeedTestResult};

verus! {

/// Where the measurement loop stands.
#[derive(Debug, Clone, Copy, PartialEq, Eq, Structural)]
pub enum Phase {
    /// A cycle is being measured.
    Measuring,
    /// A snapshot is being handed to the publisher.
    HandingOff,
    /// Waiting for the interval to pass.
    Sleeping,
    /// The loop has ended.
    Stopped,
}

/// What happened since the last action.
#[derive(Debug, Clone, PartialEq, Eq, Structural)]
pub enum SchedulerEvent {
    /// The cycle produced a snapshot.
    Measured(SpeedTestResult),
    /// The cycle failed.
    CycleFailed(ServiceError),
    /// The hand-off channel took the snapshot.
    HandedOff,
    /// The hand-off channel's receiving end is gone.
    ChannelClosed,
    /// The interval has passed.
    Woke,
    /// The process is shutting down.
    Shutdown,
}

/// What the loop does next.
#[derive(Debug, Clone, PartialEq, Eq, Structural)]
pub enum SchedulerAction {
    /// Measure one cycle.
    RunCycle,
    /// Send this snapshot into the hand-off channel, waiting while it is full.
    HandOff(SpeedTestResult),
    /// Sleep this many seconds.
    Sleep(u64),
    /// Log the cycle's failure, then sleep this many seconds.
    ReportAndSleep(ServiceError, u64),
    /// End the loop.
    Stop,
    /// The event does not apply in this phase; nothing to do.
    Ignore,
}

/// The measurement loop: measure, hand the snapshot off, sleep, repeat.
#[derive(Debug, Clone, Copy, PartialEq, Eq, Structural)]
pub struct Scheduler {
    pub phase: Phase,
    pub interval_secs: u64,
}

/// Next phase and action of the loop in phase `p` on event `e`.
pub open spec fn step_spec(p: Phase, e: SchedulerEvent, interval: u64) -> (Phase, SchedulerAction) {
    match (p, e) {
        (Phase::Stopped, _) => (Phase::Stopped, SchedulerAction::Stop),
        (_, SchedulerEvent::Shutdown) => (Phase::Stopped, SchedulerAction::Stop),
        (Phase::Measuring, SchedulerEvent::Measured(s)) => (
            Phase::HandingOff,
            SchedulerAction::HandOff(s),
        ),
        (Phase::Measuring, SchedulerEvent::CycleFailed(err)) => (
            Phase::Sleeping,
            SchedulerAction::ReportAndSleep(err, interval),
        ),
        (Phase::HandingOff, SchedulerEvent::HandedOff) => (
            Phase::Sleeping,
            SchedulerAction::Sleep(interval),
        ),
        (Phase::HandingOff, SchedulerEvent::ChannelClosed) => (
            Phase::Stopped,
            SchedulerAction::Stop,
        ),
        (Phase::Sleeping, SchedulerEvent::Woke) => (Phase::Measuring, SchedulerAction::RunCycle),
        _ => (p, SchedulerAction::Ignore),
    }
}

impl Scheduler {
    /// A loop that sleeps `interval_secs` seconds between cycles; its first
    /// action is to measure.
    pub fn new(interval_secs: u64) -> (r: (Scheduler, SchedulerAction))
        ensures
            r.0 == (Scheduler { phase: Phase::Measuring, interval_secs }),
            r.1 == SchedulerAction::RunCycle,
    {
        (Scheduler { phase: Phase::Measuring, interval_secs }, SchedulerAction::RunCycle)
    }

    /// Advances the loop on an event and says what to do next.
    pub fn handle(&mut self, e: SchedulerEvent) -> (r: SchedulerAction)
        ensures
            final(self).interval_secs == old(self).interval_secs,
            (final(self).phase, r) == step_spec(old(self).phase, e, old(self).interval_secs),
    {
        let interval = self.interval_secs;
        let (phase, action) = match (self.phase, e) {
            (Phase::Stopped, _) => (Phase::Stopped, SchedulerAction::Stop),
            (_, SchedulerEvent::Shutdown) => (Phase::Stopped, SchedulerAction::Stop),
            (Phase::Measuring, SchedulerEvent::Measured(s)) => (
                Phase::HandingOff,
                SchedulerAction::HandOff(s),
            ),
            (Phase::Measuring, SchedulerEvent::CycleFailed(err)) => (
                Phase::Sleeping,
                SchedulerAction::ReportAndSleep(err, interval),
            ),
            (Phase::HandingOff, SchedulerEvent::HandedOff) => (
                Phase::Sleeping,
                SchedulerAction::Sleep(interval),
            ),
            (Phase::HandingOff, SchedulerEvent::ChannelClosed) => (
                Phase::Stopped,
                SchedulerAction::Stop,
            ),
            (Phase::Sleeping, SchedulerEvent::Woke) => (Phase::Measuring, SchedulerAction::RunCycle),
            (p, _) => (p, SchedulerAction::Ignore),
        };
        self.phase = phase;
        action
    }
}

/// A measured snapshot is handed off whole, and the loop does not start its
/// sleep, nor a new cycle, until the hand-off channel has taken it: while the
/// channel is full the loop waits in the hand-off phase. A failed cycle hands
/// nothing off and goes straight to the sleep.
pub proof fn lemma_hand_off_before_sleep(s: SpeedTestResult, err: ServiceError, e: SchedulerEvent, interval: u64)
    requires
        e != SchedulerEvent::HandedOff,
        e != SchedulerEvent::ChannelClosed,
        e != SchedulerEvent::Shutdown,
    ensures
        step_spec(Phase::Measuring, SchedulerEvent::Measured(s), interval) == (
            Phase::HandingOff,
            SchedulerAction::HandOff(s),
        ),
        step_spec(Phase::HandingOff, e, interval) == (Phase::HandingOff, SchedulerAction::Ignore),
        step_spec(Phase::HandingOff, SchedulerEvent::HandedOff, interval) == (
            Phase::Sleeping,
            SchedulerAction::Sleep(interval),
        ),
        step_spec(Phase::Measuring, SchedulerEvent::CycleFailed(err), interval) == (
            Phase::Sleeping,
            SchedulerAction::ReportAndSleep(err, interval),
        ),
{
}

/// Once the hand-off channel is closed, or shutdown is signalled, the loop
/// stops and stays stopped whatever happens next.
pub proof fn lemma_stop_is_final(p: Phase, e: SchedulerEvent, interval: u64)
    ensures
        step_spec(p, SchedulerEvent::Shutdown, interval) == (Phase::Stopped, SchedulerAction::Stop),
        step_spec(Phase::HandingOff, SchedulerEvent::ChannelClosed, interval) == (
            Phase::Stopped,
            SchedulerAction::Stop,
        ),
        step_spec(Phase::Stopped, e, interval) == (Phase::Stopped, SchedulerAction::Stop),
{
}

} // verus!
