use vstd::prelude::*;

verus! {

/// Attempts made to publish one discovery descriptor before giving up on it.
pub const MAX_ATTEMPTS: u32 = 3;

/// Wait before a repeated attempt, in milliseconds.
pub const RETRY_DELAY_MS: u64 = 1000;

/// Progress of the discovery bootstrap over `count` descriptors: the index of
/// the descriptor being published and the failed attempts made on it so far.
#[derive(Debug, Clone, Copy, PartialEq, Eq, Structural)]
pub struct DiscoveryRun {
    pub next: usize,
    pub failures: u32,
    pub count: usize,
}

/// What to do next in the discovery bootstrap.
#[derive(Debug, Clone, Copy, PartialEq, Eq, Structural)]
pub enum DiscoveryAction {
    /// Publish descriptor `i` now.
    Publish(usize),
    /// Wait the given milliseconds, then publish descriptor `i` again.
    PublishAfter(usize, u64),
    /// Every descriptor has been published or given up on.
    Finished,
}

/// What an attempt's outcome meant.
#[derive(Debug, Clone, Copy, PartialEq, Eq, Structural)]
pub enum DiscoveryNote {
    /// Descriptor `i` was published.
    Published(usize),
    /// Attempt number `n` (from 1) on descriptor `i` failed; it will be retried.
    Retrying(usize, u32),
    /// The last allowed attempt on descriptor `i` failed; it is given up.
    GaveUp(usize),
    /// No descriptor was pending.
    Idle,
}

impl DiscoveryRun {
    pub open spec fn wf(self) -> bool {
        &&& self.next <= self.count
        &&& self.failures < MAX_ATTEMPTS
        &&& self.next == self.count ==> self.failures == 0
    }

    pub open spec fn action_spec(self) -> DiscoveryAction {
        if self.next >= self.count {
            DiscoveryAction::Finished
        } else if self.failures == 0 {
            DiscoveryAction::Publish(self.next)
        } else {
            DiscoveryAction::PublishAfter(self.next, RETRY_DELAY_MS)
        }
    }

    /// The state after an attempt on the pending descriptor succeeded
    /// (`published`) or failed.
    pub open spec fn step_spec(self, published: bool) -> DiscoveryRun {
        if self.next >= self.count {
            self
        } else if published || self.failures + 1 >= MAX_ATTEMPTS {
            DiscoveryRun { next: (self.next + 1) as usize, failures: 0, ..self }
        } else {
            DiscoveryRun { failures: (self.failures + 1) as u32, ..self }
        }
    }

    pub open spec fn note_spec(self, published: bool) -> DiscoveryNote {
        if self.next >= self.count {
            DiscoveryNote::Idle
        } else if published {
            DiscoveryNote::Published(self.next)
        } else if self.failures + 1 >= MAX_ATTEMPTS {
            DiscoveryNote::GaveUp(self.next)
        } else {
            DiscoveryNote::Retrying(self.next, (self.failures + 1) as u32)
        }
    }

    /// A bootstrap over `count` descriptors, none attempted yet.
    pub fn new(count: usize) -> (r: DiscoveryRun)
        ensures
            r.wf(),
            r == (DiscoveryRun { next: 0, failures: 0, count }),
    {
        DiscoveryRun { next: 0, failures: 0, count }
    }

    /// The next thing to do.
    pub fn next_action(&self) -> (r: DiscoveryAction)
        requires
            self.wf(),
        ensures
            r == self.action_spec(),
    {
        if self.next >= self.count {
            DiscoveryAction::Finished
        } else if self.failures == 0 {
            DiscoveryAction::Publish(self.next)
        } else {
            DiscoveryAction::PublishAfter(self.next, RETRY_DELAY_MS)
        }
    }

    /// Records the outcome of an attempt on the pending descriptor.
    pub fn record(&mut self, published: bool) -> (r: DiscoveryNote)
        requires
            old(self).wf(),
        ensures
            final(self).wf(),
            *final(self) == old(self).step_spec(published),
            r == old(self).note_spec(published),
    {
        if self.next >= self.count {
            DiscoveryNote::Idle
        } else if published {
            let i = self.next;
            self.next = self.next + 1;
            self.failures = 0;
            DiscoveryNote::Published(i)
        } else if self.failures + 1 >= MAX_ATTEMPTS {
            let i = self.next;
            self.next = self.next + 1;
            self.failures = 0;
            DiscoveryNote::GaveUp(i)
        } else {
            self.failures = self.failures + 1;
            DiscoveryNote::Retrying(self.next, self.failures)
        }
    }

    /// Whether every descriptor has been dealt with.
    pub fn is_finished(&self) -> (r: bool)
        ensures
            r == (self.next >= self.count),
    {
        self.next >= self.count
    }
}

/// Every well-formed state steps to a well-formed state: no descriptor is
/// ever attempted more than `MAX_ATTEMPTS` times.
pub proof fn lemma_step_keeps_bound(s: DiscoveryRun, published: bool)
    requires
        s.wf(),
    ensures
        s.step_spec(published).wf(),
        s.step_spec(published).next >= s.next,
{
}

/// A descriptor whose publish fails `MAX_ATTEMPTS` times in a row is given
/// up on, and the bootstrap moves on to the next descriptor (or finishes):
/// the failure never blocks later descriptors.
pub proof fn lemma_failures_move_on(s: DiscoveryRun)
    requires
        s.wf(),
        s.next < s.count,
        s.failures == 0,
    ensures
        ({
            let s1 = s.step_spec(false);
            let s2 = s1.step_spec(false);
            let s3 = s2.step_spec(false);
            &&& s1.action_spec() == DiscoveryAction::PublishAfter(s.next, RETRY_DELAY_MS)
            &&& s2.action_spec() == DiscoveryAction::PublishAfter(s.next, RETRY_DELAY_MS)
            &&& s2.note_spec(false) == DiscoveryNote::GaveUp(s.next)
            &&& s3.next == s.next + 1
            &&& s3.failures == 0
            &&& s3.wf()
            &&& (s3.next < s3.count ==> s3.action_spec() == DiscoveryAction::Publish(
                s3.next,
            ))
            &&& (s3.next == s3.count ==> s3.action_spec() == DiscoveryAction::Finished)
        }),
{
}

} // verus!
