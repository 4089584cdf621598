use vstd::prelude::*;
use crate::probe::{jitter_micros, jitter_spec};

verus! {

/// Latency samples taken for one jitter measurement.
pub const JITTER_SAMPLES: usize = 10;

/// Spacing between two latency samples, in milliseconds.
pub const SAMPLE_SPACING_MS: u64 = 100;

/// What the jitter probe does next.
#[derive(Debug, Clone, Copy, PartialEq, Eq, Structural)]
pub enum SeriesAction {
    /// Take a latency sample now.
    Sample,
    /// Wait this many milliseconds, then take a latency sample.
    WaitThenSample(u64),
    /// All samples are in; this is the jitter in microseconds.
    Done(u64),
}

/// A series of latency samples (microseconds), taken one after another
/// until `target` of them are in.
#[derive(Debug, Clone)]
pub struct LatencySeries {
    pub samples: Vec<u64>,
    pub target: usize,
}

impl LatencySeries {
    pub open spec fn wf(&self) -> bool {
        &&& 0 < self.target <= u32::MAX
        &&& self.samples@.len() <= self.target
    }

    pub open spec fn action_spec(&self) -> SeriesAction {
        if self.samples@.len() >= self.target {
            SeriesAction::Done(jitter_spec(self.samples@) as u64)
        } else if self.samples@.len() == 0 {
            SeriesAction::Sample
        } else {
            SeriesAction::WaitThenSample(SAMPLE_SPACING_MS)
        }
    }

    /// An empty series that will hold `target` samples.
    pub fn new(target: usize) -> (r: LatencySeries)
        requires
            0 < target <= u32::MAX,
        ensures
            r.wf(),
            r.samples@.len() == 0,
            r.target == target,
    {
        LatencySeries { samples: Vec::new(), target }
    }

    /// The next step: sample at once for the first sample, wait the spacing
    /// before each later one, and report the jitter once all are in.
    pub fn next_action(&self) -> (r: SeriesAction)
        requires
            self.wf(),
        ensures
            r == self.action_spec(),
    {
        if self.samples.len() >= self.target {
            let j = jitter_micros(&self.samples);
            SeriesAction::Done(j.unwrap())
        } else if self.samples.len() == 0 {
            SeriesAction::Sample
        } else {
            SeriesAction::WaitThenSample(SAMPLE_SPACING_MS)
        }
    }

    /// Adds one latency sample to the series.
    pub fn record(&mut self, sample_micros: u64)
        requires
            old(self).wf(),
            old(self).samples@.len() < old(self).target,
        ensures
            final(self).wf(),
            final(self).target == old(self).target,
            final(self).samples@ == old(self).samples@.push(sample_micros),
    {
        self.samples.push(sample_micros);
    }
}

} // verus!
