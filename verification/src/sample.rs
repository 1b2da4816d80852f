//! One observation of a monitored process, and the three quantities it holds.
use vstd::prelude::*;

verus! {

/// One observation. All three quantities are whole numbers of a fixed unit,
/// so that they can be compared and carried without rounding.
#[derive(Clone, Copy, Debug, PartialEq, Eq, Structural)]
pub struct Sample {
    /// Time since monitoring began, in milliseconds.
    pub ts: u64,
    /// CPU utilisation, in thousandths of a percent. More than one full core
    /// (above 100 000) is an ordinary value.
    pub cpu: u64,
    /// Resident memory, in bytes.
    pub rss: u64,
}

/// Which quantity of a sample is meant.
#[derive(Clone, Copy, Debug, PartialEq, Eq, Structural)]
pub enum Metric {
    Time,
    Cpu,
    Memory,
}

impl Sample {
    /// The quantity `metric` of this sample.
    pub open spec fn value(self, metric: Metric) -> u64 {
        match metric {
            Metric::Time => self.ts,
            Metric::Cpu => self.cpu,
            Metric::Memory => self.rss,
        }
    }

    /// The quantity `metric` of this sample.
    pub fn get(&self, metric: Metric) -> (v: u64)
        ensures
            v == self.value(metric),
    {
        match metric {
            Metric::Time => self.ts,
            Metric::Cpu => self.cpu,
            Metric::Memory => self.rss,
        }
    }
}

/// The quantity `metric` of each sample, in the order of the samples.
pub open spec fn metric_values(samples: Seq<Sample>, metric: Metric) -> Seq<u64> {
    Seq::new(samples.len(), |i: int| samples[i].value(metric))
}

} // verus!
