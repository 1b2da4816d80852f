//! Point series: one point per sample, in the order of the samples.
use vstd::prelude::*;
use crate::sample::{Sample, Metric};

verus! {

/// The points of `metric` over time: for each sample, in order, its timestamp
/// and its value of `metric`. Nothing is left out, merged or added.
pub open spec fn series_points(samples: Seq<Sample>, metric: Metric) -> Seq<(u64, u64)> {
    Seq::new(samples.len(), |i: int| (samples[i].ts, samples[i].value(metric)))
}

/// The CPU series: `(ts, cpu)` of each sample, in order.
pub open spec fn cpu_points(samples: Seq<Sample>) -> Seq<(u64, u64)> {
    series_points(samples, Metric::Cpu)
}

/// The memory series: `(ts, rss)` of each sample, in order.
pub open spec fn memory_points(samples: Seq<Sample>) -> Seq<(u64, u64)> {
    series_points(samples, Metric::Memory)
}

/// The points of `metric` over time, one per sample and in their order.
pub fn project(samples: &Vec<Sample>, metric: Metric) -> (points: Vec<(u64, u64)>)
    ensures
        points@ == series_points(samples@, metric),
{
    let mut points: Vec<(u64, u64)> = Vec::new();
    let mut i: usize = 0;
    while i < samples.len()
        invariant
            0 <= i <= samples@.len(),
            points@ == series_points(samples@, metric).take(i as int),
        decreases samples@.len() - i,
    {
        let s: Sample = samples[i];
        points.push((s.ts, s.get(metric)));
        proof {
            assert(points@ =~= series_points(samples@, metric).take(i + 1));
        }
        i += 1;
    }
    proof {
        assert(points@ =~= series_points(samples@, metric));
    }
    points
}

/// The CPU series. It is as long as `samples`, and its point at each position
/// is the timestamp and the utilisation of the sample at that position.
pub fn generate_data_cpu(samples: &Vec<Sample>) -> (points: Vec<(u64, u64)>)
    ensures
        points@ == cpu_points(samples@),
        points@.len() == samples@.len(),
        forall|i: int| 0 <= i < samples@.len() ==> points@[i] == (samples@[i].ts, samples@[i].cpu),
{
    project(samples, Metric::Cpu)
}

/// The memory series. It is as long as `samples`, and its point at each
/// position is the timestamp and the resident size of the sample at that
/// position.
pub fn generate_data_mem(samples: &Vec<Sample>) -> (points: Vec<(u64, u64)>)
    ensures
        points@ == memory_points(samples@),
        points@.len() == samples@.len(),
        forall|i: int| 0 <= i < samples@.len() ==> points@[i] == (samples@[i].ts, samples@[i].rss),
{
    project(samples, Metric::Memory)
}

/// Both series mark the same moments: at each position the two points have
/// the same timestamp, that of the sample at that position.
pub proof fn lemma_series_share_time(samples: Seq<Sample>, i: int)
    requires
        0 <= i < samples.len(),
    ensures
        cpu_points(samples).len() == samples.len(),
        memory_points(samples).len() == samples.len(),
        cpu_points(samples)[i] == (samples[i].ts, samples[i].cpu),
        memory_points(samples)[i] == (samples[i].ts, samples[i].rss),
        cpu_points(samples)[i].0 == memory_points(samples)[i].0,
{
}

} // verus!
