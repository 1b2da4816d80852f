//! Axis scales: the largest observed value of each quantity, and the linear
//! scale from `[0, largest]` to a pixel range.
use vstd::prelude::*;
use crate::sample::{Sample, Metric, metric_values};
use crate::config::ChartConfig;

verus! {

/// The largest of `values`, or 0 where there is none.
pub open spec fn peak(values: Seq<u64>) -> u64
    decreases values.len(),
{
    if values.len() == 0 {
        0
    } else {
        let rest = peak(values.drop_last());
        if rest < values.last() {
            values.last()
        } else {
            rest
        }
    }
}

/// `m` is the maximum of `values`, held at 0 from below: no value exceeds it,
/// and it is 0 or one of the values.
pub open spec fn is_peak_of(m: u64, values: Seq<u64>) -> bool {
    &&& forall|i: int| 0 <= i < values.len() ==> values[i] <= m
    &&& (m == 0 || exists|i: int| 0 <= i < values.len() && values[i] == m)
}

/// `peak` is the maximum: it bounds every value and is 0 or one of them.
pub proof fn lemma_peak_is_peak(values: Seq<u64>)
    ensures
        is_peak_of(peak(values), values),
    decreases values.len(),
{
    if values.len() > 0 {
        let front = values.drop_last();
        lemma_peak_is_peak(front);
        let m = peak(values);
        assert forall|i: int| 0 <= i < values.len() implies values[i] <= m by {
            if i < front.len() {
                assert(front[i] == values[i]);
            }
        }
        if m != 0 {
            if peak(front) < values.last() {
                assert(values[values.len() - 1] == m);
            } else {
                let k = choose|k: int| 0 <= k < front.len() && front[k] == peak(front);
                assert(values[k] == m);
            }
        }
    }
}

/// There is only one maximum.
pub proof fn lemma_peak_unique(m1: u64, m2: u64, values: Seq<u64>)
    requires
        is_peak_of(m1, values),
        is_peak_of(m2, values),
    ensures
        m1 == m2,
{
}

/// The maximum is 0 exactly where every value is 0, and so where there is no
/// value at all.
pub proof fn lemma_peak_zero_iff_all_zero(values: Seq<u64>)
    ensures
        peak(values) == 0 <==> (forall|i: int| 0 <= i < values.len() ==> values[i] == 0),
{
    lemma_peak_is_peak(values);
}

/// Where the samples come in the order of their time, the latest timestamp
/// is that of the last sample.
pub proof fn lemma_ordered_peak_is_last(samples: Seq<Sample>)
    requires
        samples.len() > 0,
        forall|i: int, j: int| 0 <= i <= j < samples.len() ==> samples[i].ts <= samples[j].ts,
    ensures
        peak(metric_values(samples, Metric::Time)) == samples.last().ts,
{
    let values = metric_values(samples, Metric::Time);
    lemma_peak_is_peak(values);
    assert(values[values.len() - 1] == samples.last().ts);
    assert(is_peak_of(samples.last().ts, values));
    lemma_peak_unique(samples.last().ts, peak(values), values);
}

/// The largest value of a quantity does not depend on the order of the
/// samples: two sequences that hold the same samples, each as often in one as
/// in the other, have the same largest value of every quantity, and so the
/// same three scales.
pub proof fn lemma_peak_ignores_order(a: Seq<Sample>, b: Seq<Sample>, metric: Metric)
    requires
        a.to_multiset() == b.to_multiset(),
    ensures
        peak(metric_values(a, metric)) == peak(metric_values(b, metric)),
{
    let va = metric_values(a, metric);
    let vb = metric_values(b, metric);
    let m = peak(va);
    lemma_peak_is_peak(va);
    lemma_peak_is_peak(vb);
    assert forall|i: int| 0 <= i < vb.len() implies vb[i] <= m by {
        assert(b.contains(b[i]));
        vstd::seq_lib::to_multiset_contains(b, b[i]);
        vstd::seq_lib::to_multiset_contains(a, b[i]);
        let j = choose|j: int| 0 <= j < a.len() && a[j] == b[i];
        assert(va[j] == vb[i]);
    }
    if m != 0 {
        let k = choose|k: int| 0 <= k < va.len() && va[k] == m;
        assert(a.contains(a[k]));
        vstd::seq_lib::to_multiset_contains(a, a[k]);
        vstd::seq_lib::to_multiset_contains(b, a[k]);
        let j = choose|j: int| 0 <= j < b.len() && b[j] == a[k];
        assert(vb[j] == m);
    }
    assert(is_peak_of(m, vb));
    lemma_peak_unique(m, peak(vb), vb);
}

/// The three scales of a chart do not depend on the order of the samples.
pub proof fn lemma_scales_ignore_order(a: Seq<Sample>, b: Seq<Sample>, config: ChartConfig)
    requires
        a.to_multiset() == b.to_multiset(),
    ensures
        time_scale(a, config) == time_scale(b, config),
        cpu_scale(a, config) == cpu_scale(b, config),
        memory_scale(a, config) == memory_scale(b, config),
{
    lemma_peak_ignores_order(a, b, Metric::Time);
    lemma_peak_ignores_order(a, b, Metric::Cpu);
    lemma_peak_ignores_order(a, b, Metric::Memory);
}

/// The largest value of `metric` over all of `samples`, wherever in the
/// sequence it stands; 0 where there are no samples.
pub fn observed_max(samples: &Vec<Sample>, metric: Metric) -> (m: u64)
    ensures
        m == peak(metric_values(samples@, metric)),
        forall|i: int| 0 <= i < samples@.len() ==> samples@[i].value(metric) <= m,
        m == 0 || exists|i: int| 0 <= i < samples@.len() && samples@[i].value(metric) == m,
{
    let ghost values = metric_values(samples@, metric);
    let mut max: u64 = 0;
    let mut i: usize = 0;
    while i < samples.len()
        invariant
            0 <= i <= samples@.len(),
            values == metric_values(samples@, metric),
            max == peak(values.take(i as int)),
        decreases samples@.len() - i,
    {
        let v: u64 = samples[i].get(metric);
        proof {
            let next = values.take(i + 1);
            assert(next.drop_last() =~= values.take(i as int));
            assert(next.last() == v);
        }
        if max < v {
            max = v;
        }
        i += 1;
    }
    proof {
        assert(values.take(i as int) =~= values);
        lemma_peak_is_peak(values);
        assert forall|j: int| 0 <= j < samples@.len() implies samples@[j].value(metric) <= max by {
            assert(values[j] == samples@[j].value(metric));
        }
        if max != 0 {
            let k = choose|k: int| 0 <= k < values.len() && values[k] == max;
            assert(samples@[k].value(metric) == max);
        }
    }
    max
}

/// A linear scale: the interval of values `[domain_start, domain_end]` is laid
/// onto the interval of pixels from `range_start` to `range_end`. A range that
/// runs downwards puts larger values higher on the canvas.
#[derive(Clone, Copy, Debug, PartialEq, Eq, Structural)]
pub struct Scale {
    pub domain_start: u64,
    pub domain_end: u64,
    pub range_start: isize,
    pub range_end: isize,
}

impl Scale {
    /// Every scale of a chart starts its domain at 0.
    pub open spec fn wf(self) -> bool {
        self.domain_start == 0
    }

    /// The domain is a single value: every point lies on one flat line.
    pub open spec fn is_flat(self) -> bool {
        self.domain_end == self.domain_start
    }

    /// Whether the domain is a single value. Such a scale is still a valid
    /// one; whoever draws it asks here first and draws a flat line in place
    /// of dividing by the span.
    pub fn is_degenerate(&self) -> (flat: bool)
        ensures
            flat == self.is_flat(),
    {
        self.domain_end == self.domain_start
    }

    /// The end of the domain as it is to be drawn: the end itself, and one
    /// unit above the start where the domain is a single value. The drawn
    /// domain is never empty, so nothing that divides by its length divides
    /// by zero, and the points of a flat scale all lie on its lower edge.
    pub fn drawing_end(&self) -> (end: u64)
        requires
            self.wf(),
        ensures
            end == (if self.is_flat() { 1 } else { self.domain_end }),
            end > self.domain_start,
            end >= self.domain_end,
    {
        if self.domain_end == self.domain_start {
            1
        } else {
            self.domain_end
        }
    }

    /// Length of the domain.
    pub fn span(&self) -> (d: u64)
        requires
            self.wf(),
        ensures
            d == self.domain_end,
            d == self.domain_end - self.domain_start,
            (d == 0) == self.is_flat(),
    {
        self.domain_end - self.domain_start
    }
}

/// The scale of the time axis: from 0 to the latest timestamp, onto the width
/// of the drawing area from left to right.
pub open spec fn time_scale(samples: Seq<Sample>, config: ChartConfig) -> Scale {
    Scale {
        domain_start: 0,
        domain_end: peak(metric_values(samples, Metric::Time)),
        range_start: 0,
        range_end: config.width,
    }
}

/// The scale of the CPU axis: from 0 to the highest utilisation, onto the
/// height of the drawing area from bottom to top.
pub open spec fn cpu_scale(samples: Seq<Sample>, config: ChartConfig) -> Scale {
    Scale {
        domain_start: 0,
        domain_end: peak(metric_values(samples, Metric::Cpu)),
        range_start: config.height,
        range_end: 0,
    }
}

/// The scale of the memory axis: from 0 to the largest resident size, onto
/// the height of the drawing area from bottom to top.
pub open spec fn memory_scale(samples: Seq<Sample>, config: ChartConfig) -> Scale {
    Scale {
        domain_start: 0,
        domain_end: peak(metric_values(samples, Metric::Memory)),
        range_start: config.height,
        range_end: 0,
    }
}

/// The scale of the time axis. Its domain ends at the largest timestamp of
/// all samples, in whatever order they come, and at 0 where there are none.
pub fn generate_scale_x(samples: &Vec<Sample>, config: &ChartConfig) -> (s: Scale)
    ensures
        s == time_scale(samples@, *config),
        s.wf(),
        forall|i: int| 0 <= i < samples@.len() ==> samples@[i].ts <= s.domain_end,
        s.domain_end == 0 || exists|i: int| 0 <= i < samples@.len() && samples@[i].ts == s.domain_end,
{
    let max_ts: u64 = observed_max(samples, Metric::Time);
    proof {
        if max_ts != 0 {
            let k = choose|k: int| 0 <= k < samples@.len() && samples@[k].value(Metric::Time) == max_ts;
            assert(samples@[k].ts == max_ts);
        }
        assert forall|i: int| 0 <= i < samples@.len() implies samples@[i].ts <= max_ts by {
            assert(samples@[i].value(Metric::Time) <= max_ts);
        }
    }
    Scale { domain_start: 0, domain_end: max_ts, range_start: 0, range_end: config.width }
}

/// The scale of the CPU axis. Its domain ends at the highest utilisation of
/// all samples, and at 0 where there are none.
pub fn generate_scale_cpu(samples: &Vec<Sample>, config: &ChartConfig) -> (s: Scale)
    ensures
        s == cpu_scale(samples@, *config),
        s.wf(),
        forall|i: int| 0 <= i < samples@.len() ==> samples@[i].cpu <= s.domain_end,
        s.domain_end == 0 || exists|i: int| 0 <= i < samples@.len() && samples@[i].cpu == s.domain_end,
{
    let max: u64 = observed_max(samples, Metric::Cpu);
    proof {
        if max != 0 {
            let k = choose|k: int| 0 <= k < samples@.len() && samples@[k].value(Metric::Cpu) == max;
            assert(samples@[k].cpu == max);
        }
        assert forall|i: int| 0 <= i < samples@.len() implies samples@[i].cpu <= max by {
            assert(samples@[i].value(Metric::Cpu) <= max);
        }
    }
    Scale { domain_start: 0, domain_end: max, range_start: config.height, range_end: 0 }
}

/// The scale of the memory axis. Its domain ends at the largest resident size
/// of all samples, to the byte, and at 0 where there are none.
pub fn generate_scale_mem(samples: &Vec<Sample>, config: &ChartConfig) -> (s: Scale)
    ensures
        s == memory_scale(samples@, *config),
        s.wf(),
        forall|i: int| 0 <= i < samples@.len() ==> samples@[i].rss <= s.domain_end,
        s.domain_end == 0 || exists|i: int| 0 <= i < samples@.len() && samples@[i].rss == s.domain_end,
{
    let max: u64 = observed_max(samples, Metric::Memory);
    proof {
        if max != 0 {
            let k = choose|k: int| 0 <= k < samples@.len() && samples@[k].value(Metric::Memory) == max;
            assert(samples@[k].rss == max);
        }
        assert forall|i: int| 0 <= i < samples@.len() implies samples@[i].rss <= max by {
            assert(samples@[i].value(Metric::Memory) <= max);
        }
    }
    Scale { domain_start: 0, domain_end: max, range_start: config.height, range_end: 0 }
}

} // verus!
