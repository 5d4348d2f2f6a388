//! Bounded CPU-only host timings: a rolling window of per-callback samples,
//! cleared whenever the viewport or raster size changes, and a text report of
//! averages, nearest-rank 95th percentiles and maxima in milliseconds.

use std::collections::VecDeque;
use vstd::prelude::*;
use vstd::relations::{sorted_by, total_ordering};
use vstd::seq_lib::{lemma_sorted_unique, to_multiset_update};

use crate::text::{decimal, digit_char, digit_of, push_char, push_decimal, push_str};

verus! {

/// Samples kept in the rolling window.
pub const SAMPLE_LIMIT: usize = 120;

/// CPU time spent in one host callback, in nanoseconds.
#[derive(Debug, Clone, Copy, Default, PartialEq, Eq, Structural)]
pub struct FrameSample {
    /// Time since the previous callback.
    pub interval: u64,
    pub step: u64,
    pub scene: u64,
    pub prepare: u64,
    /// The whole callback.
    pub total: u64,
    /// Fixed updates run by the callback.
    pub updates: usize,
}

/// The timings the report describes, in report order.
#[derive(Debug, Clone, Copy, PartialEq, Eq, Structural)]
pub enum Timing {
    Interval,
    Step,
    Scene,
    Prepare,
    Callback,
}

/// The value of `timing` in `sample`.
pub open spec fn timing_of(sample: FrameSample, timing: Timing) -> u64 {
    match timing {
        Timing::Interval => sample.interval,
        Timing::Step => sample.step,
        Timing::Scene => sample.scene,
        Timing::Prepare => sample.prepare,
        Timing::Callback => sample.total,
    }
}

/// The name of `timing` in the report.
pub open spec fn timing_name(timing: Timing) -> Seq<char> {
    match timing {
        Timing::Interval => "interval"@,
        Timing::Step => "step"@,
        Timing::Scene => "scene"@,
        Timing::Prepare => "prepare"@,
        Timing::Callback => "callback"@,
    }
}

/// Sum of a sequence of numbers.
pub open spec fn total(values: Seq<u64>) -> nat
    decreases values.len(),
{
    if values.len() == 0 {
        0
    } else {
        total(values.drop_last()) + values.last() as nat
    }
}

/// Ascending order on numbers.
pub open spec fn ascending() -> spec_fn(u64, u64) -> bool {
    |a: u64, b: u64| a <= b
}

/// The `k`-th smallest of `values`, counting from 0.
pub open spec fn kth_smallest(values: Seq<u64>, k: int) -> u64 {
    values.sort_by(ascending())[k]
}

/// Index of the nearest-rank 95th percentile among `n` sorted values.
pub open spec fn p95_index(n: nat) -> int {
    (n * 95 + 99) / 100 - 1
}

/// `num / den` rounded to the nearest thousandth (halves round up), in
/// thousandths.
pub open spec fn thousandths(num: nat, den: nat) -> nat {
    (num * 2000 + den) / (2 * den)
}

/// A count of thousandths written with three decimals.
pub open spec fn fixed3(t: nat) -> Seq<char> {
    decimal(t / 1000) + seq!['.', digit_char(t / 100 % 10), digit_char(t / 10 % 10), digit_char(t % 10)]
}

/// One report line: the name, the key and a value in thousandths.
pub open spec fn report_line(name: Seq<char>, key: Seq<char>, t: nat) -> Seq<char> {
    "\nhost_"@ + name + key + fixed3(t)
}

/// The report lines for one timing.
pub open spec fn timing_report(samples: Seq<FrameSample>, timing: Timing) -> Seq<char> {
    let values = samples.map_values(|s: FrameSample| timing_of(s, timing));
    let name = timing_name(timing);
    report_line(name, "_avg_ms="@, thousandths(total(values), values.len() * 1_000_000))
        + report_line(
        name,
        "_p95_ms="@,
        thousandths(kth_smallest(values, p95_index(values.len())) as nat, 1_000_000),
    ) + report_line(
        name,
        "_max_ms="@,
        thousandths(kth_smallest(values, values.len() - 1) as nat, 1_000_000),
    )
}

/// Sum of the update counts of `samples`.
pub open spec fn total_updates(samples: Seq<FrameSample>) -> nat
    decreases samples.len(),
{
    if samples.len() == 0 {
        0
    } else {
        total_updates(samples.drop_last()) + samples.last().updates as nat
    }
}

/// The whole report: empty without samples.
pub open spec fn report(samples: Seq<FrameSample>, dimensions: [u32; 4], primitives: usize) -> Seq<char> {
    if samples.len() == 0 {
        Seq::empty()
    } else {
        "\nhost_cpu_samples="@ + decimal(samples.len()) + "\nhost_viewport_width="@ + decimal(
            dimensions[0] as nat,
        ) + "\nhost_viewport_height="@ + decimal(dimensions[1] as nat) + "\nhost_internal_width="@
            + decimal(dimensions[2] as nat) + "\nhost_internal_height="@ + decimal(
            dimensions[3] as nat,
        ) + "\nhost_scene_primitives="@ + decimal(primitives as nat)
            + "\nhost_updates_per_callback="@ + fixed3(
            thousandths(total_updates(samples), samples.len()),
        ) + timing_report(samples, Timing::Interval) + timing_report(samples, Timing::Step)
            + timing_report(samples, Timing::Scene) + timing_report(samples, Timing::Prepare)
            + timing_report(samples, Timing::Callback)
    }
}

/// Rolling window of host timings for one viewport and raster size.
#[derive(Debug, Clone)]
pub struct CpuProfile {
    samples: VecDeque<FrameSample>,
    dimensions: [u32; 4],
    primitives: usize,
}

impl CpuProfile {
    /// The samples in the window, oldest first.
    pub closed spec fn samples_spec(&self) -> Seq<FrameSample> {
        self.samples@
    }

    /// Viewport width and height, then raster width and height.
    pub closed spec fn dimensions_spec(&self) -> [u32; 4] {
        self.dimensions
    }

    /// Primitives in the last recorded scene.
    pub closed spec fn primitives_spec(&self) -> usize {
        self.primitives
    }

    /// An empty profile for a zero-sized viewport.
    pub fn new() -> (profile: Self)
        ensures
            profile.samples_spec().len() == 0,
            profile.dimensions_spec() == [0u32, 0u32, 0u32, 0u32],
            profile.primitives_spec() == 0,
    {
        CpuProfile { samples: VecDeque::new(), dimensions: [0, 0, 0, 0], primitives: 0 }
    }

    /// Number of samples in the window.
    pub fn sample_count(&self) -> (n: usize)
        ensures
            n == self.samples_spec().len(),
    {
        self.samples.len()
    }

    /// Forgets every sample.
    pub fn clear(&mut self)
        ensures
            final(self).samples_spec().len() == 0,
            final(self).dimensions_spec() == old(self).dimensions_spec(),
            final(self).primitives_spec() == old(self).primitives_spec(),
    {
        self.samples.clear();
    }

    /// Adds a sample taken at `dimensions` with `primitives` in the scene. A
    /// change of dimensions first drops the samples taken at the old ones; a
    /// full window drops its oldest sample.
    pub fn record(&mut self, sample: FrameSample, dimensions: [u32; 4], primitives: usize)
        requires
            old(self).samples_spec().len() <= SAMPLE_LIMIT,
        ensures
            final(self).samples_spec().len() <= SAMPLE_LIMIT,
            final(self).dimensions_spec() == dimensions,
            final(self).primitives_spec() == primitives,
            ({
                let kept = if dimensions == old(self).dimensions_spec() {
                    old(self).samples_spec()
                } else {
                    Seq::<FrameSample>::empty()
                };
                final(self).samples_spec() == if kept.len() == SAMPLE_LIMIT {
                    kept.drop_first().push(sample)
                } else {
                    kept.push(sample)
                }
            }),
    {
        let same = dimensions[0] == self.dimensions[0] && dimensions[1] == self.dimensions[1]
            && dimensions[2] == self.dimensions[2] && dimensions[3] == self.dimensions[3];
        proof {
            if same {
                assert(dimensions =~= old(self).dimensions_spec());
            } else {
                assert(dimensions != old(self).dimensions_spec());
            }
        }
        if !same {
            self.clear();
        }
        self.dimensions = dimensions;
        self.primitives = primitives;
        if self.samples.len() == SAMPLE_LIMIT {
            self.samples.pop_front();
        }
        self.samples.push_back(sample);
    }
}


/// Ascending order is a total order.
proof fn lemma_ascending_total()
    ensures
        total_ordering(ascending()),
{
    let leq = ascending();
    assert forall|x: u64| #[trigger] leq(x, x) by {}
    assert forall|x: u64, y: u64| #[trigger] leq(x, y) && #[trigger] leq(y, x) implies x == y by {}
    assert forall|x: u64, y: u64, z: u64| #[trigger] leq(x, y) && #[trigger] leq(y, z) implies leq(
        x,
        z,
    ) by {}
    assert forall|x: u64, y: u64| #[trigger] leq(x, y) || #[trigger] leq(y, x) by {}
}

/// Swapping two neighbours keeps the multiset of values.
proof fn lemma_swap_keeps_values(s: Seq<u64>, j: int)
    requires
        0 < j < s.len(),
    ensures
        s.update(j - 1, s[j]).update(j, s[j - 1]).to_multiset() == s.to_multiset(),
{
    broadcast use vstd::multiset::group_multiset_axioms;
    let s1 = s.update(j - 1, s[j]);
    to_multiset_update(s, j - 1, s[j]);
    to_multiset_update(s1, j, s[j - 1]);
    assert(s1[j] == s[j]);
    vstd::seq_lib::to_multiset_contains(s, s[j - 1]);
    assert(s.to_multiset().insert(s[j]).remove(s[j - 1]).insert(s[j - 1]).remove(s[j])
        =~= s.to_multiset());
}

/// Sorts `values` in ascending order.
pub(crate) fn sort_ascending(values: &mut Vec<u64>)
    ensures
        final(values)@ == old(values)@.sort_by(ascending()),
        final(values)@.len() == old(values)@.len(),
{
    let ghost original = values@;
    let n = values.len();
    let mut i: usize = 1;
    while i < n
        invariant
            n == values.len(),
            1 <= i || n == 0,
            values@.to_multiset() == original.to_multiset(),
            forall|a: int, b: int| 0 <= a < b < i && b < n ==> values@[a] <= values@[b],
        decreases n - i,
    {
        let mut j: usize = i;
        while j > 0 && values[j - 1] > values[j]
            invariant
                n == values.len(),
                0 <= j <= i < n,
                values@.to_multiset() == original.to_multiset(),
                forall|a: int, b: int| 0 <= a < b <= i && b != j ==> values@[a] <= values@[b],
                forall|b: int| j < b <= i ==> values@[j as int] <= values@[b],
            decreases j,
        {
            let lower = values[j - 1];
            let upper = values[j];
            proof {
                lemma_swap_keeps_values(values@, j as int);
            }
            values.set(j - 1, upper);
            values.set(j, lower);
            j = j - 1;
        }
        i = i + 1;
    }
    proof {
        lemma_ascending_total();
        original.lemma_sort_by_ensures(ascending());
        assert(sorted_by(values@, ascending()));
        lemma_sorted_unique(values@, original.sort_by(ascending()), ascending());
    }
}


/// Appends `t` thousandths written with three decimals.
pub(crate) fn push_fixed3(s: &mut String, t: u128)
    ensures
        final(s)@ == old(s)@ + fixed3(t as nat),
{
    let ghost start = s@;
    push_decimal(s, t / 1000);
    push_char(s, '.');
    push_char(s, digit_of(t / 100 % 10));
    push_char(s, digit_of(t / 10 % 10));
    push_char(s, digit_of(t % 10));
    assert(s@ =~= start + fixed3(t as nat));
}

/// `num / den` in rounded thousandths.
pub(crate) fn thousandths_of(num: u128, den: u128) -> (t: u128)
    requires
        0 < den <= 0x1_0000_0000_0000_0000_0000_0000,
        num <= 0x1_0000_0000_0000_0000_0000_0000,
    ensures
        t == thousandths(num as nat, den as nat),
{
    (num * 2000 + den) / (2 * den)
}

/// The values of `timing` in `samples`, oldest first.
fn timing_values(samples: &VecDeque<FrameSample>, timing: Timing) -> (values: Vec<u64>)
    ensures
        values@ == samples@.map_values(|s: FrameSample| timing_of(s, timing)),
{
    let mut values: Vec<u64> = Vec::new();
    let mut i: usize = 0;
    while i < samples.len()
        invariant
            i <= samples@.len(),
            values@ == samples@.take(i as int).map_values(|s: FrameSample| timing_of(s, timing)),
        decreases samples@.len() - i,
    {
        let sample = samples[i];
        let value = match timing {
            Timing::Interval => sample.interval,
            Timing::Step => sample.step,
            Timing::Scene => sample.scene,
            Timing::Prepare => sample.prepare,
            Timing::Callback => sample.total,
        };
        values.push(value);
        assert(samples@.take(i as int + 1) =~= samples@.take(i as int).push(samples@[i as int]));
        i = i + 1;
    }
    assert(samples@.take(samples@.len() as int) =~= samples@);
    values
}

/// Sum of `values`, which are few enough not to overflow.
fn sum_values(values: &Vec<u64>) -> (sum: u128)
    requires
        values@.len() <= SAMPLE_LIMIT,
    ensures
        sum == total(values@),
        sum <= values@.len() * 0xffff_ffff_ffff_ffff,
{
    let mut sum: u128 = 0;
    let mut i: usize = 0;
    while i < values.len()
        invariant
            i <= values@.len() <= SAMPLE_LIMIT,
            sum == total(values@.take(i as int)),
            sum <= i * 0xffff_ffff_ffff_ffff,
        decreases values@.len() - i,
    {
        assert(values@.take(i as int + 1).drop_last() =~= values@.take(i as int));
        sum = sum + values[i] as u128;
        i = i + 1;
    }
    assert(values@.take(values@.len() as int) =~= values@);
    sum
}

/// Sum of the update counts of `samples`, which are few enough not to overflow.
fn sum_updates(samples: &VecDeque<FrameSample>) -> (sum: u128)
    requires
        samples@.len() <= SAMPLE_LIMIT,
    ensures
        sum == total_updates(samples@),
        sum <= samples@.len() * 0xffff_ffff_ffff_ffff,
{
    let mut sum: u128 = 0;
    let mut i: usize = 0;
    while i < samples.len()
        invariant
            i <= samples@.len() <= SAMPLE_LIMIT,
            sum == total_updates(samples@.take(i as int)),
            sum <= i * 0xffff_ffff_ffff_ffff,
        decreases samples@.len() - i,
    {
        assert(samples@.take(i as int + 1).drop_last() =~= samples@.take(i as int));
        sum = sum + samples[i].updates as u128;
        i = i + 1;
    }
    assert(samples@.take(samples@.len() as int) =~= samples@);
    sum
}

/// The name of `timing` in the report.
fn timing_label(timing: Timing) -> (name: &'static str)
    ensures
        name@ == timing_name(timing),
{
    match timing {
        Timing::Interval => "interval",
        Timing::Step => "step",
        Timing::Scene => "scene",
        Timing::Prepare => "prepare",
        Timing::Callback => "callback",
    }
}

/// Appends one report line.
fn push_report_line(s: &mut String, name: &str, key: &str, t: u128)
    ensures
        final(s)@ == old(s)@ + report_line(name@, key@, t as nat),
{
    let ghost start = s@;
    push_str(s, "\nhost_");
    push_str(s, name);
    push_str(s, key);
    push_fixed3(s, t);
    assert(s@ =~= start + report_line(name@, key@, t as nat));
}

/// The average, 95th percentile and maximum of one timing, in thousandths
/// of a millisecond.
fn timing_summary(samples: &VecDeque<FrameSample>, timing: Timing) -> (summary: (u128, u128, u128))
    requires
        0 < samples@.len() <= SAMPLE_LIMIT,
    ensures
        ({
            let values = samples@.map_values(|s: FrameSample| timing_of(s, timing));
            &&& summary.0 == thousandths(total(values), values.len() * 1_000_000)
            &&& summary.1 == thousandths(kth_smallest(values, p95_index(values.len())) as nat, 1_000_000)
            &&& summary.2 == thousandths(kth_smallest(values, values.len() - 1) as nat, 1_000_000)
        }),
{
    let mut values = timing_values(samples, timing);
    let sum = sum_values(&values);
    sort_ascending(&mut values);
    let n = values.len();
    assert(n == samples@.len());
    assert(1 <= (n * 95 + 99) / 100 <= n) by (nonlinear_arith)
        requires
            1 <= n <= 120,
    ;
    let p95 = (n * 95 + 99) / 100 - 1;
    let count = n as u128;
    assert(count * 1_000_000 <= 120_000_000) by (nonlinear_arith)
        requires
            count <= 120,
    ;
    (
        thousandths_of(sum, count * 1_000_000),
        thousandths_of(values[p95] as u128, 1_000_000),
        thousandths_of(values[n - 1] as u128, 1_000_000),
    )
}

/// Appends the report lines for `timing`.
fn push_timing_report(s: &mut String, samples: &VecDeque<FrameSample>, timing: Timing)
    requires
        0 < samples@.len() <= SAMPLE_LIMIT,
    ensures
        final(s)@ == old(s)@ + timing_report(samples@, timing),
{
    let ghost start = s@;
    let (average, p95, max) = timing_summary(samples, timing);
    let name = timing_label(timing);
    push_report_line(s, name, "_avg_ms=", average);
    push_report_line(s, name, "_p95_ms=", p95);
    push_report_line(s, name, "_max_ms=", max);
    assert(s@ =~= start + timing_report(samples@, timing));
}

impl CpuProfile {
    /// The report on the window: sample count, dimensions, scene primitives
    /// and updates per callback, then average, 95th percentile and maximum of
    /// each timing in milliseconds. Empty without samples.
    pub fn diagnostics(&self) -> (text: String)
        requires
            self.samples_spec().len() <= SAMPLE_LIMIT,
        ensures
            text@ == report(self.samples_spec(), self.dimensions_spec(), self.primitives_spec()),
    {
        let mut text = String::new();
        let n = self.samples.len();
        if n == 0 {
            return text;
        }
        let updates = sum_updates(&self.samples);
        push_str(&mut text, "\nhost_cpu_samples=");
        push_decimal(&mut text, n as u128);
        push_str(&mut text, "\nhost_viewport_width=");
        push_decimal(&mut text, self.dimensions[0] as u128);
        push_str(&mut text, "\nhost_viewport_height=");
        push_decimal(&mut text, self.dimensions[1] as u128);
        push_str(&mut text, "\nhost_internal_width=");
        push_decimal(&mut text, self.dimensions[2] as u128);
        push_str(&mut text, "\nhost_internal_height=");
        push_decimal(&mut text, self.dimensions[3] as u128);
        push_str(&mut text, "\nhost_scene_primitives=");
        push_decimal(&mut text, self.primitives as u128);
        push_str(&mut text, "\nhost_updates_per_callback=");
        push_fixed3(&mut text, thousandths_of(updates, n as u128));
        let ghost head = text@;
        push_timing_report(&mut text, &self.samples, Timing::Interval);
        push_timing_report(&mut text, &self.samples, Timing::Step);
        push_timing_report(&mut text, &self.samples, Timing::Scene);
        push_timing_report(&mut text, &self.samples, Timing::Prepare);
        push_timing_report(&mut text, &self.samples, Timing::Callback);
        assert(text@ =~= report(self.samples_spec(), self.dimensions_spec(), self.primitives_spec()));
        text
    }
}


impl Default for CpuProfile {
    fn default() -> (profile: Self)
        ensures
            profile.samples_spec().len() == 0,
            profile.dimensions_spec() == [0u32, 0u32, 0u32, 0u32],
            profile.primitives_spec() == 0,
    {
        CpuProfile::new()
    }
}

} // verus!
