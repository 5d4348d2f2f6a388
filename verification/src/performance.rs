//! Frame and update rates measured over one-second samples, and the runtime
//! diagnostics block that reports them.

use vstd::prelude::*;

use crate::launch::{renderer_text, RenderBackend};
use crate::text::{decimal, digit_char, digit_of, push_char, push_decimal, push_str};

verus! {

/// Length of one measurement sample, in nanoseconds.
pub const SAMPLE_NANOS: u128 = 1_000_000_000;

/// A rate measured over a sample: `count` events in `elapsed` nanoseconds.
#[derive(Debug, Clone, Copy, PartialEq, Eq, Structural)]
pub struct MeasuredRate {
    pub count: u32,
    pub elapsed: u128,
}

/// Frame and update counts of the running sample and in total, and the
/// rates of the last finished sample.
#[derive(Debug, Clone)]
pub struct PerformanceStats {
    pub target_label: String,
    pub sample_started: u128,
    pub frames_in_sample: u32,
    pub updates_in_sample: u32,
    pub frames_total: u64,
    pub updates_total: u64,
    pub measured_fps: Option<MeasuredRate>,
    pub measured_ups: Option<MeasuredRate>,
}

impl PerformanceStats {
    /// Nothing measured yet; the sample starts at `now`.
    pub fn new(target_label: String, now: u128) -> (stats: Self)
        ensures
            stats.target_label == target_label,
            stats.sample_started == now,
            stats.frames_in_sample == 0,
            stats.updates_in_sample == 0,
            stats.frames_total == 0,
            stats.updates_total == 0,
            stats.measured_fps is None,
            stats.measured_ups is None,
    {
        PerformanceStats {
            target_label,
            sample_started: now,
            frames_in_sample: 0,
            updates_in_sample: 0,
            frames_total: 0,
            updates_total: 0,
            measured_fps: None,
            measured_ups: None,
        }
    }

    /// Counts a frame that ran `updates` updates. Once a second has passed
    /// since the sample started, the sample's rates are published and a new
    /// sample starts at `now`; returns whether that happened.
    pub fn record_frame(&mut self, now: u128, updates: usize) -> (published: bool)
        requires
            old(self).frames_in_sample < u32::MAX,
            old(self).updates_in_sample + (updates as u32) <= u32::MAX,
        ensures
            final(self).target_label == old(self).target_label,
            final(self).frames_total == if old(self).frames_total == u64::MAX {
                u64::MAX
            } else {
                (old(self).frames_total + 1) as u64
            },
            final(self).updates_total == if old(self).updates_total + updates > u64::MAX {
                u64::MAX
            } else {
                (old(self).updates_total + updates) as u64
            },
            ({
                let frames = (old(self).frames_in_sample + 1) as u32;
                let counted_updates = (old(self).updates_in_sample + (updates as u32)) as u32;
                let elapsed = if now >= old(self).sample_started {
                    (now - old(self).sample_started) as u128
                } else {
                    0u128
                };
                if elapsed < SAMPLE_NANOS {
                    &&& !published
                    &&& final(self).frames_in_sample == frames
                    &&& final(self).updates_in_sample == counted_updates
                    &&& final(self).sample_started == old(self).sample_started
                    &&& final(self).measured_fps == old(self).measured_fps
                    &&& final(self).measured_ups == old(self).measured_ups
                } else {
                    &&& published
                    &&& final(self).frames_in_sample == 0
                    &&& final(self).updates_in_sample == 0
                    &&& final(self).sample_started == now
                    &&& final(self).measured_fps == Some(MeasuredRate { count: frames, elapsed })
                    &&& final(self).measured_ups == Some(MeasuredRate { count: counted_updates, elapsed })
                }
            }),
    {
        self.frames_in_sample = self.frames_in_sample + 1;
        self.updates_in_sample = self.updates_in_sample + updates as u32;
        self.frames_total = self.frames_total.saturating_add(1);
        self.updates_total = self.updates_total.saturating_add(updates as u64);
        let elapsed = if now >= self.sample_started {
            now - self.sample_started
        } else {
            0
        };
        if elapsed < SAMPLE_NANOS {
            return false;
        }
        self.measured_fps = Some(MeasuredRate { count: self.frames_in_sample, elapsed });
        self.measured_ups = Some(MeasuredRate { count: self.updates_in_sample, elapsed });
        self.sample_started = now;
        self.frames_in_sample = 0;
        self.updates_in_sample = 0;
        true
    }
}

/// A rate in events per second, in units of one over `scale`, rounded to
/// nearest (halves up).
pub open spec fn rate_scaled(rate: MeasuredRate, scale: nat) -> nat {
    (rate.count as nat * SAMPLE_NANOS as nat * scale * 2 + rate.elapsed as nat) / (2 * rate.elapsed as nat)
}

/// A rate as the overlay shows it: whole events per second, or `--`.
pub open spec fn overlay_rate_text(rate: Option<MeasuredRate>) -> Seq<char> {
    match rate {
        Some(r) => decimal(rate_scaled(r, 1)),
        None => "--"@,
    }
}

/// A rate as the diagnostics show it: tenths of events per second, or `--`.
pub open spec fn diagnostics_rate_text(rate: Option<MeasuredRate>) -> Seq<char> {
    match rate {
        Some(r) => {
            let t = rate_scaled(r, 10);
            decimal(t / 10) + seq!['.', digit_char(t % 10)]
        },
        None => "--"@,
    }
}

fn scaled(rate: MeasuredRate, scale: u128) -> (value: u128)
    requires
        SAMPLE_NANOS <= rate.elapsed <= u128::MAX / 2,
        1 <= scale <= 10,
    ensures
        value == rate_scaled(rate, scale as nat),
{
    let count = rate.count as u128;
    assert(count * 1_000_000_000 * scale * 2 <= 0xffff_ffff * 1_000_000_000 * 10 * 2) by (nonlinear_arith)
        requires
            count <= 0xffff_ffff,
            scale <= 10,
    ;
    let numerator = count * 1_000_000_000 * scale * 2;
    (numerator + rate.elapsed) / (2 * rate.elapsed)
}

fn push_overlay_rate(out: &mut String, rate: Option<MeasuredRate>)
    requires
        rate matches Some(r) ==> r.elapsed >= SAMPLE_NANOS && r.elapsed <= u128::MAX / 2,
    ensures
        final(out)@ == old(out)@ + overlay_rate_text(rate),
{
    match rate {
        Some(r) => push_decimal(out, scaled(r, 1)),
        None => push_str(out, "--"),
    }
}

fn push_diagnostics_rate(out: &mut String, rate: Option<MeasuredRate>)
    requires
        rate matches Some(r) ==> r.elapsed >= SAMPLE_NANOS && r.elapsed <= u128::MAX / 2,
    ensures
        final(out)@ == old(out)@ + diagnostics_rate_text(rate),
{
    match rate {
        Some(r) => {
            let ghost start = out@;
            let t = scaled(r, 10);
            push_decimal(out, t / 10);
            push_char(out, '.');
            push_char(out, digit_of(t % 10));
            assert(out@ =~= start + diagnostics_rate_text(rate));
        },
        None => push_str(out, "--"),
    }
}

/// Rates that fit the arithmetic of the labels.
pub open spec fn rates_fit(stats: PerformanceStats) -> bool {
    &&& (stats.measured_fps matches Some(r) ==> SAMPLE_NANOS <= r.elapsed <= u128::MAX / 2)
    &&& (stats.measured_ups matches Some(r) ==> SAMPLE_NANOS <= r.elapsed <= u128::MAX / 2)
}

/// The overlay line: target, frames and updates per second.
pub open spec fn display_text_spec(stats: PerformanceStats) -> Seq<char> {
    "Target "@ + stats.target_label@ + " | FPS "@ + overlay_rate_text(stats.measured_fps)
        + " | UPS "@ + overlay_rate_text(stats.measured_ups)
}

/// The performance lines of the diagnostics block.
pub open spec fn diagnostics_text_spec(stats: PerformanceStats) -> Seq<char> {
    "performance_target="@ + stats.target_label@ + "\nfps="@ + diagnostics_rate_text(stats.measured_fps)
        + "\nups="@ + diagnostics_rate_text(stats.measured_ups) + "\nframes_total="@ + decimal(
        stats.frames_total as nat,
    ) + "\nupdates_total="@ + decimal(stats.updates_total as nat)
}

impl PerformanceStats {
    /// The overlay line.
    pub fn display_text(&self) -> (text: String)
        requires
            rates_fit(*self),
        ensures
            text@ == display_text_spec(*self),
    {
        let mut text = String::new();
        push_str(&mut text, "Target ");
        push_str(&mut text, self.target_label.as_str());
        push_str(&mut text, " | FPS ");
        push_overlay_rate(&mut text, self.measured_fps);
        push_str(&mut text, " | UPS ");
        push_overlay_rate(&mut text, self.measured_ups);
        assert(text@ =~= display_text_spec(*self));
        text
    }

    /// The performance lines of the diagnostics block.
    pub fn diagnostics_text(&self) -> (text: String)
        requires
            rates_fit(*self),
        ensures
            text@ == diagnostics_text_spec(*self),
    {
        let mut text = String::new();
        push_str(&mut text, "performance_target=");
        push_str(&mut text, self.target_label.as_str());
        push_str(&mut text, "\nfps=");
        push_diagnostics_rate(&mut text, self.measured_fps);
        push_str(&mut text, "\nups=");
        push_diagnostics_rate(&mut text, self.measured_ups);
        push_str(&mut text, "\nframes_total=");
        push_decimal(&mut text, self.frames_total as u128);
        push_str(&mut text, "\nupdates_total=");
        push_decimal(&mut text, self.updates_total as u128);
        assert(text@ =~= diagnostics_text_spec(*self));
        text
    }
}

/// `true` or `false`, as `bool` displays.
pub open spec fn bool_text(value: bool) -> Seq<char> {
    if value { "true"@ } else { "false"@ }
}

/// The runtime diagnostics block. `raster_scale_label` is the raster scale
/// with two decimals.
pub open spec fn runtime_diagnostics_spec(
    scenario: Seq<char>,
    revision: u64,
    paused: bool,
    benchmark_active: bool,
    renderer: RenderBackend,
    raster_scale_label: Seq<char>,
    stats: PerformanceStats,
    input_diagnostics: Seq<char>,
) -> Seq<char> {
    "scenario="@ + scenario + "\nscenario_revision="@ + decimal(revision as nat) + "\npaused="@
        + bool_text(paused) + "\nbenchmark_active="@ + bool_text(benchmark_active) + "\nrenderer="@
        + renderer_text(renderer) + "\nraster_scale="@ + raster_scale_label + "\n"@
        + diagnostics_text_spec(stats) + "\n"@ + input_diagnostics
}

/// Writes the runtime diagnostics block.
pub fn runtime_diagnostics_text(
    scenario: &str,
    revision: u64,
    paused: bool,
    benchmark_active: bool,
    renderer: RenderBackend,
    raster_scale_label: &str,
    stats: &PerformanceStats,
    input_diagnostics: &str,
) -> (text: String)
    requires
        rates_fit(*stats),
    ensures
        text@ == runtime_diagnostics_spec(
            scenario@,
            revision,
            paused,
            benchmark_active,
            renderer,
            raster_scale_label@,
            *stats,
            input_diagnostics@,
        ),
{
    let mut text = String::new();
    push_str(&mut text, "scenario=");
    push_str(&mut text, scenario);
    push_str(&mut text, "\nscenario_revision=");
    push_decimal(&mut text, revision as u128);
    push_str(&mut text, "\npaused=");
    push_str(&mut text, if paused { "true" } else { "false" });
    push_str(&mut text, "\nbenchmark_active=");
    push_str(&mut text, if benchmark_active { "true" } else { "false" });
    push_str(&mut text, "\nrenderer=");
    push_str(&mut text, renderer.label());
    push_str(&mut text, "\nraster_scale=");
    push_str(&mut text, raster_scale_label);
    push_str(&mut text, "\n");
    let perf = stats.diagnostics_text();
    push_str(&mut text, perf.as_str());
    push_str(&mut text, "\n");
    push_str(&mut text, input_diagnostics);
    assert(text@ =~= runtime_diagnostics_spec(
        scenario@,
        revision,
        paused,
        benchmark_active,
        renderer,
        raster_scale_label@,
        *stats,
        input_diagnostics@,
    ));
    text
}

} // verus!
