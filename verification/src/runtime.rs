//! Lifecycle and pacing of the realtime emulator worker: the worker mode, the
//! input mailbox, the exact NTSC frame pacer and the per-frame bookkeeping.

use vstd::arithmetic::div_mod::{lemma_fundamental_div_mod, lemma_fundamental_div_mod_converse};
use vstd::prelude::*;

use crate::audio::{samples_pushed, AudioShared, RealtimeAudioEndpoint, RealtimeAudioTelemetry};
use crate::video::{
    handoff_error_message, handoff_error_text, published_view, valid_layout, HandoffView,
    NativeVideoDescriptor, NativeVideoFrame, RealtimeStartError,
    RealtimeVideoMetadata, TelemetryCounters,
    VideoHandoff, VideoHandoffError,
};

verus! {

/// Frames the worker may emulate back to back before it rebases its pacer.
pub const MAX_CATCH_UP_FRAMES: usize = 4;

/// The NTSC master clock is `NTSC_MASTER_CLOCK_NUMERATOR_HZ / 11` Hz.
pub const NTSC_MASTER_CLOCK_NUMERATOR_HZ: u64 = 236_250_000;

/// One PPU clock lasts `NTSC_PPU_CLOCK_DENOMINATOR / NTSC_MASTER_CLOCK_NUMERATOR_HZ` seconds.
pub const NTSC_PPU_CLOCK_DENOMINATOR: u64 = 44;

/// Nanoseconds per second.
pub const NANOS_PER_SECOND: u64 = 1_000_000_000;

/// Controller button bits, in the order of the NES controller report.
pub const BUTTON_A: u8 = 0x01;
pub const BUTTON_B: u8 = 0x02;
pub const BUTTON_SELECT: u8 = 0x04;
pub const BUTTON_START: u8 = 0x08;
pub const BUTTON_UP: u8 = 0x10;
pub const BUTTON_DOWN: u8 = 0x20;
pub const BUTTON_LEFT: u8 = 0x40;
pub const BUTTON_RIGHT: u8 = 0x80;

/// A set of held controller buttons, one bit per button.
pub type ControllerButtons = u8;

/// What the worker thread is asked to do.
#[derive(Debug, Clone, Copy, PartialEq, Eq, Structural)]
pub enum WorkerMode {
    Paused,
    Running,
    Stopped,
}

impl WorkerMode {
    /// The mode stored as `value`: 1 runs, 2 stops, anything else pauses.
    pub fn from_u8(value: u8) -> (mode: Self)
        ensures
            mode == if value == 1 {
                WorkerMode::Running
            } else if value == 2 {
                WorkerMode::Stopped
            } else {
                WorkerMode::Paused
            },
    {
        match value {
            1 => WorkerMode::Running,
            2 => WorkerMode::Stopped,
            _ => WorkerMode::Paused,
        }
    }

    /// The stored form of the mode.
    pub fn to_u8(self) -> (value: u8)
        ensures
            WorkerMode::from_u8_spec(value) == self,
    {
        match self {
            WorkerMode::Paused => 0,
            WorkerMode::Running => 1,
            WorkerMode::Stopped => 2,
        }
    }

    pub open spec fn from_u8_spec(value: u8) -> WorkerMode {
        if value == 1 {
            WorkerMode::Running
        } else if value == 2 {
            WorkerMode::Stopped
        } else {
            WorkerMode::Paused
        }
    }
}

/// The input the worker samples at the start of a frame.
#[derive(Debug, Clone, Copy, PartialEq, Eq)]
pub struct InputRequest {
    pub sequence_id: u64,
    pub controllers: [ControllerButtons; 2],
    /// When the host observed the input, in nanoseconds since the runtime started.
    pub observed_at: u128,
}

/// Latest-wins mailbox of controller input with increasing sequence ids.
pub struct InputMailbox {
    latest: InputRequest,
    next_sequence_id: u64,
}

impl InputMailbox {
    pub closed spec fn latest_spec(&self) -> InputRequest {
        self.latest
    }

    /// Sequence id the next publish assigns.
    pub closed spec fn upcoming(&self) -> u64 {
        self.next_sequence_id
    }

    /// Neutral input with sequence 0; the first publish gets sequence 1.
    pub fn new() -> (mailbox: Self)
        ensures
            mailbox.latest_spec() == (InputRequest {
                sequence_id: 0,
                controllers: [0u8, 0u8],
                observed_at: 0,
            }),
            mailbox.upcoming() == 1,
    {
        InputMailbox {
            latest: InputRequest { sequence_id: 0, controllers: [0, 0], observed_at: 0 },
            next_sequence_id: 1,
        }
    }

    /// Replaces the latest input and returns its sequence id.
    pub fn publish(&mut self, controllers: [ControllerButtons; 2], observed_at: u128) -> (sequence_id: u64)
        ensures
            sequence_id == old(self).upcoming(),
            final(self).upcoming() == old(self).upcoming().wrapping_add(1),
            final(self).latest_spec() == (InputRequest { sequence_id, controllers, observed_at }),
    {
        let sequence_id = self.next_sequence_id;
        self.next_sequence_id = self.next_sequence_id.wrapping_add(1);
        self.latest = InputRequest { sequence_id, controllers, observed_at };
        sequence_id
    }

    /// Publishes neutral input, so that nothing held survives a lifecycle change.
    pub fn neutralize(&mut self, observed_at: u128) -> (sequence_id: u64)
        ensures
            sequence_id == old(self).upcoming(),
            final(self).upcoming() == old(self).upcoming().wrapping_add(1),
            final(self).latest_spec() == (InputRequest {
                sequence_id,
                controllers: [0u8, 0u8],
                observed_at,
            }),
    {
        self.publish([0, 0], observed_at)
    }

    /// The latest input.
    pub fn latest(&self) -> (request: InputRequest)
        ensures
            request == self.latest_spec(),
    {
        self.latest
    }
}

/// Factor that turns PPU clocks into nanoseconds times the master clock numerator.
pub open spec fn nanos_scale() -> int {
    NTSC_PPU_CLOCK_DENOMINATOR as int * NANOS_PER_SECOND as int
}

/// Frame deadlines that follow the exact NTSC clock ratio: each frame's
/// duration is added as a fraction, and the sub-nanosecond remainder is
/// carried instead of being rounded away.
#[derive(Debug, Clone, Copy)]
pub struct RationalPacer {
    deadline_nanos: u128,
    remainder: u64,
}

impl RationalPacer {
    /// The remainder is a proper fraction of a nanosecond.
    pub closed spec fn wf(&self) -> bool {
        self.remainder < NTSC_MASTER_CLOCK_NUMERATOR_HZ
    }

    /// The deadline, in nanoseconds since the runtime started.
    pub closed spec fn deadline_spec(&self) -> u128 {
        self.deadline_nanos
    }

    /// Carried fraction of a nanosecond, in units of one master clock numerator.
    pub closed spec fn carried(&self) -> u64 {
        self.remainder
    }

    /// Elapsed time since the origin scaled by the master clock numerator.
    pub open spec fn scaled(&self) -> int {
        self.deadline_spec() as int * NTSC_MASTER_CLOCK_NUMERATOR_HZ as int + self.carried() as int
    }

    /// A pacer whose first deadline is `origin`.
    pub fn new(origin: u128) -> (pacer: Self)
        ensures
            pacer.wf(),
            pacer.deadline_spec() == origin,
            pacer.carried() == 0,
    {
        RationalPacer { deadline_nanos: origin, remainder: 0 }
    }

    /// The next frame deadline.
    pub fn deadline(self) -> (deadline: u128)
        ensures
            deadline == self.deadline_spec(),
    {
        self.deadline_nanos
    }

    /// Moves the deadline by `clocks` PPU clocks, exactly.
    pub fn advance_ppu_clocks(&mut self, clocks: u64)
        requires
            old(self).wf(),
            old(self).deadline_spec() as int + clocks as int * nanos_scale()
                / NTSC_MASTER_CLOCK_NUMERATOR_HZ as int + 1 <= u128::MAX,
        ensures
            final(self).wf(),
            final(self).scaled() == old(self).scaled() + clocks as int * nanos_scale(),
    {
        let master = NTSC_MASTER_CLOCK_NUMERATOR_HZ as u128;
        let c = clocks as u128;
        assert(c * 44 <= 0xffff_ffff_ffff_ffff * 44) by (nonlinear_arith)
            requires
                c <= 0xffff_ffff_ffff_ffff,
        ;
        assert(c * 44 * 1_000_000_000 <= 0xffff_ffff_ffff_ffff * 44 * 1_000_000_000) by (
        nonlinear_arith)
            requires
                c <= 0xffff_ffff_ffff_ffff,
        ;
        let scaled_clocks = c * NTSC_PPU_CLOCK_DENOMINATOR as u128 * 1_000_000_000u128;
        assert(scaled_clocks == clocks as int * nanos_scale()) by (nonlinear_arith)
            requires
                scaled_clocks == clocks as int * 44 * 1_000_000_000,
                nanos_scale() == 44 * 1_000_000_000,
        ;
        let start = self.deadline_nanos;
        let numerator = scaled_clocks + self.remainder as u128;
        let nanos = numerator / master;
        let remainder = numerator % master;
        proof {
            lemma_fundamental_div_mod(numerator as int, master as int);
            assert(nanos <= scaled_clocks / master + 1) by (nonlinear_arith)
                requires
                    numerator == scaled_clocks + self.remainder,
                    self.remainder < master,
                    nanos == numerator / master,
                    master > 0,
            ;
        }
        self.remainder = remainder as u64;
        self.deadline_nanos = self.deadline_nanos + nanos;
        let end = self.deadline_nanos;
        assert(end as int * master as int + remainder as int == start as int * master as int
            + numerator as int) by (nonlinear_arith)
            requires
                end == start + nanos,
                numerator == nanos * master + remainder,
        ;
    }

    /// Restarts pacing from `now`, dropping any carried fraction.
    pub fn rebase(&mut self, now: u128)
        ensures
            final(self).wf(),
            final(self).deadline_spec() == now,
            final(self).carried() == 0,
    {
        self.deadline_nanos = now;
        self.remainder = 0;
    }
}

/// A pacer is determined by its scaled elapsed time: two well-formed pacers
/// with the same scaled time have the same deadline and the same carry.
pub proof fn lemma_pacer_determined_by_scaled(p: RationalPacer, q: RationalPacer)
    requires
        p.wf(),
        q.wf(),
        p.scaled() == q.scaled(),
    ensures
        p.deadline_spec() == q.deadline_spec(),
        p.carried() == q.carried(),
{
    let m = NTSC_MASTER_CLOCK_NUMERATOR_HZ as int;
    lemma_fundamental_div_mod_converse(p.scaled(), m, p.deadline_spec() as int, p.carried() as int);
    lemma_fundamental_div_mod_converse(q.scaled(), m, q.deadline_spec() as int, q.carried() as int);
}

/// Advancing by `a` clocks and then by `b` clocks leaves the pacer exactly
/// where advancing by `a + b` clocks at once does: no rounding accumulates
/// from one frame to the next.
pub proof fn lemma_pacer_advances_compose(
    start: RationalPacer,
    after_a: RationalPacer,
    after_ab: RationalPacer,
    at_once: RationalPacer,
    a: nat,
    b: nat,
)
    requires
        start.wf(),
        after_a.wf(),
        after_ab.wf(),
        at_once.wf(),
        after_a.scaled() == start.scaled() + a * nanos_scale(),
        after_ab.scaled() == after_a.scaled() + b * nanos_scale(),
        at_once.scaled() == start.scaled() + (a + b) * nanos_scale(),
    ensures
        after_ab.deadline_spec() == at_once.deadline_spec(),
        after_ab.carried() == at_once.carried(),
{
    assert((a + b) * nanos_scale() == a * nanos_scale() + b * nanos_scale()) by (nonlinear_arith);
    lemma_pacer_determined_by_scaled(after_ab, at_once);
}

/// Total of a run of clock counts.
pub open spec fn clock_total(clocks: Seq<u64>) -> nat
    decreases clocks.len(),
{
    if clocks.len() == 0 {
        0
    } else {
        clock_total(clocks.drop_last()) + clocks.last() as nat
    }
}

/// Pacing never drifts over any run of frames: `pacers` are a pacer made by
/// `RationalPacer::new(origin)` followed by its state after each advance by
/// the clock counts `clocks`, in order. The last deadline is `origin` plus the
/// exact duration of all the clocks together, rounded down once.
pub proof fn lemma_pacer_run_is_exact(pacers: Seq<RationalPacer>, clocks: Seq<u64>, origin: u128)
    requires
        pacers.len() == clocks.len() + 1,
        pacers[0].deadline_spec() == origin,
        pacers[0].carried() == 0,
        forall|i: int| 0 <= i < pacers.len() ==> (#[trigger] pacers[i]).wf(),
        forall|i: int|
            0 <= i < clocks.len() ==> (#[trigger] pacers[i + 1]).scaled() == pacers[i].scaled()
                + clocks[i] * nanos_scale(),
    ensures
        pacers.last().deadline_spec() == origin + clock_total(clocks) * nanos_scale()
            / NTSC_MASTER_CLOCK_NUMERATOR_HZ as int,
        pacers.last().carried() == clock_total(clocks) * nanos_scale()
            % NTSC_MASTER_CLOCK_NUMERATOR_HZ as int,
{
    lemma_pacer_run_scaled(pacers, clocks, origin);
    lemma_pacer_is_exact(pacers.last(), origin, clock_total(clocks));
}

proof fn lemma_pacer_run_scaled(pacers: Seq<RationalPacer>, clocks: Seq<u64>, origin: u128)
    requires
        pacers.len() == clocks.len() + 1,
        pacers[0].deadline_spec() == origin,
        pacers[0].carried() == 0,
        forall|i: int|
            0 <= i < clocks.len() ==> (#[trigger] pacers[i + 1]).scaled() == pacers[i].scaled()
                + clocks[i] * nanos_scale(),
    ensures
        pacers.last().scaled() == origin as int * NTSC_MASTER_CLOCK_NUMERATOR_HZ as int
            + clock_total(clocks) * nanos_scale(),
    decreases clocks.len(),
{
    if clocks.len() > 0 {
        let n = clocks.len();
        let shorter = pacers.drop_last();
        assert forall|i: int| 0 <= i < clocks.drop_last().len() implies (#[trigger] shorter[i
            + 1]).scaled() == shorter[i].scaled() + clocks.drop_last()[i] * nanos_scale() by {
            assert(shorter[i + 1] == pacers[i + 1]);
            assert(shorter[i] == pacers[i]);
        }
        lemma_pacer_run_scaled(shorter, clocks.drop_last(), origin);
        assert(shorter.last() == pacers[n - 1]);
        assert(clocks.last() == clocks[n - 1]);
        assert(pacers[n as int] == pacers.last());
        assert(pacers[(n - 1) as int + 1].scaled() == pacers[n - 1].scaled() + clocks[n - 1]
            * nanos_scale());
        assert(clock_total(clocks) * nanos_scale() == clock_total(clocks.drop_last()) * nanos_scale()
            + clocks.last() * nanos_scale()) by (nonlinear_arith)
            requires
                clock_total(clocks) == clock_total(clocks.drop_last()) + clocks.last(),
        ;
    } else {
        assert(pacers.last() == pacers[0]);
        assert(clock_total(clocks) == 0);
        assert(0 * nanos_scale() == 0);
    }
}

/// Pacing is exact: after advancing a pacer that started at `origin` by
/// PPU clocks totalling `total`, its deadline is `origin` plus the exact
/// duration of `total` clocks rounded down to a nanosecond, and the carry is
/// what the rounding dropped.
pub proof fn lemma_pacer_is_exact(pacer: RationalPacer, origin: u128, total: nat)
    requires
        pacer.wf(),
        pacer.scaled() == origin as int * NTSC_MASTER_CLOCK_NUMERATOR_HZ as int + total
            * nanos_scale(),
    ensures
        pacer.deadline_spec() == origin + total * nanos_scale() / NTSC_MASTER_CLOCK_NUMERATOR_HZ as int,
        pacer.carried() == total * nanos_scale() % NTSC_MASTER_CLOCK_NUMERATOR_HZ as int,
{
    let m = NTSC_MASTER_CLOCK_NUMERATOR_HZ as int;
    let k = total * nanos_scale();
    let q = pacer.deadline_spec() - origin;
    assert(k == q * m + pacer.carried()) by (nonlinear_arith)
        requires
            pacer.deadline_spec() * m + pacer.carried() == origin * m + k,
            q == pacer.deadline_spec() - origin,
    ;
    lemma_fundamental_div_mod_converse(k, m, q, pacer.carried() as int);
}


/// The input that the worker applied to a frame, with when it was observed,
/// sampled, completed and published.
#[derive(Debug, Clone, Copy, PartialEq, Eq)]
pub struct AppliedInputTelemetry {
    pub sequence_id: u64,
    pub frame_id: u64,
    pub controllers: [ControllerButtons; 2],
    pub observed_at: u128,
    pub sampled_at: u128,
    pub frame_completed_at: u128,
    pub frame_published_at: u128,
}

/// Everything the runtime reports about video, audio and input.
#[derive(Debug, Clone, Copy, PartialEq, Eq)]
pub struct RealtimeTelemetry {
    pub emulated_frames: u64,
    pub produced_video_frames: u64,
    pub consumed_video_frames: u64,
    pub submitted_video_frames: u64,
    pub displayed_loop_iterations: u64,
    pub coalesced_video_frames: u64,
    pub duplicate_video_polls: u64,
    pub wake_requests: u64,
    pub coalesced_wake_requests: u64,
    pub catch_up_rebases: u64,
    pub produced_audio_samples: u64,
    pub audio_available: bool,
    pub audio_active: bool,
    pub audio_primed: bool,
    pub audio_muted: bool,
    pub audio_capacity_samples: usize,
    pub audio_target_depth_samples: usize,
    pub audio_queue_depth_samples: usize,
    pub audio_high_water_samples: usize,
    pub consumed_audio_samples: u64,
    pub audio_underrun_samples: u64,
    pub audio_overflow_samples: u64,
    pub audio_callback_count: u64,
    pub audio_device_errors: u64,
    pub last_produced_frame_id: u64,
    pub last_submitted_frame_id: u64,
    pub latest_input: Option<AppliedInputTelemetry>,
}

/// Message recorded when a frame reports no elapsed PPU clocks.
pub const ZERO_CLOCK_FRAME_ERROR: &'static str = "NES worker produced a frame with zero PPU clocks";

/// Message recorded when the worker panicked while shutting down.
pub const WORKER_PANIC_ERROR: &'static str = "NES realtime worker panicked during shutdown";

/// The state shared by the realtime worker and the host: the worker's mode,
/// the input mailbox, the video handoff, the optional audio endpoint, the
/// first fatal error and the input last applied to a frame.
pub struct RealtimeRuntime {
    mode: WorkerMode,
    input: InputMailbox,
    video: VideoHandoff,
    audio: Option<RealtimeAudioEndpoint>,
    runtime_error: Option<String>,
    latest_input: Option<AppliedInputTelemetry>,
    worker_attached: bool,
}

/// The view of an optional error message.
pub open spec fn error_view(error: Option<String>) -> Option<Seq<char>> {
    match error {
        Some(text) => Some(text@),
        None => None,
    }
}

/// The view of an optional audio endpoint.
pub open spec fn audio_view(audio: Option<RealtimeAudioEndpoint>) -> Option<AudioShared> {
    match audio {
        Some(endpoint) => Some(endpoint.shared_spec()),
        None => None,
    }
}

/// What pausing (`paused`) or resuming a stream does to it: the queue is
/// discarded, the stream must prime again, and it accepts samples only when
/// resumed; volume, mute and counters stay.
pub open spec fn stream_paused(before: AudioShared, after: AudioShared, paused: bool) -> bool {
    &&& after.wf()
    &&& after.is_active() == !paused
    &&& !after.is_primed()
    &&& after.ring_spec().pending().len() == 0
    &&& after.ring_spec().capacity_spec() == before.ring_spec().capacity_spec()
    &&& after.ring_spec().write_position() == before.ring_spec().write_position()
    &&& after.is_muted() == before.is_muted()
    &&& after.volume() == before.volume()
    &&& after.target_depth() == before.target_depth()
    &&& after.high_water() == before.high_water()
    &&& after.consumed() == before.consumed()
    &&& after.underruns() == before.underruns()
    &&& after.overflows() == before.overflows()
    &&& after.callbacks() == before.callbacks()
    &&& after.errors() == before.errors()
}

/// The optional stream after pausing or resuming it.
pub open spec fn audio_paused(
    before: Option<AudioShared>,
    after: Option<AudioShared>,
    paused: bool,
) -> bool {
    match before {
        None => after is None,
        Some(b) => after matches Some(a) && stream_paused(b, a, paused),
    }
}

impl RealtimeRuntime {
    pub closed spec fn mode_spec(&self) -> WorkerMode {
        self.mode
    }

    pub closed spec fn input_spec(&self) -> InputMailbox {
        self.input
    }

    pub closed spec fn video_spec(&self) -> VideoHandoff {
        self.video
    }

    pub closed spec fn audio_spec(&self) -> Option<AudioShared> {
        audio_view(self.audio)
    }

    pub closed spec fn error_spec(&self) -> Option<Seq<char>> {
        error_view(self.runtime_error)
    }

    pub closed spec fn latest_input_spec(&self) -> Option<AppliedInputTelemetry> {
        self.latest_input
    }

    /// A worker is attached and has not been stopped yet.
    pub closed spec fn attached(&self) -> bool {
        self.worker_attached
    }

    /// The handoff and the audio endpoint are well formed.
    pub open spec fn wf(&self) -> bool {
        &&& self.video_spec().wf()
        &&& (self.audio_spec() matches Some(a) ==> a.wf())
    }

    /// Everything but the mode, the input, the audio stream and the error is
    /// as in `other`.
    pub open spec fn same_frames(&self, other: &Self) -> bool {
        &&& self.video_spec()@ == other.video_spec()@
        &&& self.video_spec().descriptor_spec() == other.video_spec().descriptor_spec()
        &&& self.latest_input_spec() == other.latest_input_spec()
    }

    /// A paused runtime whose handoff already holds the initial frame as
    /// generation 1. An initial frame that is not well laid out is refused.
    pub fn new(initial: &NativeVideoFrame, audio: Option<RealtimeAudioEndpoint>) -> (r: Result<
        Self,
        RealtimeStartError,
    >)
        requires
            audio matches Some(a) ==> a.wf(),
        ensures
            !valid_layout(*initial) <==> r == Err::<Self, _>(RealtimeStartError::InvalidInitialVideo),
            valid_layout(*initial) ==> r is Ok,
            r matches Ok(runtime) ==> {
                &&& runtime.wf()
                &&& runtime.mode_spec() == WorkerMode::Paused
                &&& runtime.attached()
                &&& runtime.input_spec().latest_spec() == (InputRequest {
                    sequence_id: 0,
                    controllers: [0u8, 0u8],
                    observed_at: 0,
                })
                &&& runtime.input_spec().upcoming() == 1
                &&& runtime.audio_spec() == audio_view(audio)
                &&& runtime.error_spec() is None
                &&& runtime.latest_input_spec() is None
                &&& runtime.video_spec().descriptor_spec().describes(*initial)
                &&& runtime.video_spec()@.latest == 1
                &&& runtime.video_spec()@.upcoming == 2
                &&& runtime.video_spec()@.consumed == 0
                &&& runtime.video_spec()@.latest_pixels == initial.pixels@
                &&& runtime.video_spec()@.latest_metadata == initial_metadata(*initial)
                &&& !runtime.video_spec()@.waker_installed
                &&& runtime.video_spec()@.counters == (TelemetryCounters {
                    produced_video_frames: 1,
                    last_produced_frame_id: initial.frame_id,
                    ..zero_counters()
                })
            },
    {
        let descriptor = match NativeVideoDescriptor::from_frame(initial) {
            Ok(descriptor) => descriptor,
            Err(error) => return Err(error),
        };
        let mut video = VideoHandoff::new(descriptor, zero_telemetry());
        let (emulated_ticks, input_sequence_id) = match initial.timing {
            Some(timing) => (timing.emulated_ticks, timing.input_sequence_id),
            None => (0, 0),
        };
        let metadata = RealtimeVideoMetadata {
            generation: 0,
            frame_id: initial.frame_id,
            emulated_ticks,
            input_sequence_id,
            input_observed_at: 0,
            worker_sampled_at: 0,
            frame_completed_at: 0,
            frame_published_at: 0,
        };
        match video.publish(initial, metadata) {
            Ok(_) => {},
            Err(_) => return Err(RealtimeStartError::InvalidInitialVideo),
        }
        Ok(RealtimeRuntime {
            mode: WorkerMode::Paused,
            input: InputMailbox::new(),
            video,
            audio,
            runtime_error: None,
            latest_input: None,
            worker_attached: true,
        })
    }
}

/// Counters that are all zero.
pub open spec fn zero_counters() -> TelemetryCounters {
    TelemetryCounters {
        emulated_frames: 0,
        produced_video_frames: 0,
        consumed_video_frames: 0,
        submitted_video_frames: 0,
        displayed_loop_iterations: 0,
        coalesced_video_frames: 0,
        duplicate_video_polls: 0,
        wake_requests: 0,
        coalesced_wake_requests: 0,
        catch_up_rebases: 0,
        produced_audio_samples: 0,
        last_produced_frame_id: 0,
        last_submitted_frame_id: 0,
    }
}

fn zero_telemetry() -> (c: TelemetryCounters)
    ensures
        c == zero_counters(),
{
    TelemetryCounters {
        emulated_frames: 0,
        produced_video_frames: 0,
        consumed_video_frames: 0,
        submitted_video_frames: 0,
        displayed_loop_iterations: 0,
        coalesced_video_frames: 0,
        duplicate_video_polls: 0,
        wake_requests: 0,
        coalesced_wake_requests: 0,
        catch_up_rebases: 0,
        produced_audio_samples: 0,
        last_produced_frame_id: 0,
        last_submitted_frame_id: 0,
    }
}

/// Metadata of the initial frame as generation 1: its id, and the emulated
/// ticks and input sequence of its timing (zero without timing).
pub open spec fn initial_metadata(frame: NativeVideoFrame) -> RealtimeVideoMetadata {
    RealtimeVideoMetadata {
        generation: 1,
        frame_id: frame.frame_id,
        emulated_ticks: match frame.timing {
            Some(t) => t.emulated_ticks,
            None => 0,
        },
        input_sequence_id: match frame.timing {
            Some(t) => t.input_sequence_id,
            None => 0,
        },
        input_observed_at: 0,
        worker_sampled_at: 0,
        frame_completed_at: 0,
        frame_published_at: 0,
    }
}


impl RealtimeRuntime {
    /// The worker's mode.
    pub fn mode(&self) -> (mode: WorkerMode)
        ensures
            mode == self.mode_spec(),
    {
        self.mode
    }

    /// Publishes the host's controller state; returns its sequence id.
    pub fn publish_input(&mut self, controllers: [ControllerButtons; 2], observed_at: u128) -> (sequence_id: u64)
        ensures
            sequence_id == old(self).input_spec().upcoming(),
            final(self).input_spec().upcoming() == old(self).input_spec().upcoming().wrapping_add(1),
            final(self).input_spec().latest_spec() == (InputRequest { sequence_id, controllers, observed_at }),
            final(self).mode_spec() == old(self).mode_spec(),
            final(self).audio_spec() == old(self).audio_spec(),
            final(self).error_spec() == old(self).error_spec(),
            final(self).attached() == old(self).attached(),
            final(self).same_frames(old(self)),
            final(self).wf() == old(self).wf(),
    {
        self.input.publish(controllers, observed_at)
    }

    /// Pauses or resumes the worker. Nothing happens when the worker is
    /// already in that mode, nor on a resume after a fatal error. Otherwise
    /// neutral input is published first, so that no held button survives the
    /// change, and the audio stream is paused or resumed with the worker.
    pub fn set_paused(&mut self, paused: bool, now: u128)
        requires
            old(self).wf(),
        ensures
            final(self).wf(),
            final(self).attached() == old(self).attached(),
            final(self).error_spec() == old(self).error_spec(),
            final(self).same_frames(old(self)),
            ({
                let desired = if paused { WorkerMode::Paused } else { WorkerMode::Running };
                if old(self).mode_spec() == desired || (!paused && old(self).error_spec() is Some) {
                    &&& final(self).mode_spec() == old(self).mode_spec()
                    &&& final(self).input_spec() == old(self).input_spec()
                    &&& final(self).audio_spec() == old(self).audio_spec()
                } else {
                    &&& final(self).mode_spec() == desired
                    &&& final(self).input_spec().latest_spec() == (InputRequest {
                        sequence_id: old(self).input_spec().upcoming(),
                        controllers: [0u8, 0u8],
                        observed_at: now,
                    })
                    &&& final(self).input_spec().upcoming() == old(self).input_spec().upcoming().wrapping_add(1)
                    &&& audio_paused(old(self).audio_spec(), final(self).audio_spec(), paused)
                }
            }),
    {
        let desired = if paused { WorkerMode::Paused } else { WorkerMode::Running };
        if self.mode == desired {
            return;
        }
        if !paused && self.runtime_error.is_some() {
            return;
        }
        self.input.neutralize(now);
        self.mode = desired;
        self.set_audio_paused(paused);
    }

    fn set_audio_paused(&mut self, paused: bool)
        requires
            old(self).wf(),
        ensures
            final(self).wf(),
            audio_paused(old(self).audio_spec(), final(self).audio_spec(), paused),
            final(self).mode_spec() == old(self).mode_spec(),
            final(self).input_spec() == old(self).input_spec(),
            final(self).error_spec() == old(self).error_spec(),
            final(self).attached() == old(self).attached(),
            final(self).same_frames(old(self)),
    {
        match &mut self.audio {
            Some(audio) => audio.set_paused(paused),
            None => {},
        }
    }

    /// Records a fatal error, replacing any earlier one, and pauses the worker
    /// and its audio.
    pub fn pause_after_error(&mut self, error: String)
        requires
            old(self).wf(),
        ensures
            final(self).wf(),
            final(self).error_spec() == Some(error@),
            final(self).mode_spec() == WorkerMode::Paused,
            final(self).input_spec() == old(self).input_spec(),
            final(self).attached() == old(self).attached(),
            final(self).same_frames(old(self)),
            audio_paused(old(self).audio_spec(), final(self).audio_spec(), true),
    {
        self.runtime_error = Some(error);
        self.mode = WorkerMode::Paused;
        self.set_audio_paused(true);
    }

    /// Stops the worker: neutral input, the stopped mode and paused audio.
    /// Returns whether a worker was attached; only the first call stops one.
    pub fn stop_worker(&mut self, now: u128) -> (was_attached: bool)
        requires
            old(self).wf(),
        ensures
            final(self).wf(),
            was_attached == old(self).attached(),
            !final(self).attached(),
            final(self).error_spec() == old(self).error_spec(),
            final(self).same_frames(old(self)),
            !was_attached ==> {
                &&& final(self).mode_spec() == old(self).mode_spec()
                &&& final(self).input_spec() == old(self).input_spec()
                &&& final(self).audio_spec() == old(self).audio_spec()
            },
            was_attached ==> {
                &&& final(self).mode_spec() == WorkerMode::Stopped
                &&& final(self).input_spec().latest_spec() == (InputRequest {
                    sequence_id: old(self).input_spec().upcoming(),
                    controllers: [0u8, 0u8],
                    observed_at: now,
                })
                &&& final(self).input_spec().upcoming() == old(self).input_spec().upcoming().wrapping_add(1)
                &&& audio_paused(old(self).audio_spec(), final(self).audio_spec(), true)
            },
    {
        if !self.worker_attached {
            return false;
        }
        self.input.neutralize(now);
        self.mode = WorkerMode::Stopped;
        self.set_audio_paused(true);
        self.worker_attached = false;
        true
    }

    /// Records that the stopped worker panicked instead of finishing.
    pub fn record_worker_panic(&mut self)
        ensures
            final(self).error_spec() == Some(WORKER_PANIC_ERROR@),
            final(self).mode_spec() == old(self).mode_spec(),
            final(self).input_spec() == old(self).input_spec(),
            final(self).audio_spec() == old(self).audio_spec(),
            final(self).attached() == old(self).attached(),
            final(self).same_frames(old(self)),
            final(self).wf() == old(self).wf(),
    {
        self.runtime_error = Some(crate::text::owned(WORKER_PANIC_ERROR));
    }

    /// The recorded fatal error, if any.
    pub fn runtime_error(&self) -> (error: Option<String>)
        ensures
            error_view(error) == self.error_spec(),
    {
        match &self.runtime_error {
            Some(text) => Some(text.clone()),
            None => None,
        }
    }

    /// Mutes or unmutes the audio stream, if there is one.
    pub fn set_audio_muted(&mut self, muted: bool)
        requires
            old(self).wf(),
        ensures
            final(self).wf(),
            final(self).mode_spec() == old(self).mode_spec(),
            final(self).input_spec() == old(self).input_spec(),
            final(self).error_spec() == old(self).error_spec(),
            final(self).attached() == old(self).attached(),
            final(self).same_frames(old(self)),
            match old(self).audio_spec() {
                None => final(self).audio_spec() is None,
                Some(before) => final(self).audio_spec() matches Some(after) && {
                    &&& after.is_muted() == muted
                    &&& after.volume() == before.volume()
                    &&& crate::audio::same_stream(before, after)
                    &&& crate::audio::same_counters(before, after)
                },
            },
    {
        match &mut self.audio {
            Some(audio) => audio.set_muted(muted),
            None => {},
        }
    }

    /// Sets the audio gain in Q15 fixed point (capped at unity), if there is
    /// a stream.
    pub fn set_audio_volume_q15(&mut self, volume_q15: u32)
        requires
            old(self).wf(),
        ensures
            final(self).wf(),
            final(self).mode_spec() == old(self).mode_spec(),
            final(self).input_spec() == old(self).input_spec(),
            final(self).error_spec() == old(self).error_spec(),
            final(self).attached() == old(self).attached(),
            final(self).same_frames(old(self)),
            match old(self).audio_spec() {
                None => final(self).audio_spec() is None,
                Some(before) => final(self).audio_spec() matches Some(after) && {
                    &&& after.volume() == if volume_q15 > crate::audio::FULL_VOLUME_Q15 {
                        crate::audio::FULL_VOLUME_Q15
                    } else {
                        volume_q15
                    }
                    &&& after.is_muted() == before.is_muted()
                    &&& crate::audio::same_stream(before, after)
                    &&& crate::audio::same_counters(before, after)
                },
            },
    {
        match &mut self.audio {
            Some(audio) => audio.set_volume_q15(volume_q15),
            None => {},
        }
    }
}


/// When the worker sampled, finished and published one frame, in nanoseconds
/// since the runtime started.
#[derive(Debug, Clone, Copy, PartialEq, Eq)]
pub struct FrameTimes {
    pub sampled_at: u128,
    pub completed_at: u128,
    pub published_at: u128,
}

/// The optional stream after offering it `samples`.
pub open spec fn audio_pushed(
    before: Option<AudioShared>,
    after: Option<AudioShared>,
    samples: Seq<i16>,
) -> bool {
    match before {
        None => after is None,
        Some(b) => after matches Some(a) && a.wf() && samples_pushed(b, a, samples),
    }
}

/// The metadata the worker publishes with a frame made from `input`.
pub open spec fn frame_metadata(
    frame: NativeVideoFrame,
    input: InputRequest,
    times: FrameTimes,
) -> RealtimeVideoMetadata {
    RealtimeVideoMetadata {
        generation: 0,
        frame_id: frame.frame_id,
        emulated_ticks: match frame.timing {
            Some(t) => t.emulated_ticks,
            None => 0,
        },
        input_sequence_id: input.sequence_id,
        input_observed_at: input.observed_at,
        worker_sampled_at: times.sampled_at,
        frame_completed_at: times.completed_at,
        frame_published_at: times.published_at,
    }
}

/// The handoff view with one more emulated frame counted.
pub open spec fn with_emulated_frame(view: HandoffView) -> HandoffView {
    HandoffView {
        counters: TelemetryCounters {
            emulated_frames: view.counters.emulated_frames.wrapping_add(1),
            ..view.counters
        },
        ..view
    }
}

/// The handoff view with `count` more produced audio samples counted.
pub open spec fn with_produced_audio(view: HandoffView, count: u64) -> HandoffView {
    HandoffView {
        counters: TelemetryCounters {
            produced_audio_samples: view.counters.produced_audio_samples.wrapping_add(count),
            ..view.counters
        },
        ..view
    }
}

impl RealtimeRuntime {
    /// The input the worker applies to its next frame.
    pub fn sample_input(&self) -> (input: InputRequest)
        ensures
            input == self.input_spec().latest_spec(),
    {
        self.input.latest()
    }

    /// Whether the worker emulates another frame now: it is running, the
    /// deadline has passed, and the catch-up budget is not spent.
    pub fn frame_due(&self, catch_up_frames: usize, now: u128, pacer: &RationalPacer) -> (due: bool)
        ensures
            due == (self.mode_spec() == WorkerMode::Running && now >= pacer.deadline_spec()
                && catch_up_frames < MAX_CATCH_UP_FRAMES),
    {
        self.mode == WorkerMode::Running && now >= pacer.deadline() && catch_up_frames
            < MAX_CATCH_UP_FRAMES
    }

    /// Books one frame that the core produced from `input`: counts it, and
    /// unless the worker was paused or stopped meanwhile, feeds its audio,
    /// publishes its video, records the applied input and moves the pacer by
    /// the frame's PPU clocks. A frame the handoff refuses, or one without
    /// clocks, is a fatal error that pauses the worker. Returns whether the
    /// worker may go on catching up.
    pub fn complete_frame(
        &mut self,
        input: InputRequest,
        times: FrameTimes,
        frame: &NativeVideoFrame,
        audio_samples: &[i16],
        frame_ppu_clocks: u64,
        pacer: &mut RationalPacer,
    ) -> (go_on: bool)
        requires
            old(self).wf(),
            old(self).video_spec()@.upcoming < u64::MAX,
            old(self).audio_spec() matches Some(a) ==> a.ring_spec().write_position()
                + audio_samples.len() <= u64::MAX,
            old(pacer).wf(),
            old(pacer).deadline_spec() <= u64::MAX as u128,
        ensures
            final(self).wf(),
            final(self).input_spec() == old(self).input_spec(),
            final(self).attached() == old(self).attached(),
            final(self).video_spec().descriptor_spec() == old(self).video_spec().descriptor_spec(),
            ({
                let counted = with_emulated_frame(old(self).video_spec()@);
                let metadata = frame_metadata(*frame, input, times);
                let applied = AppliedInputTelemetry {
                    sequence_id: input.sequence_id,
                    frame_id: frame.frame_id,
                    controllers: input.controllers,
                    observed_at: input.observed_at,
                    sampled_at: times.sampled_at,
                    frame_completed_at: times.completed_at,
                    frame_published_at: times.published_at,
                };
                if old(self).mode_spec() != WorkerMode::Running {
                    &&& !go_on
                    &&& final(self).video_spec()@ == counted
                    &&& final(self).mode_spec() == old(self).mode_spec()
                    &&& final(self).audio_spec() == old(self).audio_spec()
                    &&& final(self).error_spec() == old(self).error_spec()
                    &&& final(self).latest_input_spec() == old(self).latest_input_spec()
                    &&& *final(pacer) == *old(pacer)
                } else if !old(self).video_spec().descriptor_spec().describes(*frame) {
                    let error = if valid_layout(*frame) {
                        VideoHandoffError::FormatChanged
                    } else {
                        VideoHandoffError::InvalidFrame
                    };
                    &&& !go_on
                    &&& final(self).video_spec()@ == counted
                    &&& final(self).mode_spec() == WorkerMode::Paused
                    &&& final(self).error_spec() == Some(handoff_error_text(error))
                    &&& exists|fed: Option<AudioShared>|
                        #[trigger] audio_pushed(old(self).audio_spec(), fed, audio_samples@)
                            && audio_paused(fed, final(self).audio_spec(), true)
                    &&& final(self).latest_input_spec() == old(self).latest_input_spec()
                    &&& *final(pacer) == *old(pacer)
                } else {
                    &&& final(self).video_spec()@ == with_produced_audio(
                        published_view(counted, *frame, metadata),
                        audio_samples.len() as u64,
                    )
                    &&& final(self).latest_input_spec() == Some(applied)
                    &&& if frame_ppu_clocks == 0 {
                        &&& !go_on
                        &&& final(self).mode_spec() == WorkerMode::Paused
                        &&& final(self).error_spec() == Some(ZERO_CLOCK_FRAME_ERROR@)
                        &&& exists|fed: Option<AudioShared>|
                            #[trigger] audio_pushed(old(self).audio_spec(), fed, audio_samples@)
                                && audio_paused(fed, final(self).audio_spec(), true)
                        &&& *final(pacer) == *old(pacer)
                    } else {
                        &&& go_on
                        &&& final(self).mode_spec() == WorkerMode::Running
                        &&& final(self).error_spec() == old(self).error_spec()
                        &&& audio_pushed(old(self).audio_spec(), final(self).audio_spec(), audio_samples@)
                        &&& final(pacer).wf()
                        &&& final(pacer).scaled() == old(pacer).scaled() + frame_ppu_clocks as int
                            * nanos_scale()
                    }
                }
            }),
    {
        self.video.record_emulated_frame();
        if self.mode != WorkerMode::Running {
            return false;
        }
        match &mut self.audio {
            Some(audio) => audio.push_samples(audio_samples),
            None => {},
        }
        let ghost fed = audio_view(self.audio);
        let (emulated_ticks, sequence_id) = (
            match frame.timing {
                Some(timing) => timing.emulated_ticks,
                None => 0,
            },
            input.sequence_id,
        );
        let metadata = RealtimeVideoMetadata {
            generation: 0,
            frame_id: frame.frame_id,
            emulated_ticks,
            input_sequence_id: sequence_id,
            input_observed_at: input.observed_at,
            worker_sampled_at: times.sampled_at,
            frame_completed_at: times.completed_at,
            frame_published_at: times.published_at,
        };
        match self.video.publish(frame, metadata) {
            Ok(_) => {},
            Err(error) => {
                let message = handoff_error_message(&error);
                self.pause_after_error(message);
                assert(audio_pushed(old(self).audio_spec(), fed, audio_samples@));
                return false;
            },
        }
        self.video.record_produced_audio(audio_samples.len() as u64);
        self.latest_input = Some(
            AppliedInputTelemetry {
                sequence_id: input.sequence_id,
                frame_id: frame.frame_id,
                controllers: input.controllers,
                observed_at: input.observed_at,
                sampled_at: times.sampled_at,
                frame_completed_at: times.completed_at,
                frame_published_at: times.published_at,
            },
        );
        if frame_ppu_clocks == 0 {
            self.pause_after_error(crate::text::owned(ZERO_CLOCK_FRAME_ERROR));
            assert(audio_pushed(old(self).audio_spec(), fed, audio_samples@));
            return false;
        }
        proof {
            assert(frame_ppu_clocks as int * nanos_scale() / NTSC_MASTER_CLOCK_NUMERATOR_HZ as int
                <= 0xffff_ffff_ffff_ffff * 200) by (nonlinear_arith)
                requires
                    frame_ppu_clocks <= 0xffff_ffff_ffff_ffff,
                    nanos_scale() == 44_000_000_000,
            ;
        }
        pacer.advance_ppu_clocks(frame_ppu_clocks);
        true
    }

    /// After a burst of frames: when the whole catch-up budget was spent and
    /// the deadline has still passed, pacing restarts from `now` and the
    /// rebase is counted. Returns whether it rebased.
    pub fn finish_catch_up(&mut self, catch_up_frames: usize, now: u128, pacer: &mut RationalPacer) -> (rebased: bool)
        requires
            old(self).wf(),
        ensures
            final(self).wf(),
            rebased == (catch_up_frames == MAX_CATCH_UP_FRAMES && now >= old(pacer).deadline_spec()),
            final(self).mode_spec() == old(self).mode_spec(),
            final(self).input_spec() == old(self).input_spec(),
            final(self).audio_spec() == old(self).audio_spec(),
            final(self).error_spec() == old(self).error_spec(),
            final(self).attached() == old(self).attached(),
            final(self).latest_input_spec() == old(self).latest_input_spec(),
            final(self).video_spec().descriptor_spec() == old(self).video_spec().descriptor_spec(),
            rebased ==> {
                &&& final(pacer).wf()
                &&& final(pacer).deadline_spec() == now
                &&& final(pacer).carried() == 0
                &&& final(self).video_spec()@ == (HandoffView {
                    counters: TelemetryCounters {
                        catch_up_rebases: old(self).video_spec()@.counters.catch_up_rebases.wrapping_add(1),
                        ..old(self).video_spec()@.counters
                    },
                    ..old(self).video_spec()@
                })
            },
            !rebased ==> *final(pacer) == *old(pacer) && final(self).video_spec()@ == old(self).video_spec()@,
    {
        if catch_up_frames == MAX_CATCH_UP_FRAMES && now >= pacer.deadline() {
            pacer.rebase(now);
            self.video.record_catch_up_rebase();
            true
        } else {
            false
        }
    }
}


/// The report of a runtime with handoff counters `counters`, optional audio
/// stream `audio` and last applied input `latest_input`. Without a stream the
/// audio fields are false and zero.
pub open spec fn telemetry_of(
    counters: TelemetryCounters,
    audio: Option<AudioShared>,
    latest_input: Option<AppliedInputTelemetry>,
) -> RealtimeTelemetry {
    RealtimeTelemetry {
        emulated_frames: counters.emulated_frames,
        produced_video_frames: counters.produced_video_frames,
        consumed_video_frames: counters.consumed_video_frames,
        submitted_video_frames: counters.submitted_video_frames,
        displayed_loop_iterations: counters.displayed_loop_iterations,
        coalesced_video_frames: counters.coalesced_video_frames,
        duplicate_video_polls: counters.duplicate_video_polls,
        wake_requests: counters.wake_requests,
        coalesced_wake_requests: counters.coalesced_wake_requests,
        catch_up_rebases: counters.catch_up_rebases,
        produced_audio_samples: counters.produced_audio_samples,
        audio_available: audio is Some,
        audio_active: match audio {
            Some(a) => a.is_active(),
            None => false,
        },
        audio_primed: match audio {
            Some(a) => a.is_primed(),
            None => false,
        },
        audio_muted: match audio {
            Some(a) => a.is_muted(),
            None => false,
        },
        audio_capacity_samples: match audio {
            Some(a) => a.ring_spec().capacity_spec() as usize,
            None => 0,
        },
        audio_target_depth_samples: match audio {
            Some(a) => a.target_depth() as usize,
            None => 0,
        },
        audio_queue_depth_samples: match audio {
            Some(a) => a.ring_spec().pending().len() as usize,
            None => 0,
        },
        audio_high_water_samples: match audio {
            Some(a) => a.high_water() as usize,
            None => 0,
        },
        consumed_audio_samples: match audio {
            Some(a) => a.consumed(),
            None => 0,
        },
        audio_underrun_samples: match audio {
            Some(a) => a.underruns(),
            None => 0,
        },
        audio_overflow_samples: match audio {
            Some(a) => a.overflows(),
            None => 0,
        },
        audio_callback_count: match audio {
            Some(a) => a.callbacks(),
            None => 0,
        },
        audio_device_errors: match audio {
            Some(a) => a.errors(),
            None => 0,
        },
        last_produced_frame_id: counters.last_produced_frame_id,
        last_submitted_frame_id: counters.last_submitted_frame_id,
        latest_input,
    }
}

impl RealtimeRuntime {
    /// The handoff counters merged with the audio stream's state and counters.
    pub fn telemetry(&self) -> (t: RealtimeTelemetry)
        requires
            self.wf(),
        ensures
            t == telemetry_of(
                self.video_spec()@.counters,
                self.audio_spec(),
                self.latest_input_spec(),
            ),
    {
        let c = self.video.counters();
        let mut t = RealtimeTelemetry {
            emulated_frames: c.emulated_frames,
            produced_video_frames: c.produced_video_frames,
            consumed_video_frames: c.consumed_video_frames,
            submitted_video_frames: c.submitted_video_frames,
            displayed_loop_iterations: c.displayed_loop_iterations,
            coalesced_video_frames: c.coalesced_video_frames,
            duplicate_video_polls: c.duplicate_video_polls,
            wake_requests: c.wake_requests,
            coalesced_wake_requests: c.coalesced_wake_requests,
            catch_up_rebases: c.catch_up_rebases,
            produced_audio_samples: c.produced_audio_samples,
            audio_available: false,
            audio_active: false,
            audio_primed: false,
            audio_muted: false,
            audio_capacity_samples: 0,
            audio_target_depth_samples: 0,
            audio_queue_depth_samples: 0,
            audio_high_water_samples: 0,
            consumed_audio_samples: 0,
            audio_underrun_samples: 0,
            audio_overflow_samples: 0,
            audio_callback_count: 0,
            audio_device_errors: 0,
            last_produced_frame_id: c.last_produced_frame_id,
            last_submitted_frame_id: c.last_submitted_frame_id,
            latest_input: self.latest_input,
        };
        match &self.audio {
            Some(audio) => {
                let a = audio.telemetry();
                t.audio_available = a.available;
                t.audio_active = a.active;
                t.audio_primed = a.primed;
                t.audio_muted = a.muted;
                t.audio_capacity_samples = a.capacity_samples;
                t.audio_target_depth_samples = a.target_depth_samples;
                t.audio_queue_depth_samples = a.current_depth_samples;
                t.audio_high_water_samples = a.high_water_samples;
                t.consumed_audio_samples = a.consumed_samples;
                t.audio_underrun_samples = a.underrun_samples;
                t.audio_overflow_samples = a.overflow_samples;
                t.audio_callback_count = a.callback_count;
                t.audio_device_errors = a.device_errors;
            },
            None => {},
        }
        t
    }

    /// The video handoff, for the presenter's side.
    pub fn video(&mut self) -> (video: &mut VideoHandoff)
        ensures
            *video == old(self).video_spec(),
            final(self).video_spec() == *final(video),
            final(self).mode_spec() == old(self).mode_spec(),
            final(self).input_spec() == old(self).input_spec(),
            final(self).audio_spec() == old(self).audio_spec(),
            final(self).error_spec() == old(self).error_spec(),
            final(self).attached() == old(self).attached(),
            final(self).latest_input_spec() == old(self).latest_input_spec(),
    {
        &mut self.video
    }

    /// The audio endpoint, for the output callback's side.
    pub fn audio(&mut self) -> (audio: Option<&mut RealtimeAudioEndpoint>)
        ensures
            match audio {
                Some(endpoint) => old(self).audio_spec() == Some(endpoint.shared_spec())
                    && final(self).audio_spec() == Some(final(endpoint).shared_spec()),
                None => old(self).audio_spec() is None && final(self).audio_spec() is None,
            },
            final(self).video_spec() == old(self).video_spec(),
            final(self).mode_spec() == old(self).mode_spec(),
            final(self).input_spec() == old(self).input_spec(),
            final(self).error_spec() == old(self).error_spec(),
            final(self).attached() == old(self).attached(),
            final(self).latest_input_spec() == old(self).latest_input_spec(),
    {
        match &mut self.audio {
            Some(endpoint) => Some(endpoint),
            None => None,
        }
    }
}

} // verus!
