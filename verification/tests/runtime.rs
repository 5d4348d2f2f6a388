use engine_client::audio::RealtimeAudioEndpoint;
use engine_client::runtime::{
    FrameTimes, InputRequest, RationalPacer, RealtimeRuntime, WorkerMode, BUTTON_A, BUTTON_LEFT,
    MAX_CATCH_UP_FRAMES, NTSC_MASTER_CLOCK_NUMERATOR_HZ, NTSC_PPU_CLOCK_DENOMINATOR,
    ZERO_CLOCK_FRAME_ERROR,
};
use engine_client::video::{
    NativePixelFormat, NativeVideoCrop, NativeVideoDescriptor, NativeVideoFrame, NativeVideoTiming,
    RealtimeStartError, RealtimeVideoMetadata, TelemetryCounters, VideoHandoff, VideoHandoffError,
    VIDEO_SLOT_COUNT,
};

const TEST_PALETTE: [u16; 2] = [0, 0xffff];

fn frame(pixels: &[u8; 4], frame_id: u64, emulated_ticks: u64, sequence: u64) -> NativeVideoFrame<'_> {
    NativeVideoFrame {
        width: 2,
        height: 2,
        visible_crop: NativeVideoCrop::full(2, 2),
        pixel_format: NativePixelFormat::Indexed8Rgb565,
        frame_id,
        pixels,
        palette_rgb565: &TEST_PALETTE,
        timing: Some(NativeVideoTiming { emulated_ticks, input_sequence_id: sequence }),
    }
}

fn metadata(frame_id: u64) -> RealtimeVideoMetadata {
    RealtimeVideoMetadata { frame_id, ..RealtimeVideoMetadata::default() }
}

fn handoff_for(initial: &NativeVideoFrame) -> VideoHandoff {
    VideoHandoff::new(
        NativeVideoDescriptor::from_frame(initial).unwrap(),
        TelemetryCounters::default(),
    )
}

/// A stand-in for the emulator core: each frame advances by one NTSC frame of
/// PPU clocks and fills its pixels from the A button of the first pad.
struct FakeCore {
    pixels: [u8; 4],
    audio_samples: [i16; 4],
    frame_id: u64,
    emulated_ticks: u64,
}

impl FakeCore {
    fn new() -> Self {
        FakeCore { pixels: [0; 4], audio_samples: [1, 2, 3, 4], frame_id: 1, emulated_ticks: 10 }
    }

    fn current(&self) -> NativeVideoFrame<'_> {
        frame(&self.pixels, self.frame_id, self.emulated_ticks, 0)
    }

    fn advance(&mut self, input: &InputRequest) {
        self.frame_id += 1;
        self.emulated_ticks += 89_342;
        self.pixels = [u8::from(input.controllers[0] & BUTTON_A != 0); 4];
    }
}

/// Runs one worker frame against `runtime` the way the worker loop does.
fn run_frame(
    runtime: &mut RealtimeRuntime,
    core: &mut FakeCore,
    pacer: &mut RationalPacer,
    now: u128,
) -> bool {
    let input = runtime.sample_input();
    core.advance(&input);
    let times = FrameTimes { sampled_at: now, completed_at: now, published_at: now };
    let samples = core.audio_samples;
    let frame = frame(&core.pixels, core.frame_id, core.emulated_ticks, input.sequence_id);
    runtime.complete_frame(input, times, &frame, &samples, 89_342, pacer)
}

#[test]
fn rational_pacer_accumulates_exact_ntsc_fraction_without_rounding_each_frame() {
    let origin: u128 = 5_000;
    let mut pacer = RationalPacer::new(origin);
    let clocks = [89_342_u64, 89_341, 89_342, 89_341];
    for clocks in clocks {
        pacer.advance_ppu_clocks(clocks);
    }

    let total_clocks = clocks.into_iter().sum::<u64>();
    let expected_nanos = u128::from(total_clocks)
        * u128::from(NTSC_PPU_CLOCK_DENOMINATOR)
        * 1_000_000_000_u128
        / u128::from(NTSC_MASTER_CLOCK_NUMERATOR_HZ);
    assert_eq!(pacer.deadline() - origin, expected_nanos);
}

#[test]
fn pacer_rebase_restarts_from_now() {
    let mut pacer = RationalPacer::new(0);
    pacer.advance_ppu_clocks(1);
    // One PPU clock is 44e9 / 236.25e6 ns: 186 whole nanoseconds.
    assert_eq!(pacer.deadline(), 186);
    pacer.rebase(1_000);
    assert_eq!(pacer.deadline(), 1_000);
    pacer.advance_ppu_clocks(1);
    assert_eq!(pacer.deadline(), 1_186);
}

#[test]
fn video_handoff_keeps_only_three_slots_and_reports_coalescing() {
    let core = FakeCore::new();
    let initial = core.current();
    let mut handoff = handoff_for(&initial);
    for frame_id in 1..=8 {
        let next = NativeVideoFrame { frame_id, ..initial };
        assert_eq!(handoff.publish(&next, metadata(frame_id)), Ok(frame_id));
    }

    let mut pixels = [0_u8; 4];
    let latest = handoff.try_copy_latest(&mut pixels).unwrap().unwrap();
    assert_eq!(latest.frame_id, 8);
    assert_eq!(latest.generation, 8);
    assert_eq!(VIDEO_SLOT_COUNT, 3);
    assert_eq!(handoff.counters().coalesced_video_frames, 7);
    assert_eq!(handoff.counters().produced_video_frames, 8);
    assert_eq!(handoff.counters().consumed_video_frames, 1);
    // Nothing newer: a second poll is a duplicate.
    assert_eq!(handoff.try_copy_latest(&mut pixels), Ok(None));
    assert_eq!(handoff.counters().duplicate_video_polls, 1);
}

#[test]
fn one_wakeup_is_outstanding_while_new_frames_coalesce() {
    let core = FakeCore::new();
    let initial = core.current();
    let mut handoff = handoff_for(&initial);
    handoff.set_waker();
    let mut wakes = 0;
    for frame_id in 1..=5 {
        handoff.publish(&NativeVideoFrame { frame_id, ..initial }, metadata(frame_id)).unwrap();
        if handoff.take_wake_due() {
            wakes += 1;
        }
    }
    assert_eq!(wakes, 1);
    assert_eq!(handoff.counters().wake_requests, 1);
    assert_eq!(handoff.counters().coalesced_wake_requests, 4);

    let mut pixels = [0_u8; 4];
    assert_eq!(handoff.try_copy_latest(&mut pixels).unwrap().unwrap().frame_id, 5);
    // The wakeup completed and nothing newer is waiting.
    assert!(!handoff.take_wake_due());
    handoff.publish(&NativeVideoFrame { frame_id: 6, ..initial }, metadata(6)).unwrap();
    assert!(handoff.take_wake_due());
    assert_eq!(handoff.counters().wake_requests, 2);
}

#[test]
fn handoff_refuses_malformed_frames_and_wrong_destinations() {
    let core = FakeCore::new();
    let initial = core.current();
    let mut handoff = handoff_for(&initial);
    let short = [0_u8; 3];
    let bad = NativeVideoFrame { pixels: &short, ..initial };
    assert_eq!(handoff.publish(&bad, metadata(1)), Err(VideoHandoffError::InvalidFrame));
    let wide = [0_u8; 6];
    let changed = NativeVideoFrame {
        width: 3,
        pixels: &wide,
        visible_crop: NativeVideoCrop::full(3, 2),
        ..initial
    };
    assert_eq!(handoff.publish(&changed, metadata(1)), Err(VideoHandoffError::FormatChanged));
    let mut small = [0_u8; 2];
    assert_eq!(
        handoff.try_copy_latest(&mut small),
        Err(VideoHandoffError::DestinationSize { expected: 4, actual: 2 })
    );
}

#[test]
fn runtime_refuses_an_invalid_initial_frame() {
    let pixels = [0_u8; 3];
    let bad = NativeVideoFrame {
        width: 2,
        height: 2,
        visible_crop: NativeVideoCrop::full(2, 2),
        pixel_format: NativePixelFormat::Indexed8Rgb565,
        frame_id: 1,
        pixels: &pixels,
        palette_rgb565: &TEST_PALETTE,
        timing: None,
    };
    assert!(matches!(
        RealtimeRuntime::new(&bad, None),
        Err(RealtimeStartError::InvalidInitialVideo)
    ));
}

#[test]
fn worker_neutralizes_resume_then_samples_only_the_latest_input() {
    let mut core = FakeCore::new();
    let mut runtime = RealtimeRuntime::new(&core.current(), None).unwrap();
    let mut pixels = [0_u8; 4];
    assert_eq!(runtime.video().try_copy_latest(&mut pixels).unwrap().unwrap().frame_id, 1);
    assert_eq!(runtime.mode(), WorkerMode::Paused);
    assert_eq!(runtime.telemetry().emulated_frames, 0);

    runtime.publish_input([BUTTON_LEFT, 0], 1);
    runtime.publish_input([BUTTON_A, 0], 2);
    runtime.set_paused(false, 3);
    let mut pacer = RationalPacer::new(3);
    assert!(runtime.frame_due(0, 3, &pacer));
    assert!(run_frame(&mut runtime, &mut core, &mut pacer, 3));
    let telemetry = runtime.telemetry();
    assert!(telemetry.emulated_frames >= 1);
    let applied = telemetry.latest_input.unwrap();
    // Resume inserts one neutral sequence, so held input cannot leak across
    // the lifecycle boundary.
    assert_eq!(applied.controllers, [0, 0]);
    assert_eq!(applied.sequence_id, 3);

    runtime.publish_input([BUTTON_LEFT, 0], 4);
    let expected_sequence = runtime.publish_input([BUTTON_A, 0], 5);
    assert!(run_frame(&mut runtime, &mut core, &mut pacer, 6));
    runtime.set_paused(true, 7);

    let applied = runtime.telemetry().latest_input.unwrap();
    assert_eq!(applied.sequence_id, expected_sequence);
    assert_eq!(applied.controllers, [BUTTON_A, 0]);
    let latest = runtime.video().try_copy_latest(&mut pixels).unwrap().unwrap();
    assert_eq!(latest.input_sequence_id, expected_sequence);
    assert_eq!(pixels, [1; 4]);
}

#[test]
fn worker_rebases_after_bounded_overload_catch_up() {
    let mut core = FakeCore::new();
    let mut runtime = RealtimeRuntime::new(&core.current(), None).unwrap();
    runtime.set_paused(false, 0);
    let mut pacer = RationalPacer::new(0);
    // Every frame takes far longer than its deadline.
    let now: u128 = 1_000_000_000;
    let mut catch_up_frames = 0;
    while runtime.frame_due(catch_up_frames, now, &pacer) {
        assert!(run_frame(&mut runtime, &mut core, &mut pacer, now));
        catch_up_frames += 1;
    }
    assert_eq!(catch_up_frames, MAX_CATCH_UP_FRAMES);
    assert!(runtime.finish_catch_up(catch_up_frames, now, &mut pacer));
    assert_eq!(pacer.deadline(), now);

    let telemetry = runtime.telemetry();
    assert!(telemetry.emulated_frames >= MAX_CATCH_UP_FRAMES as u64);
    assert!(telemetry.catch_up_rebases >= 1);
    // A burst that kept up does not rebase.
    assert!(!runtime.finish_catch_up(1, now, &mut pacer));
}

#[test]
fn worker_feeds_and_flushes_the_bounded_audio_endpoint() {
    let mut core = FakeCore::new();
    let audio = RealtimeAudioEndpoint::new(1);
    let mut runtime = RealtimeRuntime::new(&core.current(), Some(audio)).unwrap();
    runtime.set_paused(false, 0);
    let mut pacer = RationalPacer::new(0);
    assert!(run_frame(&mut runtime, &mut core, &mut pacer, 0));

    let running = runtime.telemetry();
    assert!(running.produced_audio_samples >= 4);
    assert!(running.audio_available);
    assert!(running.audio_active);
    assert!(running.audio_queue_depth_samples > 0);
    assert!(running.audio_queue_depth_samples <= running.audio_capacity_samples);

    runtime.set_paused(true, 1);
    let paused = runtime.telemetry();
    assert!(!paused.audio_active);
    assert_eq!(paused.audio_queue_depth_samples, 0);
}

#[test]
fn frames_after_a_pause_are_counted_but_not_published() {
    let mut core = FakeCore::new();
    let mut runtime = RealtimeRuntime::new(&core.current(), None).unwrap();
    let mut pacer = RationalPacer::new(0);
    assert!(!run_frame(&mut runtime, &mut core, &mut pacer, 0));
    let telemetry = runtime.telemetry();
    assert_eq!(telemetry.emulated_frames, 1);
    assert_eq!(telemetry.produced_video_frames, 1);
    assert!(telemetry.latest_input.is_none());
    assert_eq!(pacer.deadline(), 0);
}

#[test]
fn a_frame_without_clocks_pauses_with_an_error() {
    let mut core = FakeCore::new();
    let mut runtime = RealtimeRuntime::new(&core.current(), None).unwrap();
    runtime.set_paused(false, 0);
    let mut pacer = RationalPacer::new(0);
    let input = runtime.sample_input();
    core.advance(&input);
    let times = FrameTimes { sampled_at: 0, completed_at: 0, published_at: 0 };
    let frame = frame(&core.pixels, core.frame_id, core.emulated_ticks, input.sequence_id);
    assert!(!runtime.complete_frame(input, times, &frame, &[], 0, &mut pacer));
    assert_eq!(runtime.mode(), WorkerMode::Paused);
    assert_eq!(runtime.runtime_error().as_deref(), Some(ZERO_CLOCK_FRAME_ERROR));
    // A resume after a fatal error is refused.
    runtime.set_paused(false, 1);
    assert_eq!(runtime.mode(), WorkerMode::Paused);
}
