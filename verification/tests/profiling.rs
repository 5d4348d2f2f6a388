use engine_client::profiling::{CpuProfile, FrameSample, SAMPLE_LIMIT};

const MS: u64 = 1_000_000;

#[test]
fn samples_are_bounded_and_timings_have_explicit_units() {
    let mut profile = CpuProfile::default();
    assert_eq!(profile.diagnostics(), "");
    for i in 0..150u64 {
        profile.record(
            FrameSample {
                interval: i * MS,
                step: MS,
                total: 5 * MS,
                updates: 2,
                ..Default::default()
            },
            [1024, 768, 2048, 1536],
            125,
        );
    }
    assert_eq!(profile.sample_count(), SAMPLE_LIMIT);
    let text = profile.diagnostics();
    assert!(text.contains("host_interval_avg_ms=89.500"));
    assert!(text.contains("host_interval_p95_ms=143.000"));
    assert!(text.contains("host_step_avg_ms=1.000"));
    assert!(text.contains("host_callback_max_ms=5.000"));
    assert!(text.contains("host_internal_width=2048"));
    assert!(text.contains("host_updates_per_callback=2.000"));
    profile.clear();
    assert_eq!(profile.diagnostics(), "");
}

#[test]
fn resize_does_not_mix_incomparable_samples() {
    let mut profile = CpuProfile::default();
    profile.record(FrameSample::default(), [800, 480, 1600, 960], 100);
    profile.record(FrameSample::default(), [1024, 768, 2048, 1536], 120);
    assert_eq!(profile.sample_count(), 1);
    assert!(profile.diagnostics().contains("host_scene_primitives=120"));
}

#[test]
fn report_lists_every_timing_in_order_for_one_sample() {
    let mut profile = CpuProfile::new();
    profile.record(
        FrameSample {
            interval: 16_666_667,
            step: 1_234_500,
            scene: 2_000_000,
            prepare: 999_999,
            total: 4_000_001,
            updates: 3,
        },
        [10, 20, 30, 40],
        7,
    );
    assert_eq!(
        profile.diagnostics(),
        "\nhost_cpu_samples=1\nhost_viewport_width=10\nhost_viewport_height=20\nhost_internal_width=30\nhost_internal_height=40\nhost_scene_primitives=7\nhost_updates_per_callback=3.000\nhost_interval_avg_ms=16.667\nhost_interval_p95_ms=16.667\nhost_interval_max_ms=16.667\nhost_step_avg_ms=1.235\nhost_step_p95_ms=1.235\nhost_step_max_ms=1.235\nhost_scene_avg_ms=2.000\nhost_scene_p95_ms=2.000\nhost_scene_max_ms=2.000\nhost_prepare_avg_ms=1.000\nhost_prepare_p95_ms=1.000\nhost_prepare_max_ms=1.000\nhost_callback_avg_ms=4.000\nhost_callback_p95_ms=4.000\nhost_callback_max_ms=4.000"
    );
}

#[test]
fn percentile_uses_nearest_rank_over_unsorted_samples() {
    let mut profile = CpuProfile::new();
    for value in [5u64, 1, 4, 2, 3] {
        profile.record(
            FrameSample { step: value * MS, ..Default::default() },
            [1, 1, 1, 1],
            0,
        );
    }
    let text = profile.diagnostics();
    assert!(text.contains("host_step_avg_ms=3.000"));
    assert!(text.contains("host_step_p95_ms=5.000"));
    assert!(text.contains("host_step_max_ms=5.000"));
    assert!(text.contains("host_cpu_samples=5"));
}

#[test]
fn same_dimensions_keep_the_window_and_full_window_drops_the_oldest() {
    let mut profile = CpuProfile::new();
    for i in 0..(SAMPLE_LIMIT as u64 + 1) {
        profile.record(FrameSample { interval: i * MS, ..Default::default() }, [0, 0, 0, 0], 1);
    }
    assert_eq!(profile.sample_count(), SAMPLE_LIMIT);
    assert!(profile.diagnostics().contains("host_interval_max_ms=120.000"));
    assert!(profile.diagnostics().contains("host_interval_avg_ms=60.500"));
}
