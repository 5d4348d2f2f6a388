use engine_client::host::{performance_target_label, TickModel};
use engine_client::launch::RenderBackend;
use engine_client::performance::{runtime_diagnostics_text, PerformanceStats};

#[test]
fn performance_stats_reports_target_and_measured_rates() {
    let start: u128 = 7_000_000;
    let mut stats =
        PerformanceStats::new(performance_target_label(TickModel::FixedTimestep { hz: 60 }), start);

    assert_eq!(stats.display_text(), "Target 60 Hz | FPS -- | UPS --");
    assert_eq!(
        stats.diagnostics_text(),
        "performance_target=60 Hz\nfps=--\nups=--\nframes_total=0\nupdates_total=0"
    );

    for frame in 1..=60_u128 {
        let sample_completed = stats.record_frame(start + frame * 1_000_000_000 / 60, 1);
        assert_eq!(sample_completed, frame == 60);
    }

    assert_eq!(stats.display_text(), "Target 60 Hz | FPS 60 | UPS 60");
    assert_eq!(
        stats.diagnostics_text(),
        "performance_target=60 Hz\nfps=60.0\nups=60.0\nframes_total=60\nupdates_total=60"
    );
}

#[test]
fn runtime_diagnostics_include_launch_state_and_performance() {
    let start: u128 = 0;
    let mut stats = PerformanceStats::new(performance_target_label(TickModel::Variable), start);
    stats.record_frame(start + 1_000_000_000, 3);

    assert_eq!(
        runtime_diagnostics_text(
            "pizza",
            17,
            false,
            true,
            RenderBackend::Raster,
            "2.00",
            &stats,
            "No active rule-bot diagnostics.",
        ),
        "scenario=pizza\nscenario_revision=17\npaused=false\nbenchmark_active=true\nrenderer=raster\nraster_scale=2.00\nperformance_target=variable\nfps=1.0\nups=3.0\nframes_total=1\nupdates_total=3\nNo active rule-bot diagnostics."
    );
}

#[test]
fn rates_round_to_one_decimal_and_the_display_to_whole_numbers() {
    let mut stats = PerformanceStats::new(performance_target_label(TickModel::EmulatorClock), 0);
    // Three frames with two updates each in 1.4 s: 2.14 fps, 4.29 ups.
    stats.record_frame(500_000_000, 2);
    stats.record_frame(1_000_000_000 - 1, 2);
    assert!(stats.record_frame(1_400_000_000, 2));
    assert_eq!(stats.display_text(), "Target emulator 60.10 Hz | FPS 2 | UPS 4");
    assert_eq!(
        stats.diagnostics_text(),
        "performance_target=emulator 60.10 Hz\nfps=2.1\nups=4.3\nframes_total=3\nupdates_total=6"
    );
}
