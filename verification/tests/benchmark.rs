use engine_client::benchmark::{
    benchmark_row, write_benchmark_row, BenchmarkCounts, BenchmarkSample, BenchmarkStepMetrics,
    CsvCell, FrameMeasurement,
};
use engine_client::benchmark::{BenchmarkSchedule, BenchmarkStep};
use engine_client::launch::RenderBackend;
use engine_client::raster::RasterTimings;

fn frame(step_ms: u64, total_ms: u64, candidate_pairs: usize) -> FrameMeasurement {
    FrameMeasurement {
        step_time: step_ms * 1_000_000,
        metrics: BenchmarkStepMetrics {
            added: 1,
            lifecycle_time: u128::from(step_ms) * 100_000,
            ..BenchmarkStepMetrics::default()
        },
        counts: BenchmarkCounts { candidate_pairs, asteroids: 12, ..BenchmarkCounts::default() },
        render_time: 2_000_000,
        present_time: 500_000,
        scene_items: 40,
        raster_timings: RasterTimings { image: 1_000_000, ..RasterTimings::default() },
        total_time: total_ms * 1_000_000,
    }
}

#[test]
fn cells_are_written_with_commas_and_fixed_decimals() {
    let mut out = String::from("x\n");
    write_benchmark_row(
        &mut out,
        &vec![
            CsvCell::Text("spacewars".to_string()),
            CsvCell::Count(42),
            CsvCell::Fixed2(6_005),
            CsvCell::Fixed3(1_234),
            CsvCell::Fixed3(7),
        ],
    );
    assert_eq!(out, "x\nspacewars,42,60.05,1.234,0.007\n");
}

#[test]
fn a_second_of_frames_becomes_one_report_row() {
    let mut sample = BenchmarkSample::default();
    for (step, total, pairs) in [(4, 10, 3), (2, 6, 9), (8, 20, 1), (6, 12, 4)] {
        sample.record_frame(&frame(step, total, pairs));
    }
    sample.wall_time = 2_000_000_000;
    assert_eq!(sample.frames, 4);
    assert_eq!(sample.updates, 4);
    assert_eq!(sample.max_candidate_pairs, 9);
    assert_eq!(sample.max_total_time, 20_000_000);
    assert_eq!(sample.max_lifecycle_time, 800_000);
    assert_eq!(sample.scenario_metrics.added, 4);

    let counts = BenchmarkCounts { asteroids: 12, candidate_pairs: 4, ..BenchmarkCounts::default() };
    let cells = benchmark_row("spacewars", 3, RenderBackend::Raster, "1.00", &sample, &counts);
    assert_eq!(cells.len(), 81);
    assert_eq!(cells[0], CsvCell::Text("spacewars".to_string()));
    assert_eq!(cells[1], CsvCell::Text("raster".to_string()));
    assert_eq!(cells[2], CsvCell::Text("1.00".to_string()));
    assert_eq!(cells[3], CsvCell::Count(3));
    assert_eq!(cells[4], CsvCell::Count(4));
    // Four frames in two seconds.
    assert_eq!(cells[6], CsvCell::Fixed2(200));
    assert_eq!(cells[7], CsvCell::Count(40));
    assert_eq!(cells[8], CsvCell::Count(12));
    assert_eq!(cells[21], CsvCell::Count(4));
    assert_eq!(cells[22], CsvCell::Count(9));
    // Step times 2, 4, 6, 8 ms: mean 5, nearest-rank p50 index 2 (6 ms),
    // p95 and p99 index 3 (8 ms), max 8 ms.
    assert_eq!(cells[29], CsvCell::Fixed3(5_000));
    assert_eq!(cells[30], CsvCell::Fixed3(6_000));
    assert_eq!(cells[31], CsvCell::Fixed3(8_000));
    assert_eq!(cells[32], CsvCell::Fixed3(8_000));
    assert_eq!(cells[33], CsvCell::Fixed3(8_000));
    // Total frame times 6, 10, 12, 20 ms: p50 index 2, and the largest.
    assert_eq!(cells[77], CsvCell::Fixed3(12_000));
    assert_eq!(cells[80], CsvCell::Fixed3(20_000));

    let mut out = String::new();
    write_benchmark_row(&mut out, &cells);
    assert!(out.starts_with("spacewars,raster,1.00,3,4,4,2.00,40,12,"));
    assert!(out.ends_with(",20.000\n"));
}

#[test]
fn an_empty_second_reports_zeros() {
    let sample = BenchmarkSample::default();
    let cells = benchmark_row("null", 0, RenderBackend::Vector, "1.00", &sample, &BenchmarkCounts::default());
    assert_eq!(cells[6], CsvCell::Fixed2(0));
    assert_eq!(cells[29], CsvCell::Fixed3(0));
    assert_eq!(cells[30], CsvCell::Fixed3(0));
}

#[test]
fn the_header_and_a_row_have_equally_many_fields() {
    let mut header = String::new();
    engine_client::host::write_benchmark_header(&mut header);
    assert_eq!(header.trim_end().split(',').count(), 81);
    let cells = engine_client::benchmark::benchmark_header_cells();
    assert_eq!(cells.len(), 81);

    let sample = BenchmarkSample::default();
    let row = benchmark_row("pizza", 1, RenderBackend::Vector, "2.00", &sample, &BenchmarkCounts::default());
    let mut out = String::new();
    write_benchmark_row(&mut out, &row);
    assert_eq!(out.trim_end().split(',').count(), 81);
}

#[test]
fn the_schedule_measures_sixty_frames_per_second_for_at_least_one_second() {
    let mut schedule = BenchmarkSchedule::new(0);
    let mut frames = 0;
    loop {
        match schedule.next() {
            BenchmarkStep::Frame => frames += 1,
            BenchmarkStep::FinishSecond { second } => {
                assert_eq!(second, 1);
                assert_eq!(frames, 60);
            },
            BenchmarkStep::Done => break,
        }
    }
    let mut schedule = BenchmarkSchedule::new(2);
    let mut rows = Vec::new();
    let mut frames = 0;
    loop {
        match schedule.next() {
            BenchmarkStep::Frame => frames += 1,
            BenchmarkStep::FinishSecond { second } => rows.push((second, frames)),
            BenchmarkStep::Done => break,
        }
    }
    assert_eq!(rows, vec![(1, 60), (2, 120)]);
    assert_eq!(schedule.next(), BenchmarkStep::Done);
}
