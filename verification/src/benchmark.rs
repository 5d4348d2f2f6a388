//! The headless benchmark's CSV report: one row per measured second, with
//! counts from the scenario and averages, percentiles and maxima of the
//! measured times in milliseconds.

use vstd::prelude::*;

use crate::host::MAX_DURATION_NANOS;
use crate::launch::RenderBackend;
use crate::profiling::{ascending, fixed3, kth_smallest, push_fixed3, sort_ascending, thousandths, thousandths_of};
use crate::raster::RasterTimings;
use crate::text::{decimal, digit_char, digit_of, push_char, push_decimal, push_str};

verus! {

/// Frames measured in each benchmark second.
pub const FRAMES_PER_SECOND: u32 = 60;

/// What the scenario reports of its world after a step.
#[derive(Debug, Clone, Copy, Default, PartialEq, Eq, Structural)]
pub struct BenchmarkCounts {
    pub asteroids: usize,
    pub fragments: usize,
    pub shells: usize,
    pub particles: usize,
    pub balls: usize,
    pub gravity_sources: usize,
    pub gravity_targets: usize,
    pub gravity_nodes: usize,
    pub gravity_exact_interactions: u64,
    pub gravity_approximations: u64,
    pub gravity_applied_sources: u64,
    pub active_bodies: usize,
    pub sleeping_bodies: usize,
    pub candidate_pairs: usize,
    pub contact_pairs: usize,
    pub contacts: usize,
}

/// Time the scenario spent in each part of a step, in nanoseconds, and the
/// bodies it added and removed.
#[derive(Debug, Clone, Copy, Default, PartialEq, Eq, Structural)]
pub struct BenchmarkStepMetrics {
    pub added: usize,
    pub removed: usize,
    pub workload_time: u128,
    pub lifecycle_time: u128,
    pub gravity_time: u128,
    pub gravity_validation_time: u128,
    pub gravity_build_time: u128,
    pub gravity_aggregation_time: u128,
    pub gravity_traversal_time: u128,
    pub collision_time: u128,
    pub physics_time: u128,
    pub snapshot_time: u128,
    pub rapier_step_time: u128,
    pub rapier_update_time: u128,
    pub rapier_user_changes_time: u128,
    pub rapier_kinematic_interpolation_time: u128,
    pub rapier_collision_detection_time: u128,
    pub rapier_broad_phase_time: u128,
    pub rapier_final_broad_phase_time: u128,
    pub rapier_narrow_phase_time: u128,
    pub rapier_island_time: u128,
    pub rapier_island_constraints_time: u128,
    pub rapier_solver_time: u128,
    pub rapier_ccd_time: u128,
}

/// One second of benchmark measurements; times in nanoseconds.
#[derive(Debug, Clone, Default)]
pub struct BenchmarkSample {
    pub frames: u32,
    pub updates: u32,
    pub scene_items: usize,
    pub step_time: u128,
    pub render_time: u128,
    pub present_time: u128,
    pub raster_timings: RasterTimings,
    pub scenario_metrics: BenchmarkStepMetrics,
    pub step_samples: Vec<u64>,
    pub total_samples: Vec<u64>,
    pub max_lifecycle_time: u128,
    pub max_candidate_pairs: usize,
    pub max_contact_pairs: usize,
    pub max_contacts: usize,
    pub max_total_time: u128,
    pub wall_time: u128,
}

/// Every time in the sample is a valid duration.
pub open spec fn sample_bounded(sample: BenchmarkSample) -> bool {
    &&& sample.step_time <= MAX_DURATION_NANOS
    &&& sample.render_time <= MAX_DURATION_NANOS
    &&& sample.present_time <= MAX_DURATION_NANOS
    &&& sample.max_lifecycle_time <= MAX_DURATION_NANOS
    &&& sample.max_total_time <= MAX_DURATION_NANOS
    &&& sample.wall_time <= MAX_DURATION_NANOS
    &&& sample.scenario_metrics.workload_time <= MAX_DURATION_NANOS
    &&& sample.scenario_metrics.lifecycle_time <= MAX_DURATION_NANOS
    &&& sample.scenario_metrics.gravity_time <= MAX_DURATION_NANOS
    &&& sample.scenario_metrics.gravity_validation_time <= MAX_DURATION_NANOS
    &&& sample.scenario_metrics.gravity_build_time <= MAX_DURATION_NANOS
    &&& sample.scenario_metrics.gravity_aggregation_time <= MAX_DURATION_NANOS
    &&& sample.scenario_metrics.gravity_traversal_time <= MAX_DURATION_NANOS
    &&& sample.scenario_metrics.collision_time <= MAX_DURATION_NANOS
    &&& sample.scenario_metrics.physics_time <= MAX_DURATION_NANOS
    &&& sample.scenario_metrics.snapshot_time <= MAX_DURATION_NANOS
    &&& sample.scenario_metrics.rapier_step_time <= MAX_DURATION_NANOS
    &&& sample.scenario_metrics.rapier_update_time <= MAX_DURATION_NANOS
    &&& sample.scenario_metrics.rapier_user_changes_time <= MAX_DURATION_NANOS
    &&& sample.scenario_metrics.rapier_kinematic_interpolation_time <= MAX_DURATION_NANOS
    &&& sample.scenario_metrics.rapier_collision_detection_time <= MAX_DURATION_NANOS
    &&& sample.scenario_metrics.rapier_broad_phase_time <= MAX_DURATION_NANOS
    &&& sample.scenario_metrics.rapier_final_broad_phase_time <= MAX_DURATION_NANOS
    &&& sample.scenario_metrics.rapier_narrow_phase_time <= MAX_DURATION_NANOS
    &&& sample.scenario_metrics.rapier_island_time <= MAX_DURATION_NANOS
    &&& sample.scenario_metrics.rapier_island_constraints_time <= MAX_DURATION_NANOS
    &&& sample.scenario_metrics.rapier_solver_time <= MAX_DURATION_NANOS
    &&& sample.scenario_metrics.rapier_ccd_time <= MAX_DURATION_NANOS
    &&& sample.raster_timings.clear <= MAX_DURATION_NANOS
    &&& sample.raster_timings.player_views <= MAX_DURATION_NANOS
    &&& sample.raster_timings.player_starfield <= MAX_DURATION_NANOS
    &&& sample.raster_timings.player_bodies <= MAX_DURATION_NANOS
    &&& sample.raster_timings.player_world <= MAX_DURATION_NANOS
    &&& sample.raster_timings.player_sun_planets <= MAX_DURATION_NANOS
    &&& sample.raster_timings.player_spaceports <= MAX_DURATION_NANOS
    &&& sample.raster_timings.player_effects <= MAX_DURATION_NANOS
    &&& sample.raster_timings.player_ships <= MAX_DURATION_NANOS
    &&& sample.raster_timings.player_debris <= MAX_DURATION_NANOS
    &&& sample.raster_timings.player_particles <= MAX_DURATION_NANOS
    &&& sample.raster_timings.player_other <= MAX_DURATION_NANOS
    &&& sample.raster_timings.other_frames <= MAX_DURATION_NANOS
    &&& sample.raster_timings.overview_refresh <= MAX_DURATION_NANOS
    &&& sample.raster_timings.overview_blit <= MAX_DURATION_NANOS
    &&& sample.raster_timings.overview_live <= MAX_DURATION_NANOS
    &&& sample.raster_timings.image <= MAX_DURATION_NANOS
}

/// One CSV cell.
#[derive(Debug, Clone, PartialEq, Eq)]
pub enum CsvCell {
    Text(String),
    Count(u128),
    /// A value in hundredths, written with two decimals.
    Fixed2(u128),
    /// A value in thousandths, written with three decimals.
    Fixed3(u128),
}

/// A cell with its text as a character sequence.
pub ghost enum CellView {
    Text(Seq<char>),
    Count(nat),
    Fixed2(nat),
    Fixed3(nat),
}

/// The view of a cell.
pub open spec fn cell_view(cell: CsvCell) -> CellView {
    match cell {
        CsvCell::Text(s) => CellView::Text(s@),
        CsvCell::Count(n) => CellView::Count(n as nat),
        CsvCell::Fixed2(n) => CellView::Fixed2(n as nat),
        CsvCell::Fixed3(n) => CellView::Fixed3(n as nat),
    }
}

/// A count of hundredths written with two decimals.
pub open spec fn fixed2(t: nat) -> Seq<char> {
    decimal(t / 100) + seq!['.', digit_char(t / 10 % 10), digit_char(t % 10)]
}

/// How a cell is written.
pub open spec fn cell_text(cell: CellView) -> Seq<char> {
    match cell {
        CellView::Text(s) => s,
        CellView::Count(n) => decimal(n),
        CellView::Fixed2(t) => fixed2(t),
        CellView::Fixed3(t) => fixed3(t),
    }
}

/// Cells joined with commas.
pub open spec fn row_text(cells: Seq<CellView>) -> Seq<char>
    decreases cells.len(),
{
    if cells.len() == 0 {
        Seq::empty()
    } else if cells.len() == 1 {
        cell_text(cells[0])
    } else {
        row_text(cells.drop_last()) + ","@ + cell_text(cells.last())
    }
}

/// Appends one cell.
fn push_cell(out: &mut String, cell: &CsvCell)
    ensures
        final(out)@ == old(out)@ + cell_text(cell_view(*cell)),
{
    match cell {
        CsvCell::Text(s) => push_str(out, s.as_str()),
        CsvCell::Count(n) => push_decimal(out, *n),
        CsvCell::Fixed2(t) => {
            let ghost start = out@;
            push_decimal(out, *t / 100);
            push_char(out, '.');
            push_char(out, digit_of(*t / 10 % 10));
            push_char(out, digit_of(*t % 10));
            assert(out@ =~= start + fixed2(*t as nat));
        },
        CsvCell::Fixed3(t) => push_fixed3(out, *t),
    }
}

/// Appends a row: the cells joined with commas, then a newline.
pub fn write_benchmark_row(out: &mut String, cells: &Vec<CsvCell>)
    ensures
        final(out)@ == old(out)@ + row_text(cells@.map_values(|c: CsvCell| cell_view(c))) + "\n"@,
{
    let ghost start = out@;
    let mut i: usize = 0;
    while i < cells.len()
        invariant
            i <= cells@.len(),
            out@ == start + row_text(cells@.take(i as int).map_values(|c: CsvCell| cell_view(c))),
        decreases cells@.len() - i,
    {
        let ghost before = out@;
        if i > 0 {
            push_str(out, ",");
        }
        push_cell(out, &cells[i]);
        proof {
            let views = cells@.take(i as int + 1).map_values(|c: CsvCell| cell_view(c));
            assert(views.drop_last() =~= cells@.take(i as int).map_values(|c: CsvCell| cell_view(c)));
            if i == 0 {
                assert(views.len() == 1);
            }
        }
        i = i + 1;
    }
    assert(cells@.take(cells@.len() as int) =~= cells@);
    push_str(out, "\n");
}

/// A total time per frame in thousandths of a millisecond; no frames count
/// as one.
pub open spec fn average_thousandths(ns: u128, frames: u32) -> nat {
    thousandths(ns as nat, (if frames == 0 { 1 } else { frames as nat }) * 1_000_000)
}

fn average(ns: u128, frames: u32) -> (t: u128)
    requires
        ns <= 3 * MAX_DURATION_NANOS,
    ensures
        t == average_thousandths(ns, frames),
{
    let f: u128 = if frames == 0 { 1 } else { frames as u128 };
    assert(f * 1_000_000 <= 0x1_0000_0000 * 1_000_000) by (nonlinear_arith)
        requires
            f <= 0x1_0000_0000,
    ;
    thousandths_of(ns, f * 1_000_000)
}

/// Frames per second in hundredths, over a wall time of at least a
/// microsecond.
pub open spec fn throughput_hundredths(frames: u32, wall_ns: u128) -> nat {
    let wall = if wall_ns < 1000 { 1000 } else { wall_ns as nat };
    (frames as nat * 200_000_000_000 + wall) / (2 * wall)
}

fn throughput(frames: u32, wall_ns: u128) -> (t: u128)
    requires
        wall_ns <= MAX_DURATION_NANOS,
    ensures
        t == throughput_hundredths(frames, wall_ns),
{
    let wall: u128 = if wall_ns < 1000 { 1000 } else { wall_ns };
    let f = frames as u128;
    assert(f * 200_000_000_000 <= 0x1_0000_0000 * 200_000_000_000) by (nonlinear_arith)
        requires
            f <= 0x1_0000_0000,
    ;
    (f * 200_000_000_000 + wall) / (2 * wall)
}

/// The nearest-rank percentile `pct` of `samples` in thousandths of a
/// millisecond: the sample at index `ceil((n - 1) * pct / 100)` in sorted
/// order; zero without samples.
pub open spec fn percentile_thousandths(samples: Seq<u64>, pct: nat) -> nat {
    if samples.len() == 0 {
        0
    } else {
        thousandths(
            kth_smallest(samples, (((samples.len() - 1) * pct + 99) / 100) as int) as nat,
            1_000_000,
        )
    }
}

/// The largest sample in thousandths of a millisecond; zero without samples.
pub open spec fn largest_thousandths(samples: Seq<u64>) -> nat {
    if samples.len() == 0 {
        0
    } else {
        thousandths(kth_smallest(samples, samples.len() - 1) as nat, 1_000_000)
    }
}

fn sorted_copy(samples: &Vec<u64>) -> (sorted: Vec<u64>)
    ensures
        sorted@ == samples@.sort_by(ascending()),
        sorted@.len() == samples@.len(),
{
    let mut copy: Vec<u64> = Vec::new();
    let mut i: usize = 0;
    while i < samples.len()
        invariant
            i <= samples@.len(),
            copy@ == samples@.take(i as int),
        decreases samples@.len() - i,
    {
        copy.push(samples[i]);
        assert(samples@.take(i as int + 1) =~= samples@.take(i as int).push(samples@[i as int]));
        i = i + 1;
    }
    assert(samples@.take(samples@.len() as int) =~= samples@);
    sort_ascending(&mut copy);
    copy
}

fn percentile(samples: &Vec<u64>, pct: usize) -> (t: u128)
    requires
        pct <= 100,
    ensures
        t == percentile_thousandths(samples@, pct as nat),
{
    if samples.len() == 0 {
        return 0;
    }
    let sorted = sorted_copy(samples);
    let n = sorted.len();
    assert((n - 1) * pct <= (n - 1) * 100) by (nonlinear_arith)
        requires
            pct <= 100,
            n >= 1,
    ;
    let index = ((n as u128 - 1) * pct as u128 + 99) / 100;
    assert(index <= n - 1);
    thousandths_of(sorted[index as usize] as u128, 1_000_000)
}

fn largest(samples: &Vec<u64>) -> (t: u128)
    ensures
        t == largest_thousandths(samples@),
{
    if samples.len() == 0 {
        return 0;
    }
    let sorted = sorted_copy(samples);
    thousandths_of(sorted[sorted.len() - 1] as u128, 1_000_000)
}

/// The cells of one report row, in header order.
pub open spec fn row_cells(
    scenario: Seq<char>,
    second: u64,
    renderer: RenderBackend,
    raster_scale_label: Seq<char>,
    sample: BenchmarkSample,
    counts: BenchmarkCounts,
) -> Seq<CellView> {
    seq![
        CellView::Text(scenario),
        CellView::Text(crate::launch::renderer_text(renderer)),
        CellView::Text(raster_scale_label),
        CellView::Count(second as nat),
        CellView::Count(sample.frames as nat),
        CellView::Count(sample.updates as nat),
        CellView::Fixed2(throughput_hundredths(sample.frames, sample.wall_time)),
        CellView::Count(sample.scene_items as nat),
        CellView::Count(counts.asteroids as nat),
        CellView::Count(counts.fragments as nat),
        CellView::Count(counts.shells as nat),
        CellView::Count(counts.particles as nat),
        CellView::Count(counts.balls as nat),
        CellView::Count(counts.gravity_sources as nat),
        CellView::Count(counts.gravity_targets as nat),
        CellView::Count(counts.gravity_nodes as nat),
        CellView::Count(counts.gravity_exact_interactions as nat),
        CellView::Count(counts.gravity_approximations as nat),
        CellView::Count(counts.gravity_applied_sources as nat),
        CellView::Count(counts.active_bodies as nat),
        CellView::Count(counts.sleeping_bodies as nat),
        CellView::Count(counts.candidate_pairs as nat),
        CellView::Count(sample.max_candidate_pairs as nat),
        CellView::Count(counts.contact_pairs as nat),
        CellView::Count(sample.max_contact_pairs as nat),
        CellView::Count(counts.contacts as nat),
        CellView::Count(sample.max_contacts as nat),
        CellView::Count(sample.scenario_metrics.added as nat),
        CellView::Count(sample.scenario_metrics.removed as nat),
        CellView::Fixed3(average_thousandths(sample.step_time, sample.frames)),
        CellView::Fixed3(percentile_thousandths(sample.step_samples@, 50)),
        CellView::Fixed3(percentile_thousandths(sample.step_samples@, 95)),
        CellView::Fixed3(percentile_thousandths(sample.step_samples@, 99)),
        CellView::Fixed3(largest_thousandths(sample.step_samples@)),
        CellView::Fixed3(average_thousandths(sample.scenario_metrics.workload_time, sample.frames)),
        CellView::Fixed3(average_thousandths(sample.scenario_metrics.lifecycle_time, sample.frames)),
        CellView::Fixed3(thousandths(sample.max_lifecycle_time as nat, 1_000_000)),
        CellView::Fixed3(average_thousandths(sample.scenario_metrics.gravity_time, sample.frames)),
        CellView::Fixed3(average_thousandths(sample.scenario_metrics.gravity_validation_time, sample.frames)),
        CellView::Fixed3(average_thousandths(sample.scenario_metrics.gravity_build_time, sample.frames)),
        CellView::Fixed3(average_thousandths(sample.scenario_metrics.gravity_aggregation_time, sample.frames)),
        CellView::Fixed3(average_thousandths(sample.scenario_metrics.gravity_traversal_time, sample.frames)),
        CellView::Fixed3(average_thousandths(sample.scenario_metrics.collision_time, sample.frames)),
        CellView::Fixed3(average_thousandths(sample.scenario_metrics.physics_time, sample.frames)),
        CellView::Fixed3(average_thousandths(sample.scenario_metrics.snapshot_time, sample.frames)),
        CellView::Fixed3(average_thousandths(sample.scenario_metrics.rapier_step_time, sample.frames)),
        CellView::Fixed3(average_thousandths(sample.scenario_metrics.rapier_update_time, sample.frames)),
        CellView::Fixed3(average_thousandths(sample.scenario_metrics.rapier_user_changes_time, sample.frames)),
        CellView::Fixed3(average_thousandths(sample.scenario_metrics.rapier_kinematic_interpolation_time, sample.frames)),
        CellView::Fixed3(average_thousandths(sample.scenario_metrics.rapier_collision_detection_time, sample.frames)),
        CellView::Fixed3(average_thousandths(sample.scenario_metrics.rapier_broad_phase_time, sample.frames)),
        CellView::Fixed3(average_thousandths(sample.scenario_metrics.rapier_final_broad_phase_time, sample.frames)),
        CellView::Fixed3(average_thousandths(sample.scenario_metrics.rapier_narrow_phase_time, sample.frames)),
        CellView::Fixed3(average_thousandths(sample.scenario_metrics.rapier_island_time, sample.frames)),
        CellView::Fixed3(average_thousandths(sample.scenario_metrics.rapier_island_constraints_time, sample.frames)),
        CellView::Fixed3(average_thousandths(sample.scenario_metrics.rapier_solver_time, sample.frames)),
        CellView::Fixed3(average_thousandths(sample.scenario_metrics.rapier_ccd_time, sample.frames)),
        CellView::Fixed3(average_thousandths(sample.render_time, sample.frames)),
        CellView::Fixed3(average_thousandths(sample.present_time, sample.frames)),
        CellView::Fixed3(average_thousandths(sample.raster_timings.clear, sample.frames)),
        CellView::Fixed3(average_thousandths(sample.raster_timings.player_views, sample.frames)),
        CellView::Fixed3(average_thousandths(sample.raster_timings.player_starfield, sample.frames)),
        CellView::Fixed3(average_thousandths(sample.raster_timings.player_bodies, sample.frames)),
        CellView::Fixed3(average_thousandths(sample.raster_timings.player_world, sample.frames)),
        CellView::Fixed3(average_thousandths(sample.raster_timings.player_sun_planets, sample.frames)),
        CellView::Fixed3(average_thousandths(sample.raster_timings.player_spaceports, sample.frames)),
        CellView::Fixed3(average_thousandths(sample.raster_timings.player_effects, sample.frames)),
        CellView::Fixed3(average_thousandths(sample.raster_timings.player_ships, sample.frames)),
        CellView::Fixed3(average_thousandths(sample.raster_timings.player_debris, sample.frames)),
        CellView::Fixed3(average_thousandths(sample.raster_timings.player_particles, sample.frames)),
        CellView::Fixed3(average_thousandths(sample.raster_timings.player_other, sample.frames)),
        CellView::Fixed3(average_thousandths(sample.raster_timings.other_frames, sample.frames)),
        CellView::Fixed3(average_thousandths(sample.raster_timings.overview_refresh, sample.frames)),
        CellView::Fixed3(average_thousandths(sample.raster_timings.overview_blit, sample.frames)),
        CellView::Fixed3(average_thousandths(sample.raster_timings.overview_live, sample.frames)),
        CellView::Fixed3(average_thousandths(sample.raster_timings.image, sample.frames)),
        CellView::Fixed3(average_thousandths((sample.step_time + sample.render_time + sample.present_time) as u128, sample.frames)),
        CellView::Fixed3(percentile_thousandths(sample.total_samples@, 50)),
        CellView::Fixed3(percentile_thousandths(sample.total_samples@, 95)),
        CellView::Fixed3(percentile_thousandths(sample.total_samples@, 99)),
        CellView::Fixed3(thousandths(sample.max_total_time as nat, 1_000_000)),
    ]
}

/// The row for one measured second of `scenario`. `raster_scale_label` is
/// the raster scale as the report writes it.
pub fn benchmark_row(
    scenario: &str,
    second: u64,
    renderer: RenderBackend,
    raster_scale_label: &str,
    sample: &BenchmarkSample,
    counts: &BenchmarkCounts,
) -> (cells: Vec<CsvCell>)
    requires
        sample_bounded(*sample),
    ensures
        cells@.map_values(|c: CsvCell| cell_view(c)) == row_cells(
            scenario@,
            second,
            renderer,
            raster_scale_label@,
            *sample,
            *counts,
        ),
{
    let measured = sample.step_time + sample.render_time + sample.present_time;
    let mut cells: Vec<CsvCell> = Vec::new();
    cells.push(CsvCell::Text(crate::text::owned(scenario)));
    cells.push(CsvCell::Text(crate::text::owned(renderer.label())));
    cells.push(CsvCell::Text(crate::text::owned(raster_scale_label)));
    cells.push(CsvCell::Count(second as u128));
    cells.push(CsvCell::Count(sample.frames as u128));
    cells.push(CsvCell::Count(sample.updates as u128));
    cells.push(CsvCell::Fixed2(throughput(sample.frames, sample.wall_time)));
    cells.push(CsvCell::Count(sample.scene_items as u128));
    cells.push(CsvCell::Count(counts.asteroids as u128));
    cells.push(CsvCell::Count(counts.fragments as u128));
    cells.push(CsvCell::Count(counts.shells as u128));
    cells.push(CsvCell::Count(counts.particles as u128));
    cells.push(CsvCell::Count(counts.balls as u128));
    cells.push(CsvCell::Count(counts.gravity_sources as u128));
    cells.push(CsvCell::Count(counts.gravity_targets as u128));
    cells.push(CsvCell::Count(counts.gravity_nodes as u128));
    cells.push(CsvCell::Count(counts.gravity_exact_interactions as u128));
    cells.push(CsvCell::Count(counts.gravity_approximations as u128));
    cells.push(CsvCell::Count(counts.gravity_applied_sources as u128));
    cells.push(CsvCell::Count(counts.active_bodies as u128));
    cells.push(CsvCell::Count(counts.sleeping_bodies as u128));
    cells.push(CsvCell::Count(counts.candidate_pairs as u128));
    cells.push(CsvCell::Count(sample.max_candidate_pairs as u128));
    cells.push(CsvCell::Count(counts.contact_pairs as u128));
    cells.push(CsvCell::Count(sample.max_contact_pairs as u128));
    cells.push(CsvCell::Count(counts.contacts as u128));
    cells.push(CsvCell::Count(sample.max_contacts as u128));
    cells.push(CsvCell::Count(sample.scenario_metrics.added as u128));
    cells.push(CsvCell::Count(sample.scenario_metrics.removed as u128));
    cells.push(CsvCell::Fixed3(average(sample.step_time, sample.frames)));
    cells.push(CsvCell::Fixed3(percentile(&sample.step_samples, 50)));
    cells.push(CsvCell::Fixed3(percentile(&sample.step_samples, 95)));
    cells.push(CsvCell::Fixed3(percentile(&sample.step_samples, 99)));
    cells.push(CsvCell::Fixed3(largest(&sample.step_samples)));
    cells.push(CsvCell::Fixed3(average(sample.scenario_metrics.workload_time, sample.frames)));
    cells.push(CsvCell::Fixed3(average(sample.scenario_metrics.lifecycle_time, sample.frames)));
    cells.push(CsvCell::Fixed3(thousandths_of(sample.max_lifecycle_time, 1_000_000)));
    cells.push(CsvCell::Fixed3(average(sample.scenario_metrics.gravity_time, sample.frames)));
    cells.push(CsvCell::Fixed3(average(sample.scenario_metrics.gravity_validation_time, sample.frames)));
    cells.push(CsvCell::Fixed3(average(sample.scenario_metrics.gravity_build_time, sample.frames)));
    cells.push(CsvCell::Fixed3(average(sample.scenario_metrics.gravity_aggregation_time, sample.frames)));
    cells.push(CsvCell::Fixed3(average(sample.scenario_metrics.gravity_traversal_time, sample.frames)));
    cells.push(CsvCell::Fixed3(average(sample.scenario_metrics.collision_time, sample.frames)));
    cells.push(CsvCell::Fixed3(average(sample.scenario_metrics.physics_time, sample.frames)));
    cells.push(CsvCell::Fixed3(average(sample.scenario_metrics.snapshot_time, sample.frames)));
    cells.push(CsvCell::Fixed3(average(sample.scenario_metrics.rapier_step_time, sample.frames)));
    cells.push(CsvCell::Fixed3(average(sample.scenario_metrics.rapier_update_time, sample.frames)));
    cells.push(CsvCell::Fixed3(average(sample.scenario_metrics.rapier_user_changes_time, sample.frames)));
    cells.push(CsvCell::Fixed3(average(sample.scenario_metrics.rapier_kinematic_interpolation_time, sample.frames)));
    cells.push(CsvCell::Fixed3(average(sample.scenario_metrics.rapier_collision_detection_time, sample.frames)));
    cells.push(CsvCell::Fixed3(average(sample.scenario_metrics.rapier_broad_phase_time, sample.frames)));
    cells.push(CsvCell::Fixed3(average(sample.scenario_metrics.rapier_final_broad_phase_time, sample.frames)));
    cells.push(CsvCell::Fixed3(average(sample.scenario_metrics.rapier_narrow_phase_time, sample.frames)));
    cells.push(CsvCell::Fixed3(average(sample.scenario_metrics.rapier_island_time, sample.frames)));
    cells.push(CsvCell::Fixed3(average(sample.scenario_metrics.rapier_island_constraints_time, sample.frames)));
    cells.push(CsvCell::Fixed3(average(sample.scenario_metrics.rapier_solver_time, sample.frames)));
    cells.push(CsvCell::Fixed3(average(sample.scenario_metrics.rapier_ccd_time, sample.frames)));
    cells.push(CsvCell::Fixed3(average(sample.render_time, sample.frames)));
    cells.push(CsvCell::Fixed3(average(sample.present_time, sample.frames)));
    cells.push(CsvCell::Fixed3(average(sample.raster_timings.clear, sample.frames)));
    cells.push(CsvCell::Fixed3(average(sample.raster_timings.player_views, sample.frames)));
    cells.push(CsvCell::Fixed3(average(sample.raster_timings.player_starfield, sample.frames)));
    cells.push(CsvCell::Fixed3(average(sample.raster_timings.player_bodies, sample.frames)));
    cells.push(CsvCell::Fixed3(average(sample.raster_timings.player_world, sample.frames)));
    cells.push(CsvCell::Fixed3(average(sample.raster_timings.player_sun_planets, sample.frames)));
    cells.push(CsvCell::Fixed3(average(sample.raster_timings.player_spaceports, sample.frames)));
    cells.push(CsvCell::Fixed3(average(sample.raster_timings.player_effects, sample.frames)));
    cells.push(CsvCell::Fixed3(average(sample.raster_timings.player_ships, sample.frames)));
    cells.push(CsvCell::Fixed3(average(sample.raster_timings.player_debris, sample.frames)));
    cells.push(CsvCell::Fixed3(average(sample.raster_timings.player_particles, sample.frames)));
    cells.push(CsvCell::Fixed3(average(sample.raster_timings.player_other, sample.frames)));
    cells.push(CsvCell::Fixed3(average(sample.raster_timings.other_frames, sample.frames)));
    cells.push(CsvCell::Fixed3(average(sample.raster_timings.overview_refresh, sample.frames)));
    cells.push(CsvCell::Fixed3(average(sample.raster_timings.overview_blit, sample.frames)));
    cells.push(CsvCell::Fixed3(average(sample.raster_timings.overview_live, sample.frames)));
    cells.push(CsvCell::Fixed3(average(sample.raster_timings.image, sample.frames)));
    cells.push(CsvCell::Fixed3(average(measured, sample.frames)));
    cells.push(CsvCell::Fixed3(percentile(&sample.total_samples, 50)));
    cells.push(CsvCell::Fixed3(percentile(&sample.total_samples, 95)));
    cells.push(CsvCell::Fixed3(percentile(&sample.total_samples, 99)));
    cells.push(CsvCell::Fixed3(thousandths_of(sample.max_total_time, 1_000_000)));
    assert(cells@.map_values(|c: CsvCell| cell_view(c)) =~= row_cells(
        scenario@,
        second,
        renderer,
        raster_scale_label@,
        *sample,
        *counts,
    ));
    cells
}


/// What one measured frame adds to a benchmark second.
#[derive(Debug, Clone, Copy, PartialEq, Eq)]
pub struct FrameMeasurement {
    pub step_time: u64,
    pub metrics: BenchmarkStepMetrics,
    pub counts: BenchmarkCounts,
    pub render_time: u64,
    pub present_time: u64,
    pub scene_items: usize,
    pub raster_timings: RasterTimings,
    pub total_time: u64,
}

impl BenchmarkSample {
    /// Adds one frame: times are summed, the step and frame times kept for
    /// percentiles, peaks raised, and the frame and update counted.
    pub fn record_frame(&mut self, frame: &FrameMeasurement)
        requires
            old(self).step_time + frame.step_time <= MAX_DURATION_NANOS,
            old(self).render_time + frame.render_time <= MAX_DURATION_NANOS,
            old(self).present_time + frame.present_time <= MAX_DURATION_NANOS,
            old(self).frames < u32::MAX,
            old(self).updates < u32::MAX,
            crate::raster::timings_bounded(old(self).raster_timings),
            crate::raster::timings_bounded(frame.raster_timings),
            crate::raster::timings_bounded(crate::raster::sum_timings(old(self).raster_timings, frame.raster_timings)),
            metrics_sum_fits(old(self).scenario_metrics, frame.metrics),
        ensures
            final(self).step_time == old(self).step_time + frame.step_time,
            final(self).render_time == old(self).render_time + frame.render_time,
            final(self).present_time == old(self).present_time + frame.present_time,
            final(self).step_samples@ == old(self).step_samples@.push(frame.step_time),
            final(self).total_samples@ == old(self).total_samples@.push(frame.total_time),
            final(self).scenario_metrics == sum_metrics(old(self).scenario_metrics, frame.metrics),
            final(self).raster_timings == crate::raster::sum_timings(old(self).raster_timings, frame.raster_timings),
            final(self).max_lifecycle_time == if frame.metrics.lifecycle_time > old(self).max_lifecycle_time {
                frame.metrics.lifecycle_time
            } else {
                old(self).max_lifecycle_time
            },
            final(self).max_candidate_pairs == if frame.counts.candidate_pairs > old(self).max_candidate_pairs {
                frame.counts.candidate_pairs
            } else {
                old(self).max_candidate_pairs
            },
            final(self).max_contact_pairs == if frame.counts.contact_pairs > old(self).max_contact_pairs {
                frame.counts.contact_pairs
            } else {
                old(self).max_contact_pairs
            },
            final(self).max_contacts == if frame.counts.contacts > old(self).max_contacts {
                frame.counts.contacts
            } else {
                old(self).max_contacts
            },
            final(self).max_total_time == if frame.total_time > old(self).max_total_time {
                frame.total_time as u128
            } else {
                old(self).max_total_time
            },
            final(self).scene_items == frame.scene_items,
            final(self).frames == old(self).frames + 1,
            final(self).updates == old(self).updates + 1,
            final(self).wall_time == old(self).wall_time,
    {
        self.step_time = self.step_time + frame.step_time as u128;
        self.step_samples.push(frame.step_time);
        if frame.metrics.lifecycle_time > self.max_lifecycle_time {
            self.max_lifecycle_time = frame.metrics.lifecycle_time;
        }
        self.scenario_metrics = add_metrics(self.scenario_metrics, frame.metrics);
        if frame.counts.candidate_pairs > self.max_candidate_pairs {
            self.max_candidate_pairs = frame.counts.candidate_pairs;
        }
        if frame.counts.contact_pairs > self.max_contact_pairs {
            self.max_contact_pairs = frame.counts.contact_pairs;
        }
        if frame.counts.contacts > self.max_contacts {
            self.max_contacts = frame.counts.contacts;
        }
        self.render_time = self.render_time + frame.render_time as u128;
        self.scene_items = frame.scene_items;
        self.raster_timings.add_assign(frame.raster_timings);
        self.present_time = self.present_time + frame.present_time as u128;
        self.frames = self.frames + 1;
        self.updates = self.updates + 1;
        if frame.total_time as u128 > self.max_total_time {
            self.max_total_time = frame.total_time as u128;
        }
        self.total_samples.push(frame.total_time);
    }
}

/// The metrics can be added without leaving the range of durations.
pub open spec fn metrics_sum_fits(a: BenchmarkStepMetrics, b: BenchmarkStepMetrics) -> bool {
    &&& a.added + b.added <= usize::MAX
    &&& a.removed + b.removed <= usize::MAX
    &&& a.workload_time + b.workload_time <= MAX_DURATION_NANOS
    &&& a.lifecycle_time + b.lifecycle_time <= MAX_DURATION_NANOS
    &&& a.gravity_time + b.gravity_time <= MAX_DURATION_NANOS
    &&& a.gravity_validation_time + b.gravity_validation_time <= MAX_DURATION_NANOS
    &&& a.gravity_build_time + b.gravity_build_time <= MAX_DURATION_NANOS
    &&& a.gravity_aggregation_time + b.gravity_aggregation_time <= MAX_DURATION_NANOS
    &&& a.gravity_traversal_time + b.gravity_traversal_time <= MAX_DURATION_NANOS
    &&& a.collision_time + b.collision_time <= MAX_DURATION_NANOS
    &&& a.physics_time + b.physics_time <= MAX_DURATION_NANOS
    &&& a.snapshot_time + b.snapshot_time <= MAX_DURATION_NANOS
    &&& a.rapier_step_time + b.rapier_step_time <= MAX_DURATION_NANOS
    &&& a.rapier_update_time + b.rapier_update_time <= MAX_DURATION_NANOS
    &&& a.rapier_user_changes_time + b.rapier_user_changes_time <= MAX_DURATION_NANOS
    &&& a.rapier_kinematic_interpolation_time + b.rapier_kinematic_interpolation_time <= MAX_DURATION_NANOS
    &&& a.rapier_collision_detection_time + b.rapier_collision_detection_time <= MAX_DURATION_NANOS
    &&& a.rapier_broad_phase_time + b.rapier_broad_phase_time <= MAX_DURATION_NANOS
    &&& a.rapier_final_broad_phase_time + b.rapier_final_broad_phase_time <= MAX_DURATION_NANOS
    &&& a.rapier_narrow_phase_time + b.rapier_narrow_phase_time <= MAX_DURATION_NANOS
    &&& a.rapier_island_time + b.rapier_island_time <= MAX_DURATION_NANOS
    &&& a.rapier_island_constraints_time + b.rapier_island_constraints_time <= MAX_DURATION_NANOS
    &&& a.rapier_solver_time + b.rapier_solver_time <= MAX_DURATION_NANOS
    &&& a.rapier_ccd_time + b.rapier_ccd_time <= MAX_DURATION_NANOS
}

/// Two sets of metrics added field by field.
pub open spec fn sum_metrics(a: BenchmarkStepMetrics, b: BenchmarkStepMetrics) -> BenchmarkStepMetrics {
    BenchmarkStepMetrics {
        added: (a.added + b.added) as usize,
        removed: (a.removed + b.removed) as usize,
        workload_time: (a.workload_time + b.workload_time) as u128,
        lifecycle_time: (a.lifecycle_time + b.lifecycle_time) as u128,
        gravity_time: (a.gravity_time + b.gravity_time) as u128,
        gravity_validation_time: (a.gravity_validation_time + b.gravity_validation_time) as u128,
        gravity_build_time: (a.gravity_build_time + b.gravity_build_time) as u128,
        gravity_aggregation_time: (a.gravity_aggregation_time + b.gravity_aggregation_time) as u128,
        gravity_traversal_time: (a.gravity_traversal_time + b.gravity_traversal_time) as u128,
        collision_time: (a.collision_time + b.collision_time) as u128,
        physics_time: (a.physics_time + b.physics_time) as u128,
        snapshot_time: (a.snapshot_time + b.snapshot_time) as u128,
        rapier_step_time: (a.rapier_step_time + b.rapier_step_time) as u128,
        rapier_update_time: (a.rapier_update_time + b.rapier_update_time) as u128,
        rapier_user_changes_time: (a.rapier_user_changes_time + b.rapier_user_changes_time) as u128,
        rapier_kinematic_interpolation_time: (a.rapier_kinematic_interpolation_time + b.rapier_kinematic_interpolation_time) as u128,
        rapier_collision_detection_time: (a.rapier_collision_detection_time + b.rapier_collision_detection_time) as u128,
        rapier_broad_phase_time: (a.rapier_broad_phase_time + b.rapier_broad_phase_time) as u128,
        rapier_final_broad_phase_time: (a.rapier_final_broad_phase_time + b.rapier_final_broad_phase_time) as u128,
        rapier_narrow_phase_time: (a.rapier_narrow_phase_time + b.rapier_narrow_phase_time) as u128,
        rapier_island_time: (a.rapier_island_time + b.rapier_island_time) as u128,
        rapier_island_constraints_time: (a.rapier_island_constraints_time + b.rapier_island_constraints_time) as u128,
        rapier_solver_time: (a.rapier_solver_time + b.rapier_solver_time) as u128,
        rapier_ccd_time: (a.rapier_ccd_time + b.rapier_ccd_time) as u128,
    }
}

fn add_metrics(a: BenchmarkStepMetrics, b: BenchmarkStepMetrics) -> (sum: BenchmarkStepMetrics)
    requires
        metrics_sum_fits(a, b),
    ensures
        sum == sum_metrics(a, b),
{
    BenchmarkStepMetrics {
        added: a.added + b.added,
        removed: a.removed + b.removed,
        workload_time: a.workload_time + b.workload_time,
        lifecycle_time: a.lifecycle_time + b.lifecycle_time,
        gravity_time: a.gravity_time + b.gravity_time,
        gravity_validation_time: a.gravity_validation_time + b.gravity_validation_time,
        gravity_build_time: a.gravity_build_time + b.gravity_build_time,
        gravity_aggregation_time: a.gravity_aggregation_time + b.gravity_aggregation_time,
        gravity_traversal_time: a.gravity_traversal_time + b.gravity_traversal_time,
        collision_time: a.collision_time + b.collision_time,
        physics_time: a.physics_time + b.physics_time,
        snapshot_time: a.snapshot_time + b.snapshot_time,
        rapier_step_time: a.rapier_step_time + b.rapier_step_time,
        rapier_update_time: a.rapier_update_time + b.rapier_update_time,
        rapier_user_changes_time: a.rapier_user_changes_time + b.rapier_user_changes_time,
        rapier_kinematic_interpolation_time: a.rapier_kinematic_interpolation_time + b.rapier_kinematic_interpolation_time,
        rapier_collision_detection_time: a.rapier_collision_detection_time + b.rapier_collision_detection_time,
        rapier_broad_phase_time: a.rapier_broad_phase_time + b.rapier_broad_phase_time,
        rapier_final_broad_phase_time: a.rapier_final_broad_phase_time + b.rapier_final_broad_phase_time,
        rapier_narrow_phase_time: a.rapier_narrow_phase_time + b.rapier_narrow_phase_time,
        rapier_island_time: a.rapier_island_time + b.rapier_island_time,
        rapier_island_constraints_time: a.rapier_island_constraints_time + b.rapier_island_constraints_time,
        rapier_solver_time: a.rapier_solver_time + b.rapier_solver_time,
        rapier_ccd_time: a.rapier_ccd_time + b.rapier_ccd_time,
    }
}


/// The report's column names, in header order.
pub open spec fn header_names() -> Seq<Seq<char>> {
    seq![
        "scenario"@, "renderer"@, "raster_scale"@, "second"@, "frames"@, "updates"@,
        "throughput_fps"@, "scene_items"@, "asteroids"@, "fragments"@, "shells"@, "particles"@,
        "balls"@, "gravity_sources"@, "gravity_targets"@, "gravity_nodes"@,
        "gravity_exact_interactions"@, "gravity_approximations"@, "gravity_applied_sources"@,
        "active_bodies"@, "sleeping_bodies"@, "candidate_pairs"@, "max_candidate_pairs"@,
        "contact_pairs"@, "max_contact_pairs"@, "solver_contacts"@, "max_solver_contacts"@,
        "added"@, "removed"@, "avg_step_ms"@, "p50_step_ms"@, "p95_step_ms"@, "p99_step_ms"@,
        "max_step_ms"@, "avg_workload_ms"@, "avg_lifecycle_ms"@, "max_lifecycle_ms"@,
        "avg_gravity_ms"@, "avg_gravity_validation_ms"@, "avg_gravity_build_ms"@,
        "avg_gravity_aggregation_ms"@, "avg_gravity_traversal_ms"@, "avg_collision_ms"@,
        "avg_physics_ms"@, "avg_snapshot_ms"@, "avg_rapier_step_ms"@, "avg_rapier_update_ms"@,
        "avg_rapier_user_changes_ms"@, "avg_rapier_kinematic_interpolation_ms"@,
        "avg_rapier_collision_detection_ms"@, "avg_rapier_broad_phase_ms"@,
        "avg_rapier_final_broad_phase_ms"@, "avg_rapier_narrow_phase_ms"@, "avg_rapier_island_ms"@,
        "avg_rapier_island_constraints_ms"@, "avg_rapier_solver_ms"@, "avg_rapier_ccd_ms"@,
        "avg_render_ms"@, "avg_present_ms"@, "avg_raster_clear_ms"@, "avg_raster_player_ms"@,
        "avg_raster_player_starfield_ms"@, "avg_raster_player_bodies_ms"@,
        "avg_raster_player_world_ms"@, "avg_raster_player_sun_planets_ms"@,
        "avg_raster_player_spaceports_ms"@, "avg_raster_player_effects_ms"@,
        "avg_raster_player_ships_ms"@, "avg_raster_player_debris_ms"@,
        "avg_raster_player_particles_ms"@, "avg_raster_player_other_ms"@,
        "avg_raster_other_frames_ms"@, "avg_raster_overview_refresh_ms"@,
        "avg_raster_overview_blit_ms"@, "avg_raster_overview_live_ms"@, "avg_raster_image_ms"@,
        "avg_total_ms"@, "p50_total_ms"@, "p95_total_ms"@, "p99_total_ms"@, "max_total_ms"@,
    ]
}

/// The header row: one text cell per column name.
pub open spec fn header_cells() -> Seq<CellView> {
    header_names().map_values(|name: Seq<char>| CellView::Text(name))
}

/// The header row's cells.
pub fn benchmark_header_cells() -> (cells: Vec<CsvCell>)
    ensures
        cells@.map_values(|c: CsvCell| cell_view(c)) == header_cells(),
{
    let names: Vec<&'static str> = vec![
        "scenario", "renderer", "raster_scale", "second", "frames", "updates", "throughput_fps",
        "scene_items", "asteroids", "fragments", "shells", "particles", "balls", "gravity_sources",
        "gravity_targets", "gravity_nodes", "gravity_exact_interactions", "gravity_approximations",
        "gravity_applied_sources", "active_bodies", "sleeping_bodies", "candidate_pairs",
        "max_candidate_pairs", "contact_pairs", "max_contact_pairs", "solver_contacts",
        "max_solver_contacts", "added", "removed", "avg_step_ms", "p50_step_ms", "p95_step_ms",
        "p99_step_ms", "max_step_ms", "avg_workload_ms", "avg_lifecycle_ms", "max_lifecycle_ms",
        "avg_gravity_ms", "avg_gravity_validation_ms", "avg_gravity_build_ms",
        "avg_gravity_aggregation_ms", "avg_gravity_traversal_ms", "avg_collision_ms",
        "avg_physics_ms", "avg_snapshot_ms", "avg_rapier_step_ms", "avg_rapier_update_ms",
        "avg_rapier_user_changes_ms", "avg_rapier_kinematic_interpolation_ms",
        "avg_rapier_collision_detection_ms", "avg_rapier_broad_phase_ms",
        "avg_rapier_final_broad_phase_ms", "avg_rapier_narrow_phase_ms", "avg_rapier_island_ms",
        "avg_rapier_island_constraints_ms", "avg_rapier_solver_ms", "avg_rapier_ccd_ms",
        "avg_render_ms", "avg_present_ms", "avg_raster_clear_ms", "avg_raster_player_ms",
        "avg_raster_player_starfield_ms", "avg_raster_player_bodies_ms",
        "avg_raster_player_world_ms", "avg_raster_player_sun_planets_ms",
        "avg_raster_player_spaceports_ms", "avg_raster_player_effects_ms",
        "avg_raster_player_ships_ms", "avg_raster_player_debris_ms",
        "avg_raster_player_particles_ms", "avg_raster_player_other_ms",
        "avg_raster_other_frames_ms", "avg_raster_overview_refresh_ms",
        "avg_raster_overview_blit_ms", "avg_raster_overview_live_ms", "avg_raster_image_ms",
        "avg_total_ms", "p50_total_ms", "p95_total_ms", "p99_total_ms", "max_total_ms",
    ];
    assert(names@.map_values(|n: &'static str| n@) =~= header_names());
    let mut cells: Vec<CsvCell> = Vec::new();
    let mut i: usize = 0;
    while i < names.len()
        invariant
            i <= names@.len(),
            cells@.len() == i,
            names@.map_values(|n: &'static str| n@) == header_names(),
            cells@.map_values(|c: CsvCell| cell_view(c)) == header_cells().take(i as int),
        decreases names@.len() - i,
    {
        let ghost before = cells@;
        let name = crate::text::owned(names[i]);
        cells.push(CsvCell::Text(name));
        proof {
            assert(names@.map_values(|n: &'static str| n@)[i as int] == names@[i as int]@);
            assert(cell_view(cells@[i as int]) == CellView::Text(header_names()[i as int]));
            assert(header_cells()[i as int] == CellView::Text(header_names()[i as int]));
            assert(cells@.map_values(|c: CsvCell| cell_view(c)) =~= before.map_values(
                |c: CsvCell| cell_view(c),
            ).push(cell_view(cells@[i as int])));
            assert(header_cells().take(i as int + 1) =~= header_cells().take(i as int).push(
                header_cells()[i as int],
            ));
        }
        i = i + 1;
    }
    assert(header_cells().take(header_cells().len() as int) =~= header_cells());
    cells
}

/// Number of commas in `s`.
pub open spec fn comma_count(s: Seq<char>) -> nat
    decreases s.len(),
{
    if s.len() == 0 {
        0
    } else {
        comma_count(s.drop_last()) + if s.last() == ',' { 1nat } else { 0nat }
    }
}

proof fn lemma_comma_count_concat(a: Seq<char>, b: Seq<char>)
    ensures
        comma_count(a + b) == comma_count(a) + comma_count(b),
    decreases b.len(),
{
    if b.len() == 0 {
        assert(a + b =~= a);
    } else {
        lemma_comma_count_concat(a, b.drop_last());
        assert((a + b).drop_last() =~= a + b.drop_last());
    }
}

proof fn lemma_comma_free(s: Seq<char>)
    requires
        !s.contains(','),
    ensures
        comma_count(s) == 0,
    decreases s.len(),
{
    if s.len() > 0 {
        assert(!s.drop_last().contains(',')) by {
            if s.drop_last().contains(',') {
                let i = choose|i: int| 0 <= i < s.drop_last().len() && s.drop_last()[i] == ',';
                assert(s[i] == ',');
            }
        }
        assert(s[s.len() - 1] == s.last());
        lemma_comma_free(s.drop_last());
    }
}

proof fn lemma_digit_char_is_digit(d: nat)
    ensures
        crate::text::is_digit(digit_char(d)),
{
}

/// The texts of numbers hold only digits and a decimal point.
proof fn lemma_number_texts_free_of(n: nat, c: char)
    requires
        c != '.',
        !crate::text::is_digit(c),
    ensures
        !decimal(n).contains(c),
        !fixed2(n).contains(c),
        !fixed3(n).contains(c),
{
    crate::text::lemma_decimal_reads_back(n / 100);
    crate::text::lemma_decimal_reads_back(n / 1000);
    crate::text::lemma_decimal_reads_back(n);
    assert forall|m: nat, i: int| 0 <= i < decimal(m).len() && crate::text::all_digits(decimal(m))
        implies #[trigger] decimal(m)[i] != c by {
        assert(crate::text::is_digit(decimal(m)[i]));
    }
    lemma_digit_char_is_digit(n / 10 % 10);
    lemma_digit_char_is_digit(n % 10);
    lemma_digit_char_is_digit(n / 100 % 10);
    let f2 = fixed2(n);
    let f3 = fixed3(n);
    let d2 = decimal(n / 100);
    let d3 = decimal(n / 1000);
    assert forall|i: int| 0 <= i < f2.len() implies f2[i] != c by {
        if i < d2.len() {
            assert(f2[i] == d2[i]);
        }
    }
    assert forall|i: int| 0 <= i < f3.len() implies f3[i] != c by {
        if i < d3.len() {
            assert(f3[i] == d3[i]);
        }
    }
}

/// The comma-separated fields of `s`, in order (one empty field for an empty
/// text).
pub open spec fn comma_fields(s: Seq<char>) -> Seq<Seq<char>>
    decreases s.len(),
{
    if s.len() == 0 {
        seq![Seq::<char>::empty()]
    } else {
        let fields = comma_fields(s.drop_last());
        if s.last() == ',' {
            fields.push(Seq::<char>::empty())
        } else {
            fields.update(fields.len() - 1, fields.last().push(s.last()))
        }
    }
}

proof fn lemma_comma_fields_nonempty(s: Seq<char>)
    ensures
        comma_fields(s).len() >= 1,
    decreases s.len(),
{
    if s.len() > 0 {
        lemma_comma_fields_nonempty(s.drop_last());
    }
}

/// Appending comma-free text extends the last field.
proof fn lemma_comma_fields_extend(a: Seq<char>, b: Seq<char>)
    requires
        !b.contains(','),
    ensures
        comma_fields(a + b) == comma_fields(a).update(
            comma_fields(a).len() - 1,
            comma_fields(a).last() + b,
        ),
    decreases b.len(),
{
    lemma_comma_fields_nonempty(a);
    if b.len() == 0 {
        assert(a + b =~= a);
        assert(comma_fields(a).last() + b =~= comma_fields(a).last());
        assert(comma_fields(a).update(comma_fields(a).len() - 1, comma_fields(a).last())
            =~= comma_fields(a));
    } else {
        let b0 = b.drop_last();
        assert(!b0.contains(',')) by {
            if b0.contains(',') {
                let i = choose|i: int| 0 <= i < b0.len() && b0[i] == ',';
                assert(b[i] == ',');
            }
        }
        assert(b[b.len() - 1] == b.last());
        lemma_comma_fields_extend(a, b0);
        assert((a + b).drop_last() =~= a + b0);
        assert((a + b).last() == b.last());
        let f = comma_fields(a);
        assert((f.last() + b0).push(b.last()) =~= f.last() + b);
        assert(comma_fields(a + b) =~= f.update(f.len() - 1, f.last() + b));
    }
}

/// A comma starts a new, empty field.
proof fn lemma_comma_fields_comma(a: Seq<char>)
    ensures
        comma_fields(a + ","@) == comma_fields(a).push(Seq::<char>::empty()),
{
    reveal_strlit(",");
    assert((a + ","@).drop_last() =~= a);
    assert((a + ","@).last() == ',');
}

/// The texts of comma-free cells joined with commas split back into those
/// texts.
proof fn lemma_row_fields(cells: Seq<CellView>)
    requires
        cells.len() > 0,
        forall|i: int| 0 <= i < cells.len() ==> comma_free_cell(#[trigger] cells[i]),
    ensures
        comma_fields(row_text(cells)) == cells.map_values(|c: CellView| cell_text(c)),
        !row_text(cells).contains('\n'),
    decreases cells.len(),
{
    reveal_strlit(",");
    let last = cells.last();
    assert(comma_free_cell(cells[cells.len() - 1]));
    if cells.len() == 1 {
        assert(comma_free_cell(cells[0]));
        lemma_comma_fields_extend(Seq::<char>::empty(), cell_text(cells[0]));
        assert(Seq::<char>::empty() + cell_text(cells[0]) =~= cell_text(cells[0]));
        assert(comma_fields(Seq::<char>::empty()) =~= seq![Seq::<char>::empty()]);
        assert(comma_fields(cell_text(cells[0])) =~= seq![cell_text(cells[0])]);
        assert(cells.map_values(|c: CellView| cell_text(c)) =~= seq![cell_text(cells[0])]);
    } else {
        let rest = cells.drop_last();
        assert forall|i: int| 0 <= i < rest.len() implies comma_free_cell(#[trigger] rest[i]) by {
            assert(comma_free_cell(cells[i]));
        }
        lemma_row_fields(rest);
        let head = row_text(rest) + ","@;
        lemma_comma_fields_comma(row_text(rest));
        lemma_comma_fields_extend(head, cell_text(last));
        let f = comma_fields(row_text(rest)).push(Seq::<char>::empty());
        assert(Seq::<char>::empty() + cell_text(last) =~= cell_text(last));
        assert(f.update(f.len() - 1, cell_text(last)) =~= comma_fields(row_text(rest)).push(
            cell_text(last),
        ));
        assert(cells.map_values(|c: CellView| cell_text(c)) =~= rest.map_values(
            |c: CellView| cell_text(c),
        ).push(cell_text(last)));
        let whole = row_text(cells);
        assert(whole == head + cell_text(last));
        assert(!whole.contains('\n')) by {
            if whole.contains('\n') {
                let i = choose|i: int| 0 <= i < whole.len() && whole[i] == '\n';
                if i < row_text(rest).len() {
                    assert(row_text(rest)[i] == '\n');
                } else if i == row_text(rest).len() {
                    assert(whole[i] == ',');
                } else {
                    assert(cell_text(last)[i - head.len()] == '\n');
                }
            }
        }
    }
}

/// A cell whose text holds no comma and no line break.
pub open spec fn comma_free_cell(cell: CellView) -> bool {
    !cell_text(cell).contains(',') && !cell_text(cell).contains('\n')
}

proof fn lemma_row_commas(cells: Seq<CellView>)
    requires
        cells.len() > 0,
        forall|i: int| 0 <= i < cells.len() ==> comma_free_cell(#[trigger] cells[i]),
    ensures
        comma_count(row_text(cells)) == cells.len() - 1,
    decreases cells.len(),
{
    reveal_strlit(",");
    assert(comma_free_cell(cells[cells.len() - 1]));
    lemma_comma_free(cell_text(cells.last()));
    if cells.len() == 1 {
        assert(comma_free_cell(cells[0]));
        lemma_comma_free(cell_text(cells[0]));
    } else {
        let rest = cells.drop_last();
        assert forall|i: int| 0 <= i < rest.len() implies comma_free_cell(#[trigger] rest[i]) by {
            assert(comma_free_cell(cells[i]));
        }
        lemma_row_commas(rest);
        lemma_comma_count_concat(row_text(rest), ","@);
        lemma_comma_count_concat(row_text(rest) + ","@, cell_text(cells.last()));
        assert(comma_count(","@) == 1) by {
            assert(","@.drop_last() =~= Seq::<char>::empty());
            assert(comma_count(Seq::<char>::empty()) == 0);
        }
    }
}

#[verifier::rlimit(100)]
#[verifier::spinoff_prover]
proof fn lemma_header_names_comma_free()
    ensures
        forall|k: int| 0 <= k < header_cells().len() ==> comma_free_cell(#[trigger] header_cells()[k]),
{
    reveal_strlit("scenario");
    assert(!"scenario"@.contains(','));
    assert(!"scenario"@.contains('\n'));
    reveal_strlit("renderer");
    assert(!"renderer"@.contains(','));
    assert(!"renderer"@.contains('\n'));
    reveal_strlit("raster_scale");
    assert(!"raster_scale"@.contains(','));
    assert(!"raster_scale"@.contains('\n'));
    reveal_strlit("second");
    assert(!"second"@.contains(','));
    assert(!"second"@.contains('\n'));
    reveal_strlit("frames");
    assert(!"frames"@.contains(','));
    assert(!"frames"@.contains('\n'));
    reveal_strlit("updates");
    assert(!"updates"@.contains(','));
    assert(!"updates"@.contains('\n'));
    reveal_strlit("throughput_fps");
    assert(!"throughput_fps"@.contains(','));
    assert(!"throughput_fps"@.contains('\n'));
    reveal_strlit("scene_items");
    assert(!"scene_items"@.contains(','));
    assert(!"scene_items"@.contains('\n'));
    reveal_strlit("asteroids");
    assert(!"asteroids"@.contains(','));
    assert(!"asteroids"@.contains('\n'));
    reveal_strlit("fragments");
    assert(!"fragments"@.contains(','));
    assert(!"fragments"@.contains('\n'));
    reveal_strlit("shells");
    assert(!"shells"@.contains(','));
    assert(!"shells"@.contains('\n'));
    reveal_strlit("particles");
    assert(!"particles"@.contains(','));
    assert(!"particles"@.contains('\n'));
    reveal_strlit("balls");
    assert(!"balls"@.contains(','));
    assert(!"balls"@.contains('\n'));
    reveal_strlit("gravity_sources");
    assert(!"gravity_sources"@.contains(','));
    assert(!"gravity_sources"@.contains('\n'));
    reveal_strlit("gravity_targets");
    assert(!"gravity_targets"@.contains(','));
    assert(!"gravity_targets"@.contains('\n'));
    reveal_strlit("gravity_nodes");
    assert(!"gravity_nodes"@.contains(','));
    assert(!"gravity_nodes"@.contains('\n'));
    reveal_strlit("gravity_exact_interactions");
    assert(!"gravity_exact_interactions"@.contains(','));
    assert(!"gravity_exact_interactions"@.contains('\n'));
    reveal_strlit("gravity_approximations");
    assert(!"gravity_approximations"@.contains(','));
    assert(!"gravity_approximations"@.contains('\n'));
    reveal_strlit("gravity_applied_sources");
    assert(!"gravity_applied_sources"@.contains(','));
    assert(!"gravity_applied_sources"@.contains('\n'));
    reveal_strlit("active_bodies");
    assert(!"active_bodies"@.contains(','));
    assert(!"active_bodies"@.contains('\n'));
    reveal_strlit("sleeping_bodies");
    assert(!"sleeping_bodies"@.contains(','));
    assert(!"sleeping_bodies"@.contains('\n'));
    reveal_strlit("candidate_pairs");
    assert(!"candidate_pairs"@.contains(','));
    assert(!"candidate_pairs"@.contains('\n'));
    reveal_strlit("max_candidate_pairs");
    assert(!"max_candidate_pairs"@.contains(','));
    assert(!"max_candidate_pairs"@.contains('\n'));
    reveal_strlit("contact_pairs");
    assert(!"contact_pairs"@.contains(','));
    assert(!"contact_pairs"@.contains('\n'));
    reveal_strlit("max_contact_pairs");
    assert(!"max_contact_pairs"@.contains(','));
    assert(!"max_contact_pairs"@.contains('\n'));
    reveal_strlit("solver_contacts");
    assert(!"solver_contacts"@.contains(','));
    assert(!"solver_contacts"@.contains('\n'));
    reveal_strlit("max_solver_contacts");
    assert(!"max_solver_contacts"@.contains(','));
    assert(!"max_solver_contacts"@.contains('\n'));
    reveal_strlit("added");
    assert(!"added"@.contains(','));
    assert(!"added"@.contains('\n'));
    reveal_strlit("removed");
    assert(!"removed"@.contains(','));
    assert(!"removed"@.contains('\n'));
    reveal_strlit("avg_step_ms");
    assert(!"avg_step_ms"@.contains(','));
    assert(!"avg_step_ms"@.contains('\n'));
    reveal_strlit("p50_step_ms");
    assert(!"p50_step_ms"@.contains(','));
    assert(!"p50_step_ms"@.contains('\n'));
    reveal_strlit("p95_step_ms");
    assert(!"p95_step_ms"@.contains(','));
    assert(!"p95_step_ms"@.contains('\n'));
    reveal_strlit("p99_step_ms");
    assert(!"p99_step_ms"@.contains(','));
    assert(!"p99_step_ms"@.contains('\n'));
    reveal_strlit("max_step_ms");
    assert(!"max_step_ms"@.contains(','));
    assert(!"max_step_ms"@.contains('\n'));
    reveal_strlit("avg_workload_ms");
    assert(!"avg_workload_ms"@.contains(','));
    assert(!"avg_workload_ms"@.contains('\n'));
    reveal_strlit("avg_lifecycle_ms");
    assert(!"avg_lifecycle_ms"@.contains(','));
    assert(!"avg_lifecycle_ms"@.contains('\n'));
    reveal_strlit("max_lifecycle_ms");
    assert(!"max_lifecycle_ms"@.contains(','));
    assert(!"max_lifecycle_ms"@.contains('\n'));
    reveal_strlit("avg_gravity_ms");
    assert(!"avg_gravity_ms"@.contains(','));
    assert(!"avg_gravity_ms"@.contains('\n'));
    reveal_strlit("avg_gravity_validation_ms");
    assert(!"avg_gravity_validation_ms"@.contains(','));
    assert(!"avg_gravity_validation_ms"@.contains('\n'));
    reveal_strlit("avg_gravity_build_ms");
    assert(!"avg_gravity_build_ms"@.contains(','));
    assert(!"avg_gravity_build_ms"@.contains('\n'));
    reveal_strlit("avg_gravity_aggregation_ms");
    assert(!"avg_gravity_aggregation_ms"@.contains(','));
    assert(!"avg_gravity_aggregation_ms"@.contains('\n'));
    reveal_strlit("avg_gravity_traversal_ms");
    assert(!"avg_gravity_traversal_ms"@.contains(','));
    assert(!"avg_gravity_traversal_ms"@.contains('\n'));
    reveal_strlit("avg_collision_ms");
    assert(!"avg_collision_ms"@.contains(','));
    assert(!"avg_collision_ms"@.contains('\n'));
    reveal_strlit("avg_physics_ms");
    assert(!"avg_physics_ms"@.contains(','));
    assert(!"avg_physics_ms"@.contains('\n'));
    reveal_strlit("avg_snapshot_ms");
    assert(!"avg_snapshot_ms"@.contains(','));
    assert(!"avg_snapshot_ms"@.contains('\n'));
    reveal_strlit("avg_rapier_step_ms");
    assert(!"avg_rapier_step_ms"@.contains(','));
    assert(!"avg_rapier_step_ms"@.contains('\n'));
    reveal_strlit("avg_rapier_update_ms");
    assert(!"avg_rapier_update_ms"@.contains(','));
    assert(!"avg_rapier_update_ms"@.contains('\n'));
    reveal_strlit("avg_rapier_user_changes_ms");
    assert(!"avg_rapier_user_changes_ms"@.contains(','));
    assert(!"avg_rapier_user_changes_ms"@.contains('\n'));
    reveal_strlit("avg_rapier_kinematic_interpolation_ms");
    assert(!"avg_rapier_kinematic_interpolation_ms"@.contains(','));
    assert(!"avg_rapier_kinematic_interpolation_ms"@.contains('\n'));
    reveal_strlit("avg_rapier_collision_detection_ms");
    assert(!"avg_rapier_collision_detection_ms"@.contains(','));
    assert(!"avg_rapier_collision_detection_ms"@.contains('\n'));
    reveal_strlit("avg_rapier_broad_phase_ms");
    assert(!"avg_rapier_broad_phase_ms"@.contains(','));
    assert(!"avg_rapier_broad_phase_ms"@.contains('\n'));
    reveal_strlit("avg_rapier_final_broad_phase_ms");
    assert(!"avg_rapier_final_broad_phase_ms"@.contains(','));
    assert(!"avg_rapier_final_broad_phase_ms"@.contains('\n'));
    reveal_strlit("avg_rapier_narrow_phase_ms");
    assert(!"avg_rapier_narrow_phase_ms"@.contains(','));
    assert(!"avg_rapier_narrow_phase_ms"@.contains('\n'));
    reveal_strlit("avg_rapier_island_ms");
    assert(!"avg_rapier_island_ms"@.contains(','));
    assert(!"avg_rapier_island_ms"@.contains('\n'));
    reveal_strlit("avg_rapier_island_constraints_ms");
    assert(!"avg_rapier_island_constraints_ms"@.contains(','));
    assert(!"avg_rapier_island_constraints_ms"@.contains('\n'));
    reveal_strlit("avg_rapier_solver_ms");
    assert(!"avg_rapier_solver_ms"@.contains(','));
    assert(!"avg_rapier_solver_ms"@.contains('\n'));
    reveal_strlit("avg_rapier_ccd_ms");
    assert(!"avg_rapier_ccd_ms"@.contains(','));
    assert(!"avg_rapier_ccd_ms"@.contains('\n'));
    reveal_strlit("avg_render_ms");
    assert(!"avg_render_ms"@.contains(','));
    assert(!"avg_render_ms"@.contains('\n'));
    reveal_strlit("avg_present_ms");
    assert(!"avg_present_ms"@.contains(','));
    assert(!"avg_present_ms"@.contains('\n'));
    reveal_strlit("avg_raster_clear_ms");
    assert(!"avg_raster_clear_ms"@.contains(','));
    assert(!"avg_raster_clear_ms"@.contains('\n'));
    reveal_strlit("avg_raster_player_ms");
    assert(!"avg_raster_player_ms"@.contains(','));
    assert(!"avg_raster_player_ms"@.contains('\n'));
    reveal_strlit("avg_raster_player_starfield_ms");
    assert(!"avg_raster_player_starfield_ms"@.contains(','));
    assert(!"avg_raster_player_starfield_ms"@.contains('\n'));
    reveal_strlit("avg_raster_player_bodies_ms");
    assert(!"avg_raster_player_bodies_ms"@.contains(','));
    assert(!"avg_raster_player_bodies_ms"@.contains('\n'));
    reveal_strlit("avg_raster_player_world_ms");
    assert(!"avg_raster_player_world_ms"@.contains(','));
    assert(!"avg_raster_player_world_ms"@.contains('\n'));
    reveal_strlit("avg_raster_player_sun_planets_ms");
    assert(!"avg_raster_player_sun_planets_ms"@.contains(','));
    assert(!"avg_raster_player_sun_planets_ms"@.contains('\n'));
    reveal_strlit("avg_raster_player_spaceports_ms");
    assert(!"avg_raster_player_spaceports_ms"@.contains(','));
    assert(!"avg_raster_player_spaceports_ms"@.contains('\n'));
    reveal_strlit("avg_raster_player_effects_ms");
    assert(!"avg_raster_player_effects_ms"@.contains(','));
    assert(!"avg_raster_player_effects_ms"@.contains('\n'));
    reveal_strlit("avg_raster_player_ships_ms");
    assert(!"avg_raster_player_ships_ms"@.contains(','));
    assert(!"avg_raster_player_ships_ms"@.contains('\n'));
    reveal_strlit("avg_raster_player_debris_ms");
    assert(!"avg_raster_player_debris_ms"@.contains(','));
    assert(!"avg_raster_player_debris_ms"@.contains('\n'));
    reveal_strlit("avg_raster_player_particles_ms");
    assert(!"avg_raster_player_particles_ms"@.contains(','));
    assert(!"avg_raster_player_particles_ms"@.contains('\n'));
    reveal_strlit("avg_raster_player_other_ms");
    assert(!"avg_raster_player_other_ms"@.contains(','));
    assert(!"avg_raster_player_other_ms"@.contains('\n'));
    reveal_strlit("avg_raster_other_frames_ms");
    assert(!"avg_raster_other_frames_ms"@.contains(','));
    assert(!"avg_raster_other_frames_ms"@.contains('\n'));
    reveal_strlit("avg_raster_overview_refresh_ms");
    assert(!"avg_raster_overview_refresh_ms"@.contains(','));
    assert(!"avg_raster_overview_refresh_ms"@.contains('\n'));
    reveal_strlit("avg_raster_overview_blit_ms");
    assert(!"avg_raster_overview_blit_ms"@.contains(','));
    assert(!"avg_raster_overview_blit_ms"@.contains('\n'));
    reveal_strlit("avg_raster_overview_live_ms");
    assert(!"avg_raster_overview_live_ms"@.contains(','));
    assert(!"avg_raster_overview_live_ms"@.contains('\n'));
    reveal_strlit("avg_raster_image_ms");
    assert(!"avg_raster_image_ms"@.contains(','));
    assert(!"avg_raster_image_ms"@.contains('\n'));
    reveal_strlit("avg_total_ms");
    assert(!"avg_total_ms"@.contains(','));
    assert(!"avg_total_ms"@.contains('\n'));
    reveal_strlit("p50_total_ms");
    assert(!"p50_total_ms"@.contains(','));
    assert(!"p50_total_ms"@.contains('\n'));
    reveal_strlit("p95_total_ms");
    assert(!"p95_total_ms"@.contains(','));
    assert(!"p95_total_ms"@.contains('\n'));
    reveal_strlit("p99_total_ms");
    assert(!"p99_total_ms"@.contains(','));
    assert(!"p99_total_ms"@.contains('\n'));
    reveal_strlit("max_total_ms");
    assert(!"max_total_ms"@.contains(','));
    assert(!"max_total_ms"@.contains('\n'));
    assert forall|k: int| 0 <= k < header_cells().len() implies comma_free_cell(#[trigger] header_cells()[k]) by {
        assert(header_cells()[k] == CellView::Text(header_names()[k]));
    }
}

proof fn lemma_cell_comma_free(cell: CellView)
    requires
        cell matches CellView::Text(t) ==> !t.contains(',') && !t.contains('\n'),
    ensures
        comma_free_cell(cell),
{
    match cell {
        CellView::Count(n) => {
            lemma_number_texts_free_of(n, ',');
            lemma_number_texts_free_of(n, '\n');
        },
        CellView::Fixed2(n) => {
            lemma_number_texts_free_of(n, ',');
            lemma_number_texts_free_of(n, '\n');
        },
        CellView::Fixed3(n) => {
            lemma_number_texts_free_of(n, ',');
            lemma_number_texts_free_of(n, '\n');
        },
        CellView::Text(t) => {},
    }
}

#[verifier::rlimit(100)]
#[verifier::spinoff_prover]
proof fn lemma_row_cells_comma_free(
    scenario: Seq<char>,
    second: u64,
    renderer: RenderBackend,
    raster_scale_label: Seq<char>,
    sample: BenchmarkSample,
    counts: BenchmarkCounts,
)
    requires
        !scenario.contains(','),
        !scenario.contains('\n'),
        !raster_scale_label.contains(','),
        !raster_scale_label.contains('\n'),
    ensures
        row_cells(scenario, second, renderer, raster_scale_label, sample, counts).len() == 81,
        forall|i: int|
            0 <= i < 81 ==> comma_free_cell(
                #[trigger] row_cells(scenario, second, renderer, raster_scale_label, sample, counts)[i],
            ),
{
    let cells = row_cells(scenario, second, renderer, raster_scale_label, sample, counts);
    reveal_strlit("vector");
    reveal_strlit("raster");
    assert(!crate::launch::renderer_text(renderer).contains(','));
    assert(!crate::launch::renderer_text(renderer).contains('\n'));
    assert forall|i: int| 0 <= i < 81 implies (#[trigger] cells[i] matches CellView::Text(t) ==> !t.contains(',')
        && !t.contains('\n')) by {
        if i >= 3 {
            assert(!(cells[i] is Text));
        }
    }
    assert forall|i: int| 0 <= i < 81 implies comma_free_cell(#[trigger] cells[i]) by {
        lemma_cell_comma_free(cells[i]);
    }
}

/// The header and every row are single lines with equally many
/// comma-separated fields, one per report column, as long as the scenario
/// name and the raster scale label hold no comma and no line break (every
/// other cell is a number or a renderer label). The header's fields are the
/// column names; a row's fields are its cells' texts, beginning with the
/// scenario, the renderer, the raster scale, the second and the frame count.
/// `write_benchmark_row` and `write_benchmark_header` write such a line and
/// one newline after it.
#[verifier::rlimit(100)]
#[verifier::spinoff_prover]
pub proof fn lemma_rows_match_header(
    scenario: Seq<char>,
    second: u64,
    renderer: RenderBackend,
    raster_scale_label: Seq<char>,
    sample: BenchmarkSample,
    counts: BenchmarkCounts,
)
    requires
        !scenario.contains(','),
        !scenario.contains('\n'),
        !raster_scale_label.contains(','),
        !raster_scale_label.contains('\n'),
    ensures
        ({
            let row = row_text(row_cells(scenario, second, renderer, raster_scale_label, sample, counts));
            let header = row_text(header_cells());
            &&& header_cells().len() == 81
            &&& row_cells(scenario, second, renderer, raster_scale_label, sample, counts).len() == 81
            &&& comma_count(header) == 80
            &&& comma_count(row) == 80
            &&& !header.contains('\n')
            &&& !row.contains('\n')
            &&& comma_fields(header) == header_names()
            &&& comma_fields(row).len() == 81
            &&& comma_fields(row)[0] == scenario
            &&& comma_fields(row)[1] == crate::launch::renderer_text(renderer)
            &&& comma_fields(row)[2] == raster_scale_label
            &&& comma_fields(row)[3] == decimal(second as nat)
            &&& comma_fields(row)[4] == decimal(sample.frames as nat)
        }),
{
    lemma_row_line(scenario, second, renderer, raster_scale_label, sample, counts);
    lemma_header_line();
}

#[verifier::rlimit(100)]
#[verifier::spinoff_prover]
proof fn lemma_header_line()
    ensures
        header_cells().len() == 81,
        comma_count(row_text(header_cells())) == 80,
        !row_text(header_cells()).contains('\n'),
        comma_fields(row_text(header_cells())) == header_names(),
{
    lemma_header_names_comma_free();
    lemma_row_commas(header_cells());
    lemma_row_fields(header_cells());
    assert(header_cells().map_values(|c: CellView| cell_text(c)) =~= header_names());
}

#[verifier::rlimit(100)]
#[verifier::spinoff_prover]
proof fn lemma_row_line(
    scenario: Seq<char>,
    second: u64,
    renderer: RenderBackend,
    raster_scale_label: Seq<char>,
    sample: BenchmarkSample,
    counts: BenchmarkCounts,
)
    requires
        !scenario.contains(','),
        !scenario.contains('\n'),
        !raster_scale_label.contains(','),
        !raster_scale_label.contains('\n'),
    ensures
        ({
            let row = row_text(row_cells(scenario, second, renderer, raster_scale_label, sample, counts));
            &&& row_cells(scenario, second, renderer, raster_scale_label, sample, counts).len() == 81
            &&& comma_count(row) == 80
            &&& !row.contains('\n')
            &&& comma_fields(row).len() == 81
            &&& comma_fields(row)[0] == scenario
            &&& comma_fields(row)[1] == crate::launch::renderer_text(renderer)
            &&& comma_fields(row)[2] == raster_scale_label
            &&& comma_fields(row)[3] == decimal(second as nat)
            &&& comma_fields(row)[4] == decimal(sample.frames as nat)
        }),
{
    let cells = row_cells(scenario, second, renderer, raster_scale_label, sample, counts);
    lemma_row_cells_comma_free(scenario, second, renderer, raster_scale_label, sample, counts);
    lemma_row_commas(cells);
    lemma_row_fields(cells);
    let texts = cells.map_values(|c: CellView| cell_text(c));
    assert(texts[0] == cell_text(cells[0]));
    assert(texts[1] == cell_text(cells[1]));
    assert(texts[2] == cell_text(cells[2]));
    assert(texts[3] == cell_text(cells[3]));
    assert(texts[4] == cell_text(cells[4]));
}


/// What the benchmark driver does next.
#[derive(Debug, Clone, Copy, PartialEq, Eq, Structural)]
pub enum BenchmarkStep {
    /// Step, render and present one frame of the current second.
    Frame,
    /// The current second has all its frames: write its row.
    FinishSecond { second: u64 },
    /// Every second has been measured.
    Done,
}

/// The benchmark's schedule: at least one second, each of
/// `FRAMES_PER_SECOND` frames followed by its report row.
pub struct BenchmarkSchedule {
    seconds: u64,
    second: u64,
    frames_done: u32,
    finished: bool,
}

impl BenchmarkSchedule {
    /// Seconds to measure.
    pub closed spec fn seconds_spec(&self) -> u64 {
        self.seconds
    }

    /// The second being measured, counted from one.
    pub closed spec fn second_spec(&self) -> u64 {
        self.second
    }

    /// Frames already measured in the current second.
    pub closed spec fn frames_done_spec(&self) -> u32 {
        self.frames_done
    }

    /// Whether every second has been measured.
    pub closed spec fn finished_spec(&self) -> bool {
        self.finished
    }

    pub closed spec fn wf(&self) -> bool {
        &&& 1 <= self.second <= self.seconds
        &&& self.frames_done <= FRAMES_PER_SECOND
    }

    /// A schedule for `requested` seconds, measuring at least one.
    pub fn new(requested: u64) -> (schedule: Self)
        ensures
            schedule.wf(),
            schedule.seconds_spec() == if requested < 1 { 1 } else { requested },
            schedule.second_spec() == 1,
            schedule.frames_done_spec() == 0,
            !schedule.finished_spec(),
    {
        let seconds = if requested < 1 { 1 } else { requested };
        BenchmarkSchedule { seconds, second: 1, frames_done: 0, finished: false }
    }

    /// The next thing to do: a frame while the current second lacks frames,
    /// then its row, then the next second, until the last second's row.
    pub fn next(&mut self) -> (step: BenchmarkStep)
        requires
            old(self).wf(),
        ensures
            final(self).wf(),
            final(self).seconds_spec() == old(self).seconds_spec(),
            if old(self).finished_spec() {
                &&& step == BenchmarkStep::Done
                &&& final(self).second_spec() == old(self).second_spec()
                &&& final(self).frames_done_spec() == old(self).frames_done_spec()
                &&& final(self).finished_spec()
            } else if old(self).frames_done_spec() < FRAMES_PER_SECOND {
                &&& step == BenchmarkStep::Frame
                &&& final(self).second_spec() == old(self).second_spec()
                &&& final(self).frames_done_spec() == old(self).frames_done_spec() + 1
                &&& !final(self).finished_spec()
            } else {
                &&& step == BenchmarkStep::FinishSecond { second: old(self).second_spec() }
                &&& final(self).frames_done_spec() == 0
                &&& final(self).finished_spec() == (old(self).second_spec() == old(self).seconds_spec())
                &&& final(self).second_spec() == if old(self).second_spec() == old(self).seconds_spec() {
                    old(self).second_spec()
                } else {
                    (old(self).second_spec() + 1) as u64
                }
            },
    {
        if self.finished {
            return BenchmarkStep::Done;
        }
        if self.frames_done < FRAMES_PER_SECOND {
            self.frames_done = self.frames_done + 1;
            return BenchmarkStep::Frame;
        }
        let second = self.second;
        self.frames_done = 0;
        if self.second == self.seconds {
            self.finished = true;
        } else {
            self.second = self.second + 1;
        }
        BenchmarkStep::FinishSecond { second }
    }
}


/// Every column of a row holds the quantity its header names: the row's
/// k-th cell is the field that the header's k-th name describes, for any
/// scenario, second, renderer, scale label, sample and counts. Times are
/// per-frame averages, percentiles or maxima in milliseconds, the rate is
/// frames per wall-clock second, and counts are the sample's or the
/// scenario's.
#[verifier::rlimit(100)]
#[verifier::spinoff_prover]
pub proof fn lemma_columns_follow_header(
    scenario: Seq<char>,
    second: u64,
    renderer: RenderBackend,
    raster_scale_label: Seq<char>,
    sample: BenchmarkSample,
    counts: BenchmarkCounts,
)
    ensures
        ({
            let cells = row_cells(scenario, second, renderer, raster_scale_label, sample, counts);
            &&& cells.len() == 81
            &&& header_names().len() == 81
            &&& header_names()[0] == "scenario"@ && cells[0] == CellView::Text(scenario)
            &&& header_names()[1] == "renderer"@ && cells[1] == CellView::Text(crate::launch::renderer_text(renderer))
            &&& header_names()[2] == "raster_scale"@ && cells[2] == CellView::Text(raster_scale_label)
            &&& header_names()[3] == "second"@ && cells[3] == CellView::Count(second as nat)
            &&& header_names()[4] == "frames"@ && cells[4] == CellView::Count(sample.frames as nat)
            &&& header_names()[5] == "updates"@ && cells[5] == CellView::Count(sample.updates as nat)
            &&& header_names()[6] == "throughput_fps"@ && cells[6] == CellView::Fixed2(throughput_hundredths(sample.frames, sample.wall_time))
            &&& header_names()[7] == "scene_items"@ && cells[7] == CellView::Count(sample.scene_items as nat)
            &&& header_names()[8] == "asteroids"@ && cells[8] == CellView::Count(counts.asteroids as nat)
            &&& header_names()[9] == "fragments"@ && cells[9] == CellView::Count(counts.fragments as nat)
            &&& header_names()[10] == "shells"@ && cells[10] == CellView::Count(counts.shells as nat)
            &&& header_names()[11] == "particles"@ && cells[11] == CellView::Count(counts.particles as nat)
            &&& header_names()[12] == "balls"@ && cells[12] == CellView::Count(counts.balls as nat)
            &&& header_names()[13] == "gravity_sources"@ && cells[13] == CellView::Count(counts.gravity_sources as nat)
            &&& header_names()[14] == "gravity_targets"@ && cells[14] == CellView::Count(counts.gravity_targets as nat)
            &&& header_names()[15] == "gravity_nodes"@ && cells[15] == CellView::Count(counts.gravity_nodes as nat)
            &&& header_names()[16] == "gravity_exact_interactions"@ && cells[16] == CellView::Count(counts.gravity_exact_interactions as nat)
            &&& header_names()[17] == "gravity_approximations"@ && cells[17] == CellView::Count(counts.gravity_approximations as nat)
            &&& header_names()[18] == "gravity_applied_sources"@ && cells[18] == CellView::Count(counts.gravity_applied_sources as nat)
            &&& header_names()[19] == "active_bodies"@ && cells[19] == CellView::Count(counts.active_bodies as nat)
            &&& header_names()[20] == "sleeping_bodies"@ && cells[20] == CellView::Count(counts.sleeping_bodies as nat)
            &&& header_names()[21] == "candidate_pairs"@ && cells[21] == CellView::Count(counts.candidate_pairs as nat)
            &&& header_names()[22] == "max_candidate_pairs"@ && cells[22] == CellView::Count(sample.max_candidate_pairs as nat)
            &&& header_names()[23] == "contact_pairs"@ && cells[23] == CellView::Count(counts.contact_pairs as nat)
            &&& header_names()[24] == "max_contact_pairs"@ && cells[24] == CellView::Count(sample.max_contact_pairs as nat)
            &&& header_names()[25] == "solver_contacts"@ && cells[25] == CellView::Count(counts.contacts as nat)
            &&& header_names()[26] == "max_solver_contacts"@ && cells[26] == CellView::Count(sample.max_contacts as nat)
            &&& header_names()[27] == "added"@ && cells[27] == CellView::Count(sample.scenario_metrics.added as nat)
            &&& header_names()[28] == "removed"@ && cells[28] == CellView::Count(sample.scenario_metrics.removed as nat)
            &&& header_names()[29] == "avg_step_ms"@ && cells[29] == CellView::Fixed3(average_thousandths(sample.step_time, sample.frames))
            &&& header_names()[30] == "p50_step_ms"@ && cells[30] == CellView::Fixed3(percentile_thousandths(sample.step_samples@, 50))
            &&& header_names()[31] == "p95_step_ms"@ && cells[31] == CellView::Fixed3(percentile_thousandths(sample.step_samples@, 95))
            &&& header_names()[32] == "p99_step_ms"@ && cells[32] == CellView::Fixed3(percentile_thousandths(sample.step_samples@, 99))
            &&& header_names()[33] == "max_step_ms"@ && cells[33] == CellView::Fixed3(largest_thousandths(sample.step_samples@))
            &&& header_names()[34] == "avg_workload_ms"@ && cells[34] == CellView::Fixed3(average_thousandths(sample.scenario_metrics.workload_time, sample.frames))
            &&& header_names()[35] == "avg_lifecycle_ms"@ && cells[35] == CellView::Fixed3(average_thousandths(sample.scenario_metrics.lifecycle_time, sample.frames))
            &&& header_names()[36] == "max_lifecycle_ms"@ && cells[36] == CellView::Fixed3(thousandths(sample.max_lifecycle_time as nat, 1_000_000))
            &&& header_names()[37] == "avg_gravity_ms"@ && cells[37] == CellView::Fixed3(average_thousandths(sample.scenario_metrics.gravity_time, sample.frames))
            &&& header_names()[38] == "avg_gravity_validation_ms"@ && cells[38] == CellView::Fixed3(average_thousandths(sample.scenario_metrics.gravity_validation_time, sample.frames))
            &&& header_names()[39] == "avg_gravity_build_ms"@ && cells[39] == CellView::Fixed3(average_thousandths(sample.scenario_metrics.gravity_build_time, sample.frames))
            &&& header_names()[40] == "avg_gravity_aggregation_ms"@ && cells[40] == CellView::Fixed3(average_thousandths(sample.scenario_metrics.gravity_aggregation_time, sample.frames))
            &&& header_names()[41] == "avg_gravity_traversal_ms"@ && cells[41] == CellView::Fixed3(average_thousandths(sample.scenario_metrics.gravity_traversal_time, sample.frames))
            &&& header_names()[42] == "avg_collision_ms"@ && cells[42] == CellView::Fixed3(average_thousandths(sample.scenario_metrics.collision_time, sample.frames))
            &&& header_names()[43] == "avg_physics_ms"@ && cells[43] == CellView::Fixed3(average_thousandths(sample.scenario_metrics.physics_time, sample.frames))
            &&& header_names()[44] == "avg_snapshot_ms"@ && cells[44] == CellView::Fixed3(average_thousandths(sample.scenario_metrics.snapshot_time, sample.frames))
            &&& header_names()[45] == "avg_rapier_step_ms"@ && cells[45] == CellView::Fixed3(average_thousandths(sample.scenario_metrics.rapier_step_time, sample.frames))
            &&& header_names()[46] == "avg_rapier_update_ms"@ && cells[46] == CellView::Fixed3(average_thousandths(sample.scenario_metrics.rapier_update_time, sample.frames))
            &&& header_names()[47] == "avg_rapier_user_changes_ms"@ && cells[47] == CellView::Fixed3(average_thousandths(sample.scenario_metrics.rapier_user_changes_time, sample.frames))
            &&& header_names()[48] == "avg_rapier_kinematic_interpolation_ms"@ && cells[48] == CellView::Fixed3(average_thousandths(sample.scenario_metrics.rapier_kinematic_interpolation_time, sample.frames))
            &&& header_names()[49] == "avg_rapier_collision_detection_ms"@ && cells[49] == CellView::Fixed3(average_thousandths(sample.scenario_metrics.rapier_collision_detection_time, sample.frames))
            &&& header_names()[50] == "avg_rapier_broad_phase_ms"@ && cells[50] == CellView::Fixed3(average_thousandths(sample.scenario_metrics.rapier_broad_phase_time, sample.frames))
            &&& header_names()[51] == "avg_rapier_final_broad_phase_ms"@ && cells[51] == CellView::Fixed3(average_thousandths(sample.scenario_metrics.rapier_final_broad_phase_time, sample.frames))
            &&& header_names()[52] == "avg_rapier_narrow_phase_ms"@ && cells[52] == CellView::Fixed3(average_thousandths(sample.scenario_metrics.rapier_narrow_phase_time, sample.frames))
            &&& header_names()[53] == "avg_rapier_island_ms"@ && cells[53] == CellView::Fixed3(average_thousandths(sample.scenario_metrics.rapier_island_time, sample.frames))
            &&& header_names()[54] == "avg_rapier_island_constraints_ms"@ && cells[54] == CellView::Fixed3(average_thousandths(sample.scenario_metrics.rapier_island_constraints_time, sample.frames))
            &&& header_names()[55] == "avg_rapier_solver_ms"@ && cells[55] == CellView::Fixed3(average_thousandths(sample.scenario_metrics.rapier_solver_time, sample.frames))
            &&& header_names()[56] == "avg_rapier_ccd_ms"@ && cells[56] == CellView::Fixed3(average_thousandths(sample.scenario_metrics.rapier_ccd_time, sample.frames))
            &&& header_names()[57] == "avg_render_ms"@ && cells[57] == CellView::Fixed3(average_thousandths(sample.render_time, sample.frames))
            &&& header_names()[58] == "avg_present_ms"@ && cells[58] == CellView::Fixed3(average_thousandths(sample.present_time, sample.frames))
            &&& header_names()[59] == "avg_raster_clear_ms"@ && cells[59] == CellView::Fixed3(average_thousandths(sample.raster_timings.clear, sample.frames))
            &&& header_names()[60] == "avg_raster_player_ms"@ && cells[60] == CellView::Fixed3(average_thousandths(sample.raster_timings.player_views, sample.frames))
            &&& header_names()[61] == "avg_raster_player_starfield_ms"@ && cells[61] == CellView::Fixed3(average_thousandths(sample.raster_timings.player_starfield, sample.frames))
            &&& header_names()[62] == "avg_raster_player_bodies_ms"@ && cells[62] == CellView::Fixed3(average_thousandths(sample.raster_timings.player_bodies, sample.frames))
            &&& header_names()[63] == "avg_raster_player_world_ms"@ && cells[63] == CellView::Fixed3(average_thousandths(sample.raster_timings.player_world, sample.frames))
            &&& header_names()[64] == "avg_raster_player_sun_planets_ms"@ && cells[64] == CellView::Fixed3(average_thousandths(sample.raster_timings.player_sun_planets, sample.frames))
            &&& header_names()[65] == "avg_raster_player_spaceports_ms"@ && cells[65] == CellView::Fixed3(average_thousandths(sample.raster_timings.player_spaceports, sample.frames))
            &&& header_names()[66] == "avg_raster_player_effects_ms"@ && cells[66] == CellView::Fixed3(average_thousandths(sample.raster_timings.player_effects, sample.frames))
            &&& header_names()[67] == "avg_raster_player_ships_ms"@ && cells[67] == CellView::Fixed3(average_thousandths(sample.raster_timings.player_ships, sample.frames))
            &&& header_names()[68] == "avg_raster_player_debris_ms"@ && cells[68] == CellView::Fixed3(average_thousandths(sample.raster_timings.player_debris, sample.frames))
            &&& header_names()[69] == "avg_raster_player_particles_ms"@ && cells[69] == CellView::Fixed3(average_thousandths(sample.raster_timings.player_particles, sample.frames))
            &&& header_names()[70] == "avg_raster_player_other_ms"@ && cells[70] == CellView::Fixed3(average_thousandths(sample.raster_timings.player_other, sample.frames))
            &&& header_names()[71] == "avg_raster_other_frames_ms"@ && cells[71] == CellView::Fixed3(average_thousandths(sample.raster_timings.other_frames, sample.frames))
            &&& header_names()[72] == "avg_raster_overview_refresh_ms"@ && cells[72] == CellView::Fixed3(average_thousandths(sample.raster_timings.overview_refresh, sample.frames))
            &&& header_names()[73] == "avg_raster_overview_blit_ms"@ && cells[73] == CellView::Fixed3(average_thousandths(sample.raster_timings.overview_blit, sample.frames))
            &&& header_names()[74] == "avg_raster_overview_live_ms"@ && cells[74] == CellView::Fixed3(average_thousandths(sample.raster_timings.overview_live, sample.frames))
            &&& header_names()[75] == "avg_raster_image_ms"@ && cells[75] == CellView::Fixed3(average_thousandths(sample.raster_timings.image, sample.frames))
            &&& header_names()[76] == "avg_total_ms"@ && cells[76] == CellView::Fixed3(average_thousandths((sample.step_time + sample.render_time + sample.present_time) as u128, sample.frames))
            &&& header_names()[77] == "p50_total_ms"@ && cells[77] == CellView::Fixed3(percentile_thousandths(sample.total_samples@, 50))
            &&& header_names()[78] == "p95_total_ms"@ && cells[78] == CellView::Fixed3(percentile_thousandths(sample.total_samples@, 95))
            &&& header_names()[79] == "p99_total_ms"@ && cells[79] == CellView::Fixed3(percentile_thousandths(sample.total_samples@, 99))
            &&& header_names()[80] == "max_total_ms"@ && cells[80] == CellView::Fixed3(thousandths(sample.max_total_time as nat, 1_000_000))
        }),
{
}


proof fn lemma_one_more_millisecond_per_frame(ns: nat, frames: nat)
    requires
        frames > 0,
    ensures
        thousandths(ns + frames * 1_000_000, frames * 1_000_000) == thousandths(ns, frames * 1_000_000)
            + 1000,
{
    let d = frames * 1_000_000;
    assert(d > 0) by (nonlinear_arith)
        requires
            frames > 0,
            d == frames * 1_000_000,
    ;
    let n = ns * 2000 + d;
    let q = n / (2 * d);
    let r = n % (2 * d);
    vstd::arithmetic::div_mod::lemma_fundamental_div_mod(n as int, (2 * d) as int);
    assert((ns + d) * 2000 + d == (q + 1000) * (2 * d) + r) by (nonlinear_arith)
        requires
            n == q * (2 * d) + r,
            n == ns * 2000 + d,
    ;
    vstd::arithmetic::div_mod::lemma_fundamental_div_mod_converse(
        ((ns + d) * 2000 + d) as int,
        (2 * d) as int,
        (q + 1000) as int,
        r as int,
    );
}

/// The render and present columns measure what their names say: one more
/// millisecond of render time per frame raises the `avg_render_ms` cell by
/// exactly 1.000 and leaves `avg_present_ms` as it was; one more millisecond
/// of present time per frame does the opposite.
pub proof fn lemma_render_and_present_columns(
    scenario: Seq<char>,
    second: u64,
    renderer: RenderBackend,
    raster_scale_label: Seq<char>,
    before: BenchmarkSample,
    after: BenchmarkSample,
    counts: BenchmarkCounts,
)
    requires
        before.frames > 0,
        after.frames == before.frames,
    ensures
        header_names()[57] == "avg_render_ms"@,
        header_names()[58] == "avg_present_ms"@,
        ({
            let a = row_cells(scenario, second, renderer, raster_scale_label, before, counts);
            let b = row_cells(scenario, second, renderer, raster_scale_label, after, counts);
            &&& after.render_time == before.render_time + before.frames * 1_000_000
                && after.present_time == before.present_time ==> {
                &&& b[57] == CellView::Fixed3(a[57]->Fixed3_0 + 1000)
                &&& b[58] == a[58]
            }
            &&& after.present_time == before.present_time + before.frames * 1_000_000
                && after.render_time == before.render_time ==> {
                &&& b[58] == CellView::Fixed3(a[58]->Fixed3_0 + 1000)
                &&& b[57] == a[57]
            }
        }),
{
    lemma_one_more_millisecond_per_frame(before.render_time as nat, before.frames as nat);
    lemma_one_more_millisecond_per_frame(before.present_time as nat, before.frames as nat);
}

} // verus!
