use engine_client::host::{
    complete_replacement, launcher_scenario_names, new_scenario_controls, performance_target_label,
    plan_host_step, run_fixed_steps, scenario_names, scenario_registration, supports_benchmark,
    validate_scenario, write_benchmark_header, HostEffect, HostError, HostLoopState,
    HostTickContext, ReplacementKind, RevisionCounter, ScenarioCapabilities,
    ScenarioControlRequest, ScenarioRegistration, TickModel, BENCHMARK_HEADER,
};
use engine_client::host::{
    diagnostics_due, realtime_updates, scenario_stopped, video_presentation_stopped, DiagnosticsMarks,
};
use engine_client::input::{GameKey, KeyboardState};

fn registration(id: &str, launcher_visible: bool, benchmark: bool) -> ScenarioRegistration {
    ScenarioRegistration {
        id: id.to_string(),
        launcher_visible,
        capabilities: ScenarioCapabilities { benchmark, pointer_input: false, player_zoom: false },
        controls_help: String::new(),
    }
}

fn registry() -> Vec<ScenarioRegistration> {
    vec![
        registration("spacewars", true, true),
        registration("null", false, false),
        registration("pizza", true, true),
    ]
}

fn context(tick_model: TickModel, fixed_step_nanos: Option<u128>, elapsed_nanos: u128) -> HostTickContext {
    HostTickContext {
        game_over: false,
        ingame_controls_visible: false,
        benchmark_supported: true,
        realtime_runtime: false,
        tick_model,
        fixed_step_nanos,
        elapsed_nanos,
        pointer_cancellation_pending: false,
    }
}

const RUNNING: HostLoopState = HostLoopState { paused: false, benchmark_active: false, accumulator_nanos: 0 };

#[test]
fn unknown_scenario_is_rejected() {
    let registry = registry();
    let error = validate_scenario(&registry, "bogus").unwrap_err();
    assert_eq!(error, HostError::UnknownScenario { name: "bogus".into() });
    assert!(error.message(&registry).contains("unknown scenario"));
    assert_eq!(
        error.message(&registry),
        "unknown scenario \"bogus\"; available scenarios: spacewars, null, pizza"
    );
    assert!(validate_scenario(&registry, "spacewars").is_ok());
}

#[test]
fn registry_lists_names_and_capabilities() {
    let registry = registry();
    assert_eq!(scenario_names(&registry), vec!["spacewars", "null", "pizza"]);
    assert_eq!(launcher_scenario_names(&registry), vec!["spacewars", "pizza"]);
    assert_eq!(scenario_registration(&registry, "null").unwrap().id, "null");
    assert!(scenario_registration(&registry, "clock").is_none());
    assert!(supports_benchmark(&registry, "pizza"));
    assert!(!supports_benchmark(&registry, "null"));
    assert!(!supports_benchmark(&registry, "clock"));
    assert_eq!(
        HostError::BenchmarkUnsupported { name: "null".into() }.message(&registry),
        "scenario \"null\" does not support benchmark mode"
    );
}

#[test]
fn scenario_controls_queue_one_request_at_a_time() {
    let mut controls = new_scenario_controls();
    assert_eq!(controls.take_request(), None);
    controls.request_pause();
    controls.request_resume();
    assert_eq!(controls.take_request(), Some(ScenarioControlRequest::Resume));
    assert_eq!(controls.take_request(), None);
    controls.request_zoom_in(1);
    assert_eq!(controls.take_request(), Some(ScenarioControlRequest::ZoomIn { player: 1 }));
    controls.request_benchmark();
    controls.clear();
    assert_eq!(controls.take_request(), None);
}

#[test]
fn fixed_steps_are_capped_and_the_backlog_dropped() {
    assert_eq!(run_fixed_steps(50, 16), (3, 2));
    assert_eq!(run_fixed_steps(15, 16), (0, 15));
    assert_eq!(run_fixed_steps(1_000, 16), (5, 0));
    assert_eq!(run_fixed_steps(5, 0), (5, 0));
}

#[test]
fn running_fixed_timestep_steps_by_the_backlog() {
    let mut controls = new_scenario_controls();
    let mut keys = KeyboardState::new();
    let plan = plan_host_step(
        HostLoopState { accumulator_nanos: 1_000_000, ..RUNNING },
        &mut controls,
        &mut keys,
        context(TickModel::FixedTimestep { hz: 60 }, Some(16_666_667), 33_333_334),
    );
    assert_eq!(plan.effect, HostEffect::FixedSteps { steps: 2, step_nanos: 16_666_667 });
    assert_eq!(plan.state.accumulator_nanos, 1_000_000);
    assert_eq!(plan.result.updates, 2);
    assert!(!plan.clear_input);
}

#[test]
fn pause_key_toggles_and_cancels_input() {
    let mut controls = new_scenario_controls();
    let mut keys = KeyboardState::new();
    keys.press(GameKey::Pause);
    let plan = plan_host_step(RUNNING, &mut controls, &mut keys, context(TickModel::Variable, None, 5));
    assert!(plan.state.paused);
    assert!(plan.cancel_pointer);
    assert!(plan.clear_input);
    assert_eq!(plan.effect, HostEffect::Nothing);
    assert!(!keys.is_pressed(GameKey::Pause));

    let plan = plan_host_step(plan.state, &mut controls, &mut keys, context(TickModel::Variable, None, 5));
    assert_eq!(plan.effect, HostEffect::Nothing);
    assert!(plan.state.paused);
}

#[test]
fn a_paused_tick_accepts_any_elapsed_time_and_changes_nothing() {
    let mut controls = new_scenario_controls();
    let mut keys = KeyboardState::new();
    let paused = HostLoopState { paused: true, benchmark_active: false, accumulator_nanos: 5 };
    let plan = plan_host_step(
        paused,
        &mut controls,
        &mut keys,
        context(TickModel::FixedTimestep { hz: 60 }, Some(16_666_667), u128::MAX),
    );
    assert_eq!(plan.effect, HostEffect::Nothing);
    assert_eq!(plan.state, paused);
    assert_eq!(plan.result.updates, 0);
    assert!(!plan.clear_input);
}

#[test]
fn q_returns_to_launcher_only_from_pause() {
    let mut controls = new_scenario_controls();
    let mut keys = KeyboardState::new();
    keys.press(GameKey::ReturnLauncher);
    let plan = plan_host_step(RUNNING, &mut controls, &mut keys, context(TickModel::Variable, None, 7));
    assert!(!plan.result.return_to_launcher);
    assert_eq!(plan.effect, HostEffect::VariableStep { elapsed_nanos: 7 });
    let paused = HostLoopState { paused: true, ..RUNNING };
    keys.press(GameKey::ReturnLauncher);
    let plan = plan_host_step(paused, &mut controls, &mut keys, context(TickModel::Variable, None, 7));
    assert!(plan.result.return_to_launcher);
    assert!(!plan.state.paused);
}

#[test]
fn menu_requests_take_precedence_over_keys() {
    let mut controls = new_scenario_controls();
    let mut keys = KeyboardState::new();
    keys.press(GameKey::Reset);
    controls.request_benchmark();
    let plan = plan_host_step(RUNNING, &mut controls, &mut keys, context(TickModel::Variable, None, 1));
    assert_eq!(plan.effect, HostEffect::StartBenchmark);
    assert!(keys.is_pressed(GameKey::Reset));
    let plan = plan_host_step(RUNNING, &mut controls, &mut keys, context(TickModel::Variable, None, 1));
    assert_eq!(plan.effect, HostEffect::Restart);
    assert!(!keys.is_pressed(GameKey::Reset));
}

#[test]
fn failed_replacement_retains_the_current_usable_scenario() {
    let (state, result) = complete_replacement(RUNNING, ReplacementKind::Restart, Some("boom"));
    assert!(state.paused);
    assert!(!result.scenario_replaced);
    assert_eq!(
        result.scenario_error_text.as_deref(),
        Some("Restart failed: boom. The previous game is still available.")
    );
    let (state, result) = complete_replacement(state, ReplacementKind::Benchmark, None);
    assert!(!state.paused);
    assert!(state.benchmark_active);
    assert!(result.scenario_replaced);
}

#[test]
fn revisions_and_labels() {
    let mut revisions = RevisionCounter::new();
    assert_eq!(revisions.next_scenario_revision(), 1);
    assert_eq!(revisions.next_scenario_revision(), 2);
    assert_eq!(performance_target_label(TickModel::FixedTimestep { hz: 60 }), "60 Hz");
    assert_eq!(performance_target_label(TickModel::Variable), "variable");
    assert_eq!(performance_target_label(TickModel::EmulatorClock), "emulator 60.10 Hz");
    let mut header = String::new();
    write_benchmark_header(&mut header);
    assert_eq!(header, format!("{BENCHMARK_HEADER}\n"));
    assert!(header.starts_with("scenario,renderer,raster_scale,second,frames"));
}

#[test]
fn stopped_presentation_and_scenario_pause_with_an_explanation() {
    let running = HostLoopState { paused: false, benchmark_active: true, accumulator_nanos: 9 };
    let (state, text) = video_presentation_stopped(running, "device lost");
    assert_eq!(state, HostLoopState { paused: true, benchmark_active: true, accumulator_nanos: 0 });
    assert_eq!(text, "Video presentation stopped: device lost. Restart or return to the launcher.");
    let (state, text) = scenario_stopped(running, "bad opcode");
    assert!(state.paused);
    assert_eq!(state.accumulator_nanos, 0);
    assert_eq!(text, "Scenario stopped: bad opcode. Restart or return to the launcher.");
}

#[test]
fn diagnostics_refresh_only_on_a_sample_or_a_change() {
    let marks = DiagnosticsMarks { input_revision: 3, scenario_revision: 1, paused: false, benchmark_active: false };
    assert!(!diagnostics_due(marks, marks, false));
    assert!(diagnostics_due(marks, marks, true));
    assert!(diagnostics_due(marks, DiagnosticsMarks { paused: true, ..marks }, false));
    assert!(diagnostics_due(marks, DiagnosticsMarks { input_revision: 4, ..marks }, false));
    assert_eq!(realtime_updates(10, 7), 3);
    assert_eq!(realtime_updates(0, 7), 0);
}

#[test]
fn a_pending_pointer_cancellation_is_delivered_first() {
    let mut controls = new_scenario_controls();
    let mut keys = KeyboardState::new();
    let ctx = HostTickContext { pointer_cancellation_pending: true, ..context(TickModel::Variable, None, 3) };
    let plan = plan_host_step(RUNNING, &mut controls, &mut keys, ctx);
    assert!(plan.deliver_pending_cancellation);
    assert_eq!(plan.effect, HostEffect::VariableStep { elapsed_nanos: 3 });
    let plan = plan_host_step(RUNNING, &mut controls, &mut keys, context(TickModel::Variable, None, 3));
    assert!(!plan.deliver_pending_cancellation);
}
