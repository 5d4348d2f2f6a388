use engine_client::host::{ScenarioCapabilities, ScenarioRegistration};
use engine_client::launch::{
    bool_from_label, bool_label, fresh_seed, launch_diagnostics, launch_request, launch_selection_from_values,
    length_label, next_seed, normalize_renderer, parse_length, parse_u32_setting,
    renderer_from_label, renderer_label, resolve, elapsed_label, shows_loading_stage,
    EffectiveLaunch, LaunchArgs, LaunchTimings, PendingLaunch, PollStep, PreparationMessage,
    RenderBackend, Stage,
};

fn base_args() -> LaunchArgs {
    LaunchArgs {
        scenario: None,
        seed: None,
        renderer: None,
        raster_scale_given: false,
        debug_render: false,
        debug_triangles: 0,
        benchmark: false,
        benchmark_headless: false,
        fullscreen: false,
        windowed: false,
        kiosk: false,
    }
}

fn registration(id: &str, launcher_visible: bool, benchmark: bool) -> ScenarioRegistration {
    ScenarioRegistration {
        id: id.to_string(),
        launcher_visible,
        capabilities: ScenarioCapabilities { benchmark, pointer_input: false, player_zoom: false },
        controls_help: String::new(),
    }
}

fn registry() -> Vec<ScenarioRegistration> {
    vec![
        registration("spacewars", true, true),
        registration("null", false, false),
        registration("falling", true, false),
    ]
}

#[test]
fn raster_only_policy_rejects_vector_but_preserves_raster() {
    assert_eq!(resolve(RenderBackend::Vector, true, "test"), RenderBackend::Raster);
    assert_eq!(resolve(RenderBackend::Raster, true, "test"), RenderBackend::Raster);
    assert_eq!(resolve(RenderBackend::Vector, false, "test"), RenderBackend::Vector);
}

#[test]
fn saved_vector_is_migrated_once() {
    let mut saved = RenderBackend::Vector;
    assert!(normalize_renderer(&mut saved, true));
    assert_eq!(saved, RenderBackend::Raster);
    assert!(!normalize_renderer(&mut saved, true));
    let mut desktop = RenderBackend::Vector;
    assert!(!normalize_renderer(&mut desktop, false));
    assert_eq!(desktop, RenderBackend::Vector);
}

#[test]
fn renderer_labels_round_trip_ignoring_case_and_space() {
    assert_eq!(renderer_from_label("  Raster "), Ok(RenderBackend::Raster));
    assert_eq!(renderer_from_label("VECTOR"), Ok(RenderBackend::Vector));
    assert_eq!(renderer_label(RenderBackend::Raster), "raster");
    assert_eq!(RenderBackend::default(), RenderBackend::Vector);
    assert_eq!(
        renderer_from_label("pixel \"art\""),
        Err("Unknown renderer \"pixel \\\"art\\\"\".".to_string())
    );
}

#[test]
fn on_off_labels() {
    assert_eq!(bool_label(true), "on");
    assert_eq!(bool_label(false), "off");
    for label in ["on", "TRUE", " yes ", "1"] {
        assert_eq!(bool_from_label(label), Ok(true));
    }
    for label in ["off", "False", "no", " 0"] {
        assert_eq!(bool_from_label(label), Ok(false));
    }
    assert_eq!(bool_from_label("maybe"), Err("Expected on or off, got \"maybe\".".to_string()));
}

#[test]
fn whole_number_settings_are_clamped_or_refused_with_their_range() {
    assert_eq!(parse_u32_setting(" 42 ", "Player health", 1, 100), Ok(42));
    assert_eq!(parse_u32_setting("500", "Player health", 1, 100), Ok(100));
    assert_eq!(parse_u32_setting("0", "Player health", 1, 100), Ok(1));
    assert_eq!(parse_u32_setting("+7", "Player health", 1, 100), Ok(7));
    assert_eq!(
        parse_u32_setting("-3", "Player health", 1, 100),
        Err("Player health must be an integer from 1 to 100.".to_string())
    );
    assert_eq!(
        parse_u32_setting("4294967296", "Desired balls", 0, 5000),
        Err("Desired balls must be an integer from 0 to 5000.".to_string())
    );
}

#[test]
fn launch_directly_only_when_cli_or_special_mode_requests_it() {
    let mut args = base_args();
    assert!(!args.should_launch_directly());

    args.scenario = Some("spacewars".into());
    assert!(args.should_launch_directly());

    let mut args = base_args();
    args.benchmark = true;
    assert!(args.should_launch_directly());

    let mut args = base_args();
    args.debug_render = true;
    assert!(args.should_launch_directly());

    let mut args = base_args();
    args.kiosk = true;
    assert!(args.should_launch_directly());

    let mut args = base_args();
    args.fullscreen = true;
    assert!(!args.should_launch_directly());
}

#[test]
fn effective_fullscreen_uses_cli_and_settings_precedence() {
    let mut saved_fullscreen = false;
    let mut args = base_args();
    assert!(!args.effective_fullscreen(saved_fullscreen));

    saved_fullscreen = true;
    assert!(args.effective_fullscreen(saved_fullscreen));

    args.windowed = true;
    assert!(!args.effective_fullscreen(saved_fullscreen));

    args.windowed = false;
    args.fullscreen = true;
    saved_fullscreen = false;
    assert!(args.effective_fullscreen(saved_fullscreen));

    args.fullscreen = false;
    args.kiosk = true;
    assert!(args.effective_fullscreen(saved_fullscreen));
}

#[test]
fn kiosk_mode_does_not_force_desktop_slint_backend() {
    let mut args = base_args();
    assert_eq!(args.forced_slint_backend_for_env(false), Some("winit"));
    assert_eq!(args.forced_slint_backend_for_env(true), None);

    args.kiosk = true;
    assert_eq!(args.forced_slint_backend_for_env(false), None);
}

#[test]
fn effective_launch_prefers_the_command_line_over_saved_choices() {
    let saved = EffectiveLaunch { scenario: "null".into(), seed: 77, renderer: RenderBackend::Raster };
    let launch = base_args().effective_launch(&saved);
    assert_eq!(launch, saved);

    let mut args = base_args();
    args.scenario = Some("spacewars".into());
    args.seed = Some(99);
    args.renderer = Some(RendererChoice::Vector.into());
    let launch = args.effective_launch(&saved);
    assert_eq!(launch.scenario, "spacewars");
    assert_eq!(launch.seed, 99);
    assert_eq!(launch.renderer, RenderBackend::Vector);

    let mut args = base_args();
    args.benchmark_headless = true;
    assert_eq!(args.effective_launch(&saved).scenario, "spacewars");
}

enum RendererChoice {
    Vector,
}

impl From<RendererChoice> for RenderBackend {
    fn from(choice: RendererChoice) -> Self {
        match choice {
            RendererChoice::Vector => RenderBackend::Vector,
        }
    }
}

#[test]
fn launcher_values_check_scenario_seed_and_renderer_in_order() {
    let registry = registry();
    assert_eq!(
        launch_selection_from_values(&registry, " falling ", "123", "raster"),
        Ok(EffectiveLaunch { scenario: "falling".into(), seed: 123, renderer: RenderBackend::Raster })
    );
    assert_eq!(
        launch_selection_from_values(&registry, "bogus", "0", "vector"),
        Err("Unknown scenario \"bogus\".".to_string())
    );
    assert_eq!(
        launch_selection_from_values(&registry, "spacewars", "-1", "vector"),
        Err("Seed must be a non-negative integer.".to_string())
    );
    assert_eq!(
        launch_selection_from_values(&registry, "spacewars", "0", "unknown"),
        Err("Unknown renderer \"unknown\".".to_string())
    );
}

#[test]
fn match_lengths_round_trip_through_their_labels() {
    assert_eq!(length_label(0), "Unlimited");
    assert_eq!(length_label(120), "2 min");
    assert_eq!(length_label(90), "90 s");
    assert_eq!(parse_length("Unlimited"), Ok(0));
    assert_eq!(parse_length("2 min"), Ok(120));
    assert_eq!(parse_length("90 s"), Ok(90));
    assert_eq!(parse_length("60 min"), Ok(3600));
    assert_eq!(
        parse_length("61 min"),
        Err("Match length must be between one second and one hour.".to_string())
    );
    assert_eq!(
        parse_length("0 s"),
        Err("Match length must be between one second and one hour.".to_string())
    );
    assert_eq!(
        parse_length("ten s"),
        Err("Match length must be between one second and one hour.".to_string())
    );
    assert_eq!(
        parse_length("5 hours"),
        Err("Match length must be minutes, seconds, or Unlimited.".to_string())
    );
    for seconds in [1u32, 59, 60, 61, 600, 3599, 3600] {
        assert_eq!(parse_length(&length_label(seconds)), Ok(seconds));
    }
}

#[test]
fn fresh_seeds_never_repeat_the_current_one() {
    assert_eq!(next_seed(5, 5), 6);
    assert_eq!(next_seed(u64::MAX, u64::MAX), 0);
    assert_eq!(next_seed(5, 9), 9);
    for current in [0u64, 1, 42, u64::MAX] {
        assert_ne!(fresh_seed(current), current);
    }
}

#[test]
fn preparation_messages_drive_the_pending_launch() {
    let mut pending: PendingLaunch<u32> = PendingLaunch::new("nes".into(), false);
    assert_eq!(pending.stage, Stage::Preparing);
    assert_eq!(pending.receive(PreparationMessage::Stage(Stage::Saving)), PollStep::Continue);
    assert_eq!(pending.stage.id(), "saving_settings");
    assert_eq!(pending.receive(PreparationMessage::SaveFinished(Ok(()), 12)), PollStep::CommitSettings);
    assert_eq!(pending.receive(PreparationMessage::Stage(Stage::Loading)), PollStep::Continue);
    assert_eq!(pending.stage.label(), "Loading cartridge…");
    assert_eq!(pending.receive(PreparationMessage::Ready(Ok(7), 30)), PollStep::Ready);
    assert_eq!(pending.stage, Stage::Starting);
    assert_eq!(pending.timings, LaunchTimings { save_ms: 12, load_ms: 30, start_ms: 0 });
    assert_eq!(pending.take_ready(), Some(7));
    assert_eq!(pending.take_ready(), None);

    let mut failing: PendingLaunch<u32> = PendingLaunch::new("falling".into(), false);
    assert_eq!(
        failing.receive(PreparationMessage::SaveFinished(Err("test storage failure".into()), 3)),
        PollStep::Fail("Could not save settings: test storage failure".into())
    );
    assert_eq!(
        failing.receive(PreparationMessage::Ready(Err("no cartridge".into()), 4)),
        PollStep::Fail("no cartridge".into())
    );
    assert!(shows_loading_stage("nes"));
    assert!(!shows_loading_stage("falling"));
}

#[test]
fn launch_diagnostics_and_elapsed_label() {
    assert_eq!(
        launch_diagnostics(
            "busy",
            "falling",
            Stage::Saving,
            12_700,
            LaunchTimings { save_ms: 0, load_ms: 5, start_ms: 9 },
        ),
        "launch_state=busy\nlaunch_scenario=falling\nlaunch_stage=saving_settings\nlaunch_elapsed_ms=12700\nlaunch_save_ms=0\nlaunch_asset_ms=5\nlaunch_start_ms=9"
    );
    assert_eq!(elapsed_label(12_400_000_000), "12.4 s");
    assert_eq!(elapsed_label(0), "0.0 s");
    assert_eq!(elapsed_label(1_050_000_000), "1.1 s");
}

#[test]
fn start_requests_are_checked_before_a_launch() {
    let registry = registry();
    let launch = |scenario: &str| EffectiveLaunch {
        scenario: scenario.to_string(),
        seed: 7,
        renderer: RenderBackend::Raster,
    };
    assert_eq!(launch_request(&registry, true, true, false, Ok(launch("spacewars"))), Ok(None));
    assert_eq!(launch_request(&registry, false, false, false, Err("bad".to_string())), Ok(None));
    assert_eq!(
        launch_request(&registry, false, true, false, Err("bad".to_string())),
        Err("bad".to_string())
    );
    assert_eq!(
        launch_request(&registry, false, true, true, Ok(launch("falling"))),
        Err("The selected scenario does not support benchmark mode.".to_string())
    );
    assert_eq!(
        launch_request(&registry, false, true, true, Ok(launch("spacewars"))),
        Ok(Some(launch("spacewars")))
    );
    assert_eq!(
        launch_request(&registry, false, true, false, Ok(launch("falling"))),
        Ok(Some(launch("falling")))
    );
}
