use engine_client::input::{
    bot_report_due, game_key_from_key_code, keyboard_intent, nes_controller_buttons,
    player_controls, zoom_request, ClientInput, ControlHandoff, GameKey, GamepadButtons,
    IntentSource, KeyCode, KeyboardIntent, KeyboardState, PointerPhase, ScreenPointerEvent,
    ZoomRequest, NO_BOT_DIAGNOSTICS,
};
use engine_client::runtime::{BUTTON_A, BUTTON_B, BUTTON_LEFT, BUTTON_RIGHT, BUTTON_START};

type Point = (i32, i32);

fn event(x: i32, y: i32, phase: PointerPhase) -> ScreenPointerEvent<Point> {
    ScreenPointerEvent { position: (x, y), phase }
}

#[test]
fn pointer_cancel_uses_the_last_active_position_once() {
    let mut input: ClientInput<Point> = ClientInput::default();
    input.push_pointer_event(event(10, 20, PointerPhase::Press));
    input.push_pointer_event(event(30, 40, PointerPhase::Drag));
    input.take_pointer_events();

    input.cancel_pointer();
    input.cancel_pointer();

    assert_eq!(input.take_pointer_events(), vec![event(30, 40, PointerPhase::Cancel)]);
}

#[test]
fn a_release_ends_the_gesture_so_there_is_nothing_to_cancel() {
    let mut input: ClientInput<Point> = ClientInput::default();
    input.push_pointer_event(event(1, 2, PointerPhase::Press));
    input.push_pointer_event(event(3, 4, PointerPhase::Release));
    input.cancel_pointer();
    assert!(!input.has_pointer_cancellation());
    assert_eq!(
        input.take_pointer_events(),
        vec![event(1, 2, PointerPhase::Press), event(3, 4, PointerPhase::Release)]
    );
}

#[test]
fn clearing_keyboard_state_preserves_pointer_cancellation() {
    let mut input: ClientInput<Point> = ClientInput::default();
    input.press(GameKey::P1Thrust);
    input.push_pointer_event(event(10, 20, PointerPhase::Press));
    input.take_pointer_events();
    input.cancel_pointer();

    input.clear_keyboard();

    assert!(!input.is_pressed(GameKey::P1Thrust));
    assert!(input.has_pointer_cancellation());

    input.clear();
    assert!(!input.has_pointer_cancellation());
}

#[test]
fn focus_loss_releases_controls_without_requesting_a_host_pause() {
    let mut input: ClientInput<Point> = ClientInput::default();
    input.press(GameKey::NesA);
    input.push_pointer_event(event(10, 20, PointerPhase::Press));
    input.take_pointer_events();

    input.handle_focus_loss();

    assert_eq!(input.nes_controller_buttons(0), 0);
    assert!(input.has_pointer_cancellation());
    assert!(!input.take_force_pause_requested());
}

#[test]
fn brake_and_reverse_keys_use_distinct_keyboard_rows() {
    assert_eq!(game_key_from_key_code(KeyCode::KeyS), Some(GameKey::P1Brake));
    assert_eq!(game_key_from_key_code(KeyCode::KeyX), Some(GameKey::P1Reverse));
    assert_eq!(game_key_from_key_code(KeyCode::Numpad5), Some(GameKey::P2Brake));
    assert_eq!(game_key_from_key_code(KeyCode::Numpad2), Some(GameKey::P2Reverse));
}

#[test]
fn nes_input_combines_keyboard_and_the_assigned_gamepad() {
    let mut input: ClientInput<Point> = ClientInput::default();
    input.set_seat(
        0,
        GamepadButtons {
            connected: true,
            dpad_right: true,
            south: true,
            start: true,
            ..GamepadButtons::default()
        },
    );
    input.press(GameKey::NesLeft);
    input.press(GameKey::P1Reverse);

    assert_eq!(
        input.nes_controller_buttons(0),
        BUTTON_LEFT | BUTTON_RIGHT | BUTTON_A | BUTTON_B | BUTTON_START
    );
    assert_eq!(input.nes_controller_buttons(1), 0);

    input.disconnect_seat(0);
    assert_eq!(input.nes_controller_buttons(0), BUTTON_LEFT | BUTTON_B);
}

#[test]
fn a_disconnected_pad_contributes_nothing() {
    let mut keyboard = KeyboardState::new();
    keyboard.press(GameKey::P1Laser);
    let pads = [
        GamepadButtons { south: true, ..GamepadButtons::default() },
        GamepadButtons { connected: true, east: true, ..GamepadButtons::default() },
    ];
    // The laser key also fires A for player one.
    assert_eq!(nes_controller_buttons(&keyboard, &pads, 0), BUTTON_A);
    assert_eq!(nes_controller_buttons(&keyboard, &pads, 1), BUTTON_B);
    assert_eq!(nes_controller_buttons(&keyboard, &pads, 2), 0);
}

#[test]
fn p2_controls_use_numpad_and_navigation_keys() {
    assert_eq!(game_key_from_key_code(KeyCode::PageDown), Some(GameKey::P2Wing));
    assert_eq!(game_key_from_key_code(KeyCode::Numpad8), Some(GameKey::P2Thrust));
    assert_eq!(game_key_from_key_code(KeyCode::Numpad5), Some(GameKey::P2Brake));
    assert_eq!(game_key_from_key_code(KeyCode::Numpad2), Some(GameKey::P2Reverse));
    assert_eq!(game_key_from_key_code(KeyCode::Numpad4), Some(GameKey::P2TurnLeft));
    assert_eq!(game_key_from_key_code(KeyCode::Numpad6), Some(GameKey::P2TurnRight));
    assert_eq!(game_key_from_key_code(KeyCode::Delete), Some(GameKey::P2Laser));
    assert_eq!(game_key_from_key_code(KeyCode::End), Some(GameKey::P2Cannon));
    assert_eq!(game_key_from_key_code(KeyCode::Insert), Some(GameKey::P2ZoomIn));
    assert_eq!(game_key_from_key_code(KeyCode::Home), Some(GameKey::P2ZoomOut));
}

#[test]
fn zoom_keys_emit_original_per_player_zoom_actions() {
    assert_eq!(game_key_from_key_code(KeyCode::KeyU), Some(GameKey::P1ZoomIn));
    assert_eq!(game_key_from_key_code(KeyCode::KeyI), Some(GameKey::P1ZoomOut));
    assert_eq!(game_key_from_key_code(KeyCode::Insert), Some(GameKey::P2ZoomIn));
    assert_eq!(game_key_from_key_code(KeyCode::Home), Some(GameKey::P2ZoomOut));

    let mut keyboard = KeyboardState::new();
    keyboard.press(GameKey::P1ZoomIn);
    keyboard.press(GameKey::P2ZoomOut);
    assert_eq!(zoom_request(&keyboard, player_controls(0)), Some(ZoomRequest::In));
    assert_eq!(zoom_request(&keyboard, player_controls(1)), Some(ZoomRequest::Out));
    keyboard.press(GameKey::P2ZoomIn);
    assert_eq!(zoom_request(&keyboard, player_controls(1)), Some(ZoomRequest::In));
}

#[test]
fn keyboard_source_reports_brake_and_propulsion_independently() {
    let mut keyboard = KeyboardState::new();
    keyboard.press(GameKey::P1Wing);
    keyboard.press(GameKey::P1Thrust);
    keyboard.press(GameKey::P1Reverse);
    keyboard.press(GameKey::P1Brake);

    let intent = keyboard_intent(&keyboard, player_controls(0));
    assert_eq!(
        intent,
        KeyboardIntent { turn: 0, thrust: 1, brake: 1, wings_closed: true, laser: false, cannon: false }
    );

    keyboard.release(GameKey::P1Thrust);
    keyboard.press(GameKey::P1TurnRight);
    let intent = keyboard_intent(&keyboard, player_controls(0));
    assert_eq!(intent.thrust, -1);
    assert_eq!(intent.turn, 1);
    // Player two's keys are untouched.
    assert_eq!(keyboard_intent(&keyboard, player_controls(1)), KeyboardIntent::default());
}

#[test]
fn reset_key_is_one_shot_host_control() {
    let mut input: ClientInput<Point> = ClientInput::default();

    input.press(GameKey::Reset);

    assert!(input.take_reset_requested());
    assert!(!input.take_reset_requested());
}

#[test]
fn pause_key_is_one_shot_host_control() {
    let mut input: ClientInput<Point> = ClientInput::default();

    input.press(GameKey::Pause);

    assert!(input.take_pause_requested());
    assert!(!input.take_pause_requested());
}

#[test]
fn benchmark_key_is_one_shot_host_control() {
    let mut input: ClientInput<Point> = ClientInput::default();

    input.press(GameKey::Benchmark);

    assert!(input.take_benchmark_requested());
    assert!(!input.take_benchmark_requested());
}

#[test]
fn escape_key_is_one_shot_back_control() {
    let mut input: ClientInput<Point> = ClientInput::default();

    input.press(GameKey::Back);

    assert!(input.take_back_requested());
    assert!(!input.take_back_requested());
    assert_eq!(game_key_from_key_code(KeyCode::Escape), Some(GameKey::Back));
}

#[test]
fn controls_keys_are_one_shot_menu_controls() {
    let mut input: ClientInput<Point> = ClientInput::default();

    input.press(GameKey::Controls);

    assert!(input.take_controls_requested());
    assert!(!input.take_controls_requested());
    assert_eq!(game_key_from_key_code(KeyCode::KeyC), Some(GameKey::Controls));
    assert_eq!(game_key_from_key_code(KeyCode::F1), Some(GameKey::Controls));
}

#[test]
fn q_key_is_one_shot_return_launcher_control() {
    let mut input: ClientInput<Point> = ClientInput::default();

    input.press(GameKey::ReturnLauncher);

    assert!(input.take_return_launcher_requested());
    assert!(!input.take_return_launcher_requested());
    assert_eq!(game_key_from_key_code(KeyCode::KeyQ), Some(GameKey::ReturnLauncher));
}

#[test]
fn rule_bot_waits_one_neutral_frame_before_taking_control() {
    let mut handoff = ControlHandoff::new();
    assert_eq!(handoff.select_source(1, false, true), IntentSource::Neutral);
    assert_eq!(handoff.select_source(1, false, true), IntentSource::RuleBot);
    assert!(handoff.start_bot(1, 7));
    assert!(!handoff.start_bot(1, 7));
    handoff.set_bot_diagnostics(1, "player=2 tick=0".to_string());
    assert_eq!(handoff.runtime_diagnostics_text(), "player=2 tick=0");
    assert_eq!(handoff.diagnostics_revision(), 1);

    handoff.reset();
    assert_eq!(handoff.select_source(1, false, true), IntentSource::Neutral);
    assert_eq!(handoff.runtime_diagnostics_text(), NO_BOT_DIAGNOSTICS);
}

#[test]
fn changing_p2_from_human_to_bot_releases_held_controls_first() {
    let mut handoff = ControlHandoff::new();
    assert_eq!(handoff.select_source(1, false, false), IntentSource::Human);
    assert_eq!(handoff.select_source(1, false, true), IntentSource::Neutral);
    assert_eq!(handoff.select_source(1, false, true), IntentSource::RuleBot);
    // Player one is untouched throughout.
    assert_eq!(handoff.select_source(0, false, false), IntentSource::Human);
    // The benchmark takes over both ships, again after one neutral frame.
    assert_eq!(handoff.select_source(1, true, true), IntentSource::Neutral);
    assert_eq!(handoff.select_source(1, true, true), IntentSource::Benchmark);
}

#[test]
fn leaving_the_rule_bot_drops_its_report() {
    let mut handoff = ControlHandoff::new();
    handoff.select_source(0, false, true);
    handoff.set_bot_diagnostics(0, "first".to_string());
    handoff.select_source(1, false, true);
    handoff.set_bot_diagnostics(1, "second".to_string());
    assert_eq!(handoff.runtime_diagnostics_text(), "first\n\nsecond");
    let revision = handoff.diagnostics_revision();
    handoff.select_source(0, false, false);
    assert_eq!(handoff.runtime_diagnostics_text(), "second");
    assert_eq!(handoff.diagnostics_revision(), revision + 1);
}

#[test]
fn bot_reports_come_every_sixty_ticks() {
    assert!(bot_report_due(0));
    assert!(!bot_report_due(30));
    assert!(bot_report_due(120));
}
