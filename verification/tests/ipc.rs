use engine_client::ipc::{
    check_ui_press, parse_command, response_line, split_lines, ui_press_command, validate_ui_press,
    CommandParseError,
    ControlCommand,
    PressFailureCode, UiRevisionTracker,
};

#[test]
fn parse_screenshot_command() {
    let command = parse_command("screenshot\n/tmp/shot.png\n").unwrap();
    match command {
        ControlCommand::Screenshot { output } => {
            assert_eq!(output, "/tmp/shot.png");
        }
        ControlCommand::Status
        | ControlCommand::UiState
        | ControlCommand::UiPress(_)
        | ControlCommand::HostBenchmark => {
            panic!("expected screenshot command")
        }
    }
}

#[test]
fn reject_extra_lines() {
    assert!(parse_command("screenshot\n/tmp/shot.png\nextra\n").is_err());
}

#[test]
fn parse_status_command() {
    assert!(matches!(parse_command("status\n"), Ok(ControlCommand::Status)));
    assert!(parse_command("status\nextra\n").is_err());
}

#[test]
fn parse_ui_state_command() {
    assert!(matches!(parse_command("ui state\n"), Ok(ControlCommand::UiState)));
    assert!(parse_command("ui state\nextra\n").is_err());
}

#[test]
fn parse_host_benchmark_command() {
    assert!(matches!(parse_command("host benchmark\n"), Ok(ControlCommand::HostBenchmark)));
    assert!(parse_command("host benchmark\nextra\n").is_err());
}

#[test]
fn ui_press_takes_exactly_one_request_line() {
    assert_eq!(
        parse_command("ui press\n{\"action\":\"confirm\"}\n"),
        Ok(ControlCommand::UiPress("{\"action\":\"confirm\"}".to_string()))
    );
    assert_eq!(
        parse_command("ui press\n"),
        Err(CommandParseError::InvalidPress(
            "ui press requires a JSON request on the second line".to_string()
        ))
    );
    assert_eq!(
        parse_command("ui press\n{}\nextra\n"),
        Err(CommandParseError::InvalidPress(
            "ui press accepts exactly one JSON request line".to_string()
        ))
    );
}

#[test]
fn malformed_requests_get_plain_messages() {
    assert_eq!(parse_command(""), Err(CommandParseError::Legacy("empty command".to_string())));
    assert_eq!(
        parse_command("screenshot\n"),
        Err(CommandParseError::Legacy("missing screenshot output path".to_string()))
    );
    assert_eq!(
        parse_command("screenshot\n\n"),
        Err(CommandParseError::Legacy("screenshot output path must not be empty".to_string()))
    );
    assert_eq!(
        parse_command("dance\n"),
        Err(CommandParseError::Legacy("unknown command \"dance\"".to_string()))
    );
    assert_eq!(
        parse_command("say \"hi\"\n"),
        Err(CommandParseError::Legacy("unknown command \"say \\\"hi\\\"\"".to_string()))
    );
}

#[test]
fn carriage_returns_end_lines_too() {
    assert!(matches!(parse_command("status\r\n"), Ok(ControlCommand::Status)));
    let lines = split_lines("a\r\nb\n\nc");
    let texts: Vec<String> = lines.iter().map(|line| line.iter().collect()).collect();
    assert_eq!(texts, vec!["a", "b", "", "c"]);
}

#[test]
fn responses_are_one_line() {
    assert_eq!(response_line(true, "saved"), "ok saved\n");
    assert_eq!(response_line(false, "busy"), "error busy\n");
}

#[test]
fn ui_press_validation_checks_screen_revision_and_available_action() {
    let actions = vec!["confirm".to_string(), "start".to_string()];
    let refused = validate_ui_press(Some("launcher_settings"), Some(6), "confirm", "launcher_main", 7, &actions);
    assert_eq!(refused.unwrap_err().0, PressFailureCode::WrongScreen);

    let refused = validate_ui_press(Some("launcher_main"), Some(6), "confirm", "launcher_main", 7, &actions);
    assert_eq!(refused.unwrap_err().0, PressFailureCode::StaleRevision);

    let unavailable = validate_ui_press(Some("launcher_main"), Some(7), "back", "launcher_main", 7, &actions);
    assert_eq!(unavailable.unwrap_err().0, PressFailureCode::ActionUnavailable);

    assert_eq!(validate_ui_press(Some("launcher_main"), Some(7), "start", "launcher_main", 7, &actions), Ok(()));
}

#[test]
fn ui_press_refusals_carry_the_current_state() {
    let actions = vec!["confirm".to_string(), "start".to_string()];
    let state = ("launcher_main".to_string(), 7u64);
    let refused = check_ui_press(Some("launcher_main"), Some(7), "back", "launcher_main", 7, &actions, state.clone())
        .err()
        .unwrap();
    assert_eq!(refused.code, PressFailureCode::ActionUnavailable);
    assert_eq!(refused.current_state, Some(state.clone()));
    let refused = check_ui_press(Some("launcher_settings"), Some(6), "confirm", "launcher_main", 7, &actions, state.clone())
        .err()
        .unwrap();
    assert_eq!(refused.code, PressFailureCode::WrongScreen);
    assert_eq!(refused.current_state, Some(state.clone()));
    assert!(check_ui_press(Some("launcher_main"), Some(7), "start", "launcher_main", 7, &actions, state).is_ok());
}

#[test]
fn ui_press_refusals_explain_themselves() {
    let actions = vec!["confirm".to_string(), "back".to_string()];
    assert_eq!(validate_ui_press(None, None, "back", "paused", 3, &actions), Ok(()));
    assert_eq!(
        validate_ui_press(Some("paused"), Some(12), "confirm", "launcher_main", 12, &actions),
        Err((
            PressFailureCode::WrongScreen,
            "expected screen paused, but current screen is launcher_main; inspect `spacewars-cli ui state` and retry"
                .to_string()
        ))
    );
    assert_eq!(
        validate_ui_press(Some("launcher_main"), Some(11), "confirm", "launcher_main", 12, &actions),
        Err((
            PressFailureCode::StaleRevision,
            "expected UI revision 11, but current revision is 12; inspect `spacewars-cli ui state` and retry"
                .to_string()
        ))
    );
    assert_eq!(
        validate_ui_press(None, None, "start", "launcher_main", 12, &actions),
        Err((
            PressFailureCode::ActionUnavailable,
            "action start is unavailable on launcher_main; available actions: confirm, back".to_string()
        ))
    );
    assert_eq!(
        validate_ui_press(None, None, "start", "loading", 1, &vec![]),
        Err((
            PressFailureCode::ActionUnavailable,
            "action start is unavailable on loading; available actions: none".to_string()
        ))
    );
}

#[test]
fn ui_revision_changes_only_with_observed_state() {
    let observation = br#"{"screen":"gameplay","active_scenario":"pizza","paused":false}"#.to_vec();
    let mut tracker = UiRevisionTracker::new();

    let first = tracker.observe(&observation);
    let unchanged = tracker.observe(&observation);
    let changed_observation = br#"{"screen":"gameplay","active_scenario":"pizza","paused":true}"#;
    let changed = tracker.observe(changed_observation);

    assert_eq!(first, 1);
    assert_eq!(unchanged, first);
    assert_eq!(changed, first + 1);
    // Going back to an earlier state is a change too.
    assert_eq!(tracker.observe(&observation), first + 2);
}

#[test]
fn an_undecodable_press_line_is_refused_as_an_invalid_request() {
    let body = "ui press\nnot-json\n";
    let line = match parse_command(body) {
        Ok(ControlCommand::UiPress(line)) => line,
        _ => panic!("a ui press body with one line reaches the decoder"),
    };
    let decoded: Result<u32, String> = line.parse::<u32>().map_err(|error| error.to_string());
    assert!(matches!(
        ui_press_command(decoded),
        Err(CommandParseError::InvalidPress(message)) if message == "invalid digit found in string"
    ));
    assert!(matches!(ui_press_command::<u32>(Ok(7)), Ok(7)));
}
