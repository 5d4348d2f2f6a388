use engine_client::sound::{adjust_settings, adjusted, next_volume_percent, AppPreferences, AudioPreferences};

fn prefs(volume_percent: i32, muted: bool) -> AudioPreferences {
    AudioPreferences { volume_percent, muted }
}

#[test]
fn fps_counter_is_global_and_adjusting_it_does_not_change_audio() {
    let mut settings = AppPreferences { audio: prefs(5, true), show_fps: false };
    let audio = settings.audio;
    assert!(!settings.show_fps);
    assert!(adjust_settings(&mut settings, 2, 0));
    assert!(settings.show_fps);
    assert!(!adjust_settings(&mut settings, 2, 1));
    assert!(adjust_settings(&mut settings, 2, -1));
    assert!(!settings.show_fps);
    assert!(!adjust_settings(&mut settings, 2, -1));
    assert_eq!(settings.audio, audio);
    assert!(adjust_settings(&mut settings, 2, 1));
    assert!(adjust_settings(&mut settings, 0, -1));
    assert!(settings.show_fps, "audio adjustments preserve the overlay");
}

#[test]
fn volume_steps_clamp_without_unmuting() {
    let mut audio = prefs(98, true);
    audio = adjusted(audio, 0, 1);
    assert_eq!(audio.volume_percent, 100);
    assert_eq!(adjusted(audio, 0, 1), audio);
    for _ in 0..100 {
        audio = adjusted(audio, 0, -1);
    }
    assert_eq!(audio.volume_percent, 0);
    assert!(audio.muted);
    assert_eq!(adjusted(audio, 0, 1).volume_percent, 1);
}

#[test]
fn quiet_volume_has_fine_reversible_steps_and_preserves_saved_gain() {
    let stops: Vec<i32> = (0..=20).chain((25..=100).step_by(5)).collect();
    for pair in stops.windows(2) {
        assert_eq!(next_volume_percent(pair[0], 1), pair[1]);
        assert_eq!(next_volume_percent(pair[1], -1), pair[0]);
    }
    assert_eq!(next_volume_percent(10, -1), 9);
    assert_eq!(next_volume_percent(23, -1), 20);
    assert_eq!(next_volume_percent(23, 1), 25);
    let saved = prefs(10, false);
    assert_eq!(adjusted(saved, 0, 0), saved);
    assert_eq!(adjusted(saved, 0, -1).volume_percent, 9);
}

#[test]
fn mute_toggle_preserves_volume_and_directional_input_is_idempotent() {
    let audio = prefs(100, false);
    let muted = adjusted(audio, 1, 0);
    assert!(muted.muted);
    assert_eq!(muted.volume_percent, audio.volume_percent);
    assert_eq!(adjusted(muted, 1, 1), muted);
    assert_eq!(adjusted(muted, 1, -1), audio);
    assert_eq!(adjusted(audio, 1, -1), audio);
    assert_eq!(adjusted(muted, 1, 0), audio);
}

#[test]
fn out_of_range_volumes_are_normalized_first() {
    assert_eq!(adjusted(prefs(250, false), 3, 0), prefs(100, false));
    assert_eq!(adjusted(prefs(-5, true), 0, 1), prefs(1, true));
    assert_eq!(next_volume_percent(100, 1), 100);
    assert_eq!(next_volume_percent(0, -1), 0);
    assert_eq!(next_volume_percent(42, 0), 42);
}

#[test]
fn extreme_volumes_step_without_overflow_in_the_direction_asked() {
    assert_eq!(engine_client::sound::next_volume_percent(i32::MIN, 1), i32::MIN + 1);
    assert_eq!(engine_client::sound::next_volume_percent(i32::MAX, -1), 2_147_483_645);
    assert_eq!(engine_client::sound::next_volume_percent(i32::MAX, 0), i32::MAX);
    assert_eq!(engine_client::sound::next_volume_percent(i32::MIN, 0), i32::MIN);
}
