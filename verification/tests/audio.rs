use engine_client::audio::{AudioOutputPlan, AudioShared, RealtimeAudioEndpoint};

fn write_output(endpoint: &mut RealtimeAudioEndpoint, output: &mut [f32], channels: usize) {
    match endpoint.plan_output(output.len(), channels) {
        AudioOutputPlan::Untouched => {}
        AudioOutputPlan::Silence => output.fill(0.0),
        AudioOutputPlan::Frames { samples, muted, volume_q15, silence_tail } => {
            let volume = volume_q15 as f32 / 32_768.0;
            for (frame, sample) in output.chunks_mut(channels).zip(samples.iter()) {
                let value = if muted { 0.0 } else { f32::from(*sample) / 32_768.0 * volume };
                frame.fill(value);
            }
            if silence_tail {
                output[samples.len() * channels..].fill(0.0);
            }
        }
    }
}

fn set_volume(endpoint: &mut RealtimeAudioEndpoint, volume: f32) {
    let volume = if volume.is_finite() { volume.clamp(0.0, 1.0) } else { 0.0 };
    endpoint.set_volume_q15((volume * 32_768.0).round() as u32);
}

#[test]
fn full_ring_drops_overflow_without_exceeding_capacity() {
    let mut endpoint = RealtimeAudioEndpoint::from_shared(AudioShared::new(4, 1));
    endpoint.push_samples(&[1, 2]);
    endpoint.set_paused(false);
    // Resume intentionally discards pre-transition samples.
    endpoint.push_samples(&[10, 11, 12, 13, 14, 15]);
    let (mut read, write) = endpoint.begin_read();
    let mut samples = Vec::new();
    while read < write {
        samples.push(endpoint.ring().sample(read));
        read += 1;
    }
    endpoint.commit_read(read);

    assert_eq!(samples, vec![10, 11, 12, 13]);
    assert_eq!(endpoint.telemetry().overflow_samples, 2);
    assert_eq!(endpoint.telemetry().capacity_samples, 4);
}

#[test]
fn pause_and_resume_discard_old_samples_without_counting_silence_as_underrun() {
    let mut endpoint = RealtimeAudioEndpoint::from_shared(AudioShared::new(8, 1));
    endpoint.push_samples(&[10]);
    endpoint.set_paused(false);
    endpoint.push_samples(&[16_384]);
    let mut output = [0.0_f32; 2];
    write_output(&mut endpoint, &mut output, 2);
    assert_eq!(output, [0.5, 0.5]);

    endpoint.set_paused(true);
    endpoint.push_samples(&[32_000]);
    write_output(&mut endpoint, &mut output, 2);
    assert_eq!(output, [0.0, 0.0]);
    assert_eq!(endpoint.telemetry().underrun_samples, 0);
}

#[test]
fn underrun_returns_to_priming_instead_of_growing_latency() {
    let mut endpoint = RealtimeAudioEndpoint::from_shared(AudioShared::new(8, 2));
    endpoint.set_paused(false);
    endpoint.push_samples(&[8_192, 16_384]);
    let mut output = [0.0_f32; 4];
    write_output(&mut endpoint, &mut output, 1);

    assert_eq!(output, [0.25, 0.5, 0.0, 0.0]);
    let telemetry = endpoint.telemetry();
    assert_eq!(telemetry.underrun_samples, 2);
    assert!(!telemetry.primed);
}

#[test]
fn mute_and_volume_do_not_stop_consumption() {
    let mut endpoint = RealtimeAudioEndpoint::from_shared(AudioShared::new(8, 1));
    endpoint.set_paused(false);
    set_volume(&mut endpoint, 0.5);
    endpoint.push_samples(&[16_384]);
    let mut output = [0.0_f32; 1];
    write_output(&mut endpoint, &mut output, 1);
    assert_eq!(output, [0.25]);

    endpoint.set_muted(true);
    endpoint.push_samples(&[16_384]);
    write_output(&mut endpoint, &mut output, 1);
    assert_eq!(output, [0.0]);
    assert_eq!(endpoint.telemetry().consumed_samples, 2);
}

#[test]
fn priming_waits_for_the_target_depth() {
    let mut endpoint = RealtimeAudioEndpoint::from_shared(AudioShared::new(8, 3));
    endpoint.set_paused(false);
    endpoint.push_samples(&[1, 2]);
    assert_eq!(endpoint.plan_output(2, 1), AudioOutputPlan::Silence);
    assert!(!endpoint.telemetry().primed);
    endpoint.push_samples(&[3]);
    match endpoint.plan_output(2, 1) {
        AudioOutputPlan::Frames { samples, silence_tail, .. } => {
            assert_eq!(samples, vec![1, 2]);
            assert!(!silence_tail);
        }
        other => panic!("expected frames, got {other:?}"),
    }
    assert!(endpoint.telemetry().primed);
    assert_eq!(endpoint.telemetry().current_depth_samples, 1);
}

#[test]
fn zero_channels_leave_the_buffer_and_queue_alone() {
    let mut endpoint = RealtimeAudioEndpoint::from_shared(AudioShared::new(8, 1));
    endpoint.set_paused(false);
    endpoint.push_samples(&[5]);
    assert_eq!(endpoint.plan_output(4, 0), AudioOutputPlan::Untouched);
    let telemetry = endpoint.telemetry();
    assert_eq!(telemetry.callback_count, 1);
    assert_eq!(telemetry.current_depth_samples, 1);
}

#[test]
fn volume_is_capped_at_unity_and_high_water_follows_depth() {
    let mut endpoint = RealtimeAudioEndpoint::new(0);
    endpoint.set_volume_q15(70_000);
    endpoint.set_paused(false);
    endpoint.push_samples(&[1, 2, 3]);
    let telemetry = endpoint.telemetry();
    assert_eq!(telemetry.target_depth_samples, 1);
    assert_eq!(telemetry.high_water_samples, 3);
    assert!(telemetry.active);
    match endpoint.plan_output(1, 1) {
        AudioOutputPlan::Frames { volume_q15, .. } => assert_eq!(volume_q15, 32_768),
        other => panic!("expected frames, got {other:?}"),
    }
    endpoint.record_device_error();
    assert_eq!(endpoint.telemetry().device_errors, 1);
}
