use engine_client::output_config::{
    choose_buffer_size, choose_output_config, device_target_depth, output_description,
    sample_format_rank, BufferRequest, DeviceBufferSize, OutputConfigRange, OutputSampleFormat,
};

fn range(min: u32, max: u32, channels: u16, sample_format: OutputSampleFormat) -> OutputConfigRange {
    OutputConfigRange { min_sample_rate: min, max_sample_rate: max, channels, sample_format }
}

#[test]
fn float_stereo_at_the_emulator_rate_is_preferred() {
    let configs = vec![
        range(44_100, 44_100, 2, OutputSampleFormat::F32),
        range(8_000, 96_000, 2, OutputSampleFormat::Other),
        range(8_000, 96_000, 6, OutputSampleFormat::F32),
        range(8_000, 96_000, 2, OutputSampleFormat::I16),
        range(8_000, 96_000, 1, OutputSampleFormat::F32),
        range(8_000, 96_000, 3, OutputSampleFormat::F32),
    ];
    // Mono and three channels are equally far from stereo: fewer wins.
    assert_eq!(choose_output_config(&configs), Some(4));

    let with_stereo = vec![
        range(8_000, 96_000, 2, OutputSampleFormat::U16),
        range(48_000, 48_000, 2, OutputSampleFormat::F32),
        range(8_000, 96_000, 2, OutputSampleFormat::F32),
    ];
    // Equal keys keep the first.
    assert_eq!(choose_output_config(&with_stereo), Some(1));
}

#[test]
fn no_usable_configuration_is_none() {
    assert_eq!(choose_output_config(&vec![]), None);
    let configs = vec![
        range(44_100, 44_100, 2, OutputSampleFormat::F32),
        range(8_000, 96_000, 2, OutputSampleFormat::Other),
    ];
    assert_eq!(choose_output_config(&configs), None);
}

#[test]
fn formats_rank_float_signed_unsigned() {
    assert_eq!(sample_format_rank(OutputSampleFormat::F32), Some(0));
    assert_eq!(sample_format_rank(OutputSampleFormat::I16), Some(1));
    assert_eq!(sample_format_rank(OutputSampleFormat::U16), Some(2));
    assert_eq!(sample_format_rank(OutputSampleFormat::Other), None);
}

#[test]
fn buffer_requests_clamp_the_desired_length() {
    assert_eq!(
        choose_buffer_size(DeviceBufferSize::Range { min: 64, max: 4096 }),
        (BufferRequest::Fixed(256), 256)
    );
    assert_eq!(
        choose_buffer_size(DeviceBufferSize::Range { min: 512, max: 4096 }),
        (BufferRequest::Fixed(512), 512)
    );
    assert_eq!(
        choose_buffer_size(DeviceBufferSize::Range { min: 16, max: 128 }),
        (BufferRequest::Fixed(128), 128)
    );
    assert_eq!(choose_buffer_size(DeviceBufferSize::Unknown), (BufferRequest::Default, 512));
}

#[test]
fn priming_depth_is_two_buffers_within_bounds() {
    assert_eq!(device_target_depth(256), 768);
    assert_eq!(device_target_depth(512), 1024);
    assert_eq!(device_target_depth(4096), 4096);
    assert_eq!(device_target_depth(usize::MAX), 4096);
}

#[test]
fn outputs_describe_themselves() {
    assert_eq!(
        output_description("Speakers", 2, OutputSampleFormat::F32, 256),
        "Speakers; 2 channels; 48000 Hz; F32; 256-frame requested buffer"
    );
    assert_eq!(
        output_description("USB", 1, OutputSampleFormat::I16, 0),
        "USB; 1 channels; 48000 Hz; I16; default buffer"
    );
}
