use engine_client::probe::{
    check_viewport, output_stride, parse_rotation, probe_variants, rotated_size, xrgb_from_rgb, Measurement, Options,
    ProbeRotation, ProbeVariant, DEFAULT_PRESENTATION_FRAMES, DEFAULT_PRESENTATION_REPEATS,
};

#[test]
fn presentation_options_check_their_ranges() {
    let options = Options::from_values(
        true,
        DEFAULT_PRESENTATION_FRAMES,
        DEFAULT_PRESENTATION_REPEATS,
        true,
        false,
    )
    .unwrap();
    assert!(options.benchmark_presentation);
    assert_eq!(options.frames(), 120);
    assert_eq!(options.repeats(), 4);
    assert!(options.detail());
    assert!(!options.republish());

    assert!(Options::from_values(true, 0, 4, false, false).is_none());
    assert!(Options::from_values(true, 10_001, 4, false, false).is_none());
    assert!(Options::from_values(true, 10_000, 20, false, false).is_some());
    assert!(Options::from_values(true, 1, 21, false, false).is_none());
    assert!(!Options::default().benchmark_presentation);
}

#[test]
fn pixels_pack_as_opaque_xrgb() {
    assert_eq!(xrgb_from_rgb(0x12, 0x34, 0x56), 0xff12_3456);
    assert_eq!(xrgb_from_rgb(0, 0, 0), 0xff00_0000);
}

#[test]
fn nested_spans_are_timed_once_and_counted_twice() {
    let mut measurement = Measurement::default();
    measurement.begin(100);
    measurement.begin(130);
    measurement.end(150);
    measurement.end(190);
    assert_eq!(measurement.elapsed, 90);
    assert_eq!(measurement.calls, 2);
    assert_eq!(measurement.depth, 0);

    measurement.begin(200);
    measurement.end(205);
    assert_eq!(measurement.elapsed, 95);
    assert_eq!(measurement.calls, 3);
}

#[test]
fn memory_lab_rotation_stride_and_variants() {
    assert_eq!(parse_rotation("90"), Ok(ProbeRotation::Rotate90));
    assert_eq!(parse_rotation("0"), Ok(ProbeRotation::NoRotation));
    assert_eq!(parse_rotation("45"), Err("invalid presentation rotation".to_string()));
    assert_eq!(rotated_size(ProbeRotation::Rotate270, 640, 480), (480, 640));
    assert_eq!(rotated_size(ProbeRotation::Rotate180, 640, 480), (640, 480));
    assert_eq!(output_stride(None, 640), Ok(647));
    assert_eq!(output_stride(Some(2560), 640), Ok(640));
    assert_eq!(output_stride(Some(2558), 600), Err("DRM returned an invalid XRGB stride".to_string()));
    assert_eq!(output_stride(Some(2556), 640), Err("DRM returned an invalid XRGB stride".to_string()));
    assert_eq!(probe_variants(false).len(), 4);
    let with_device = probe_variants(true);
    assert_eq!(with_device.len(), 6);
    assert_eq!(with_device[2], ProbeVariant { drm: true, shortcut: false, staged: false });
    assert_eq!(with_device[5], ProbeVariant { drm: true, shortcut: true, staged: true });
}

#[test]
fn the_lab_refuses_viewports_over_2048_pixels_a_side() {
    assert_eq!(check_viewport(2048, 2048), Ok(()));
    assert_eq!(check_viewport(2049, 10), Err("presentation viewport must be at most 2048×2048".to_string()));
    assert_eq!(check_viewport(10, 4096), Err("presentation viewport must be at most 2048×2048".to_string()));
}
