use engine_client::native_video::{
    rgb565_to_rgb888, slint_dimension, NativeVideoError, NativeVideoRenderer, Rgb8, BUFFER_COUNT,
};
use engine_client::presenter::NativeVideoPresenter;
use engine_client::video::{
    NativePixelFormat, NativeVideoCrop, NativeVideoDescriptor, NativeVideoFrame, NativeVideoTiming,
    RealtimeVideoMetadata, TelemetryCounters, VideoHandoff,
};

#[test]
fn converts_native_indices_and_preserves_crop_metadata() {
    let indices = [0_u8, 1, 1, 0];
    let palette = [0x0000, 0xffff];
    let mut renderer = NativeVideoRenderer::new();
    let presentation = renderer
        .present(&NativeVideoFrame {
            width: 2,
            height: 2,
            visible_crop: NativeVideoCrop { x: 0, y: 1, width: 2, height: 1 },
            pixel_format: NativePixelFormat::Indexed8Rgb565,
            frame_id: 9,
            pixels: &indices,
            palette_rgb565: &palette,
            timing: Some(NativeVideoTiming { emulated_ticks: 100, input_sequence_id: 3 }),
        })
        .unwrap();

    let pixels = renderer.buffer(presentation.buffer);
    assert_eq!(pixels[0], Rgb8 { r: 0, g: 0, b: 0 });
    assert_eq!(pixels[1], Rgb8 { r: 255, g: 255, b: 255 });
    assert_eq!(presentation.source_crop.height, 1);
    assert_eq!(presentation.frame_id, 9);
    assert_eq!(presentation.timing.unwrap().input_sequence_id, 3);
    assert_eq!(renderer.buffers_len(), BUFFER_COUNT);
}

#[test]
fn rejects_out_of_range_palette_indices() {
    let mut renderer = NativeVideoRenderer::new();
    let error = renderer
        .present(&NativeVideoFrame {
            width: 1,
            height: 1,
            visible_crop: NativeVideoCrop::full(1, 1),
            pixel_format: NativePixelFormat::Indexed8Rgb565,
            frame_id: 0,
            pixels: &[2],
            palette_rgb565: &[0],
            timing: None,
        })
        .unwrap_err();
    assert_eq!(error, NativeVideoError::PaletteIndexOutOfRange { index: 2, palette_len: 1 });
    assert_eq!(error.message(), "native video palette index 2 exceeds palette length 1");
}

#[test]
fn buffers_rotate_and_a_resize_starts_over() {
    let palette = [0x0000, 0xf800];
    let mut renderer = NativeVideoRenderer::new();
    let frame = NativeVideoFrame {
        width: 1,
        height: 1,
        visible_crop: NativeVideoCrop::full(1, 1),
        pixel_format: NativePixelFormat::Indexed8Rgb565,
        frame_id: 1,
        pixels: &[1],
        palette_rgb565: &palette,
        timing: None,
    };
    let used: Vec<usize> =
        (0..4).map(|_| renderer.present(&frame).unwrap().buffer).collect();
    assert_eq!(used, vec![0, 1, 2, 0]);
    assert_eq!(renderer.buffer(0), &[Rgb8 { r: 255, g: 0, b: 0 }]);

    let wide = NativeVideoFrame {
        width: 2,
        visible_crop: NativeVideoCrop::full(2, 1),
        pixels: &[0, 1],
        ..frame
    };
    assert_eq!(renderer.present(&wide).unwrap().buffer, 0);
    assert_eq!(renderer.buffer(0).len(), 2);

    let broken = NativeVideoFrame { pixels: &[0], ..wide };
    assert_eq!(renderer.present(&broken), Err(NativeVideoError::InvalidLayout));
}

#[test]
fn rgb565_channels_expand_to_full_range() {
    assert_eq!(rgb565_to_rgb888(0xffff), Rgb8 { r: 255, g: 255, b: 255 });
    assert_eq!(rgb565_to_rgb888(0x0000), Rgb8 { r: 0, g: 0, b: 0 });
    // Green has six bits: 0b100000 of 63 rounds to 130.
    assert_eq!(rgb565_to_rgb888(0x0400), Rgb8 { r: 0, g: 130, b: 0 });
    assert_eq!(rgb565_to_rgb888(0x0001), Rgb8 { r: 0, g: 0, b: 8 });
}

#[test]
fn dimensions_beyond_i32_are_refused() {
    assert_eq!(slint_dimension(640), Ok(640));
    assert_eq!(
        slint_dimension(u32::MAX),
        Err(NativeVideoError::SlintDimensionOutOfRange { value: u32::MAX })
    );
}

fn handoff_with(palette: &[u16]) -> (VideoHandoff, NativeVideoPresenter) {
    let frame = NativeVideoFrame {
        width: 2,
        height: 1,
        visible_crop: NativeVideoCrop::full(2, 1),
        pixel_format: NativePixelFormat::Indexed8Rgb565,
        frame_id: 0,
        pixels: &[0, 0],
        palette_rgb565: palette,
        timing: None,
    };
    let descriptor = NativeVideoDescriptor::from_frame(&frame).unwrap();
    let presenter = NativeVideoPresenter::new(&descriptor);
    (VideoHandoff::new(descriptor, TelemetryCounters::default()), presenter)
}

#[test]
fn the_presenter_shows_each_new_frame_once() {
    let palette = [0x0000, 0xffff];
    let (mut handoff, mut presenter) = handoff_with(&palette);
    assert_eq!(presenter.present_latest(&mut handoff), Ok(None));

    let frame = NativeVideoFrame {
        width: 2,
        height: 1,
        visible_crop: NativeVideoCrop::full(2, 1),
        pixel_format: NativePixelFormat::Indexed8Rgb565,
        frame_id: 41,
        pixels: &[1, 0],
        palette_rgb565: &palette,
        timing: None,
    };
    let metadata = RealtimeVideoMetadata {
        frame_id: 41,
        emulated_ticks: 500,
        input_sequence_id: 3,
        ..RealtimeVideoMetadata::default()
    };
    handoff.publish(&frame, metadata).unwrap();
    let presentation = presenter.present_latest(&mut handoff).unwrap().unwrap();
    assert_eq!(presentation.frame_id, 41);
    assert_eq!(
        presentation.timing,
        Some(NativeVideoTiming { emulated_ticks: 500, input_sequence_id: 3 })
    );
    assert_eq!(
        presenter.renderer().buffer(presentation.buffer),
        &[Rgb8 { r: 255, g: 255, b: 255 }, Rgb8 { r: 0, g: 0, b: 0 }]
    );
    assert_eq!(handoff.counters().submitted_video_frames, 1);
    assert_eq!(handoff.counters().last_submitted_frame_id, 41);
    // Nothing new: a duplicate poll.
    assert_eq!(presenter.present_latest(&mut handoff), Ok(None));
    assert_eq!(handoff.counters().duplicate_video_polls, 2);
}

#[test]
fn a_frame_beyond_the_palette_is_refused_and_not_submitted() {
    let palette = [0x0000];
    let (mut handoff, mut presenter) = handoff_with(&palette);
    let frame = NativeVideoFrame {
        width: 2,
        height: 1,
        visible_crop: NativeVideoCrop::full(2, 1),
        pixel_format: NativePixelFormat::Indexed8Rgb565,
        frame_id: 5,
        pixels: &[0, 3],
        palette_rgb565: &palette,
        timing: None,
    };
    handoff.publish(&frame, RealtimeVideoMetadata::default()).unwrap();
    assert_eq!(
        presenter.present_latest(&mut handoff),
        Err("native video palette index 3 exceeds palette length 1".to_string())
    );
    assert_eq!(handoff.counters().submitted_video_frames, 0);
    assert_eq!(handoff.counters().consumed_video_frames, 1);
}
