//! The presenter's side of the realtime video path: take the newest frame out
//! of the handoff, convert it into the next RGB buffer, check that its crop
//! fits the UI toolkit, and record it as submitted.

use vstd::prelude::*;

use crate::native_video::{
    first_bad_index, native_video_error_text, rgb888, slint_dimension, NativeVideoError,
    NativeVideoPresentation, NativeVideoRenderer, BUFFER_COUNT,
};
use crate::video::{
    handoff_error_message, HandoffView, NativeVideoDescriptor, NativeVideoFrame,
    NativeVideoTiming, TelemetryCounters, VideoHandoff,
};

verus! {

/// A frame of `descriptor`'s format with `len` pixel indices is well laid out.
pub open spec fn layout_ok(d: NativeVideoDescriptor, len: nat) -> bool {
    &&& d.width > 0
    &&& d.height > 0
    &&& len == d.width as int * d.height as int
    &&& d.palette_rgb565@.len() > 0
    &&& d.visible_crop.width > 0
    &&& d.visible_crop.height > 0
    &&& d.visible_crop.x as int + d.visible_crop.width as int <= d.width as int
    &&& d.visible_crop.y as int + d.visible_crop.height as int <= d.height as int
}

/// Why the frame with indices `pixels` in `descriptor`'s format cannot be
/// shown, checked in order: its layout, its palette indices, then the crop's
/// x, y, width and height against the toolkit's range.
pub open spec fn presentation_error(d: NativeVideoDescriptor, pixels: Seq<u8>) -> Option<NativeVideoError> {
    if !layout_ok(d, pixels.len()) {
        Some(NativeVideoError::InvalidLayout)
    } else if first_bad_index(pixels, d.palette_rgb565@.len()) is Some {
        let bad = first_bad_index(pixels, d.palette_rgb565@.len())->0;
        Some(
            NativeVideoError::PaletteIndexOutOfRange {
                index: pixels[bad],
                palette_len: d.palette_rgb565@.len() as usize,
            },
        )
    } else if d.visible_crop.x > i32::MAX {
        Some(NativeVideoError::SlintDimensionOutOfRange { value: d.visible_crop.x })
    } else if d.visible_crop.y > i32::MAX {
        Some(NativeVideoError::SlintDimensionOutOfRange { value: d.visible_crop.y })
    } else if d.visible_crop.width > i32::MAX {
        Some(NativeVideoError::SlintDimensionOutOfRange { value: d.visible_crop.width })
    } else if d.visible_crop.height > i32::MAX {
        Some(NativeVideoError::SlintDimensionOutOfRange { value: d.visible_crop.height })
    } else {
        None
    }
}

/// The handoff after the newest frame was copied out: it is consumed and the
/// outstanding wakeup ends.
pub open spec fn copied_view(before: HandoffView) -> HandoffView {
    HandoffView {
        consumed: before.latest,
        wake_outstanding: false,
        counters: TelemetryCounters {
            consumed_video_frames: before.counters.consumed_video_frames.wrapping_add(1),
            ..before.counters
        },
        ..before
    }
}

/// The handoff after a poll that found nothing new.
pub open spec fn polled_view(before: HandoffView) -> HandoffView {
    HandoffView {
        wake_outstanding: false,
        counters: TelemetryCounters {
            duplicate_video_polls: before.counters.duplicate_video_polls.wrapping_add(1),
            ..before.counters
        },
        ..before
    }
}

/// The handoff after frame `frame_id` was submitted for display.
pub open spec fn submitted_view(before: HandoffView, frame_id: u64) -> HandoffView {
    HandoffView {
        counters: TelemetryCounters {
            submitted_video_frames: before.counters.submitted_video_frames.wrapping_add(1),
            last_submitted_frame_id: frame_id,
            ..before.counters
        },
        ..before
    }
}

/// Converts the frames of one handoff for display.
pub struct NativeVideoPresenter {
    renderer: NativeVideoRenderer,
    pixels: Vec<u8>,
}

impl NativeVideoPresenter {
    /// Its scratch buffer holds one frame of indices.
    pub closed spec fn pixel_len(&self) -> nat {
        self.pixels@.len()
    }

    pub closed spec fn renderer_spec(&self) -> NativeVideoRenderer {
        self.renderer
    }

    /// The renderer whose buffers hold the converted frames.
    pub fn renderer(&self) -> (renderer: &NativeVideoRenderer)
        ensures
            *renderer == self.renderer_spec(),
    {
        &self.renderer
    }

    /// A presenter for frames of `descriptor`'s format.
    pub fn new(descriptor: &NativeVideoDescriptor) -> (presenter: Self)
        ensures
            presenter.renderer_spec().wf(),
            presenter.renderer_spec().buffer_count() == 0,
            presenter.pixel_len() == descriptor.pixel_count_spec(),
    {
        let mut pixels: Vec<u8> = Vec::new();
        let mut i: usize = 0;
        while i < descriptor.pixel_count
            invariant
                i <= descriptor.pixel_count,
                pixels@.len() == i,
            decreases descriptor.pixel_count - i,
        {
            pixels.push(0);
            i = i + 1;
        }
        NativeVideoPresenter { renderer: NativeVideoRenderer::new(), pixels }
    }

    /// Presents the newest frame of `handoff`, if one arrived since the last
    /// call: it is copied out, converted into the renderer's next buffer and
    /// recorded as submitted. `None` when nothing new was published. A frame
    /// that cannot be shown is an error, and is not recorded as submitted.
    pub fn present_latest(&mut self, handoff: &mut VideoHandoff) -> (r: Result<
        Option<NativeVideoPresentation>,
        String,
    >)
        requires
            old(self).renderer_spec().wf(),
            old(handoff).wf(),
            old(self).pixel_len() == old(handoff).descriptor_spec().pixel_count_spec(),
        ensures
            final(self).renderer_spec().wf(),
            final(handoff).wf(),
            final(self).pixel_len() == old(self).pixel_len(),
            final(handoff).descriptor_spec() == old(handoff).descriptor_spec(),
            ({
                let before = old(handoff)@;
                let d = *old(handoff).descriptor_spec();
                if before.latest <= before.consumed {
                    &&& r == Ok::<Option<NativeVideoPresentation>, String>(None)
                    &&& final(handoff)@ == polled_view(before)
                } else {
                    match presentation_error(d, before.latest_pixels) {
                        Some(error) => {
                            &&& r matches Err(message) && message@ == native_video_error_text(error)
                            &&& final(handoff)@ == copied_view(before)
                        },
                        None => {
                            let metadata = before.latest_metadata;
                            &&& r matches Ok(Some(p)) && {
                                &&& p.source_crop == d.visible_crop
                                &&& p.frame_id == metadata.frame_id
                                &&& p.timing == Some(
                                    NativeVideoTiming {
                                        emulated_ticks: metadata.emulated_ticks,
                                        input_sequence_id: metadata.input_sequence_id,
                                    },
                                )
                                &&& p.buffer < BUFFER_COUNT
                                &&& p.buffer < final(self).renderer_spec().buffer_count()
                                &&& final(self).renderer_spec().buffer_spec(p.buffer as int).len()
                                    == before.latest_pixels.len()
                                &&& forall|k: int|
                                    0 <= k < before.latest_pixels.len() ==> #[trigger] final(self).renderer_spec().buffer_spec(p.buffer as int)[k]
                                        == rgb888(d.palette_rgb565@[before.latest_pixels[k] as int])
                            }
                            &&& final(handoff)@ == submitted_view(
                                copied_view(before),
                                metadata.frame_id,
                            )
                        },
                    }
                }
            }),
    {
        let ghost before = handoff@;
        proof {
            if before.latest > before.consumed {
                crate::video::lemma_latest_frame_fits(handoff);
            }
        }
        let copied = handoff.try_copy_latest(self.pixels.as_mut_slice());
        let metadata = match copied {
            Ok(Some(metadata)) => metadata,
            Ok(None) => return Ok(None),
            Err(error) => {
                // The scratch buffer always holds exactly one frame.
                assert(false);
                return Err(handoff_error_message(&error));
            },
        };
        let descriptor = handoff.descriptor();
        let frame = NativeVideoFrame {
            width: descriptor.width,
            height: descriptor.height,
            visible_crop: descriptor.visible_crop,
            pixel_format: descriptor.pixel_format,
            frame_id: metadata.frame_id,
            pixels: self.pixels.as_slice(),
            palette_rgb565: descriptor.palette_rgb565.as_slice(),
            timing: Some(
                NativeVideoTiming {
                    emulated_ticks: metadata.emulated_ticks,
                    input_sequence_id: metadata.input_sequence_id,
                },
            ),
        };
        let ghost r0 = self.renderer;
        let presented = self.renderer.present(&frame);
        let presentation = match presented {
            Ok(p) => p,
            Err(error) => {
                proof {
                    let pixels = before.latest_pixels;
                    let len = descriptor.palette_rgb565@.len();
                    if let NativeVideoError::PaletteIndexOutOfRange { .. } = error {
                        let bad = choose|bad: int|
                            0 <= bad < pixels.len() && pixels[bad] >= len && (forall|k: int|
                                0 <= k < bad ==> pixels[k] < len) && error
                                == (NativeVideoError::PaletteIndexOutOfRange {
                                index: pixels[bad],
                                palette_len: len as usize,
                            });
                        assert(first_bad_index(pixels, len) is Some);
                        let first = first_bad_index(pixels, len)->0;
                        assert(first == bad) by {
                            if first < bad {
                                assert(pixels[first] < len);
                            } else if bad < first {
                                assert(pixels[bad] < len);
                            }
                        }
                    }
                }
                return Err(error.message());
            },
        };
        proof {
            let pixels = before.latest_pixels;
            let len = descriptor.palette_rgb565@.len();
            assert(frame.pixels@ == pixels);
            assert(frame.palette_rgb565@ == descriptor.palette_rgb565@);
            assert(first_bad_index(pixels, len) is None);
            let kept = r0.size() == (frame.width, frame.height) && r0.buffer_count() == BUFFER_COUNT;
            let used: int = if kept { r0.next_buffer() as int } else { 0 };
            assert(presentation.buffer as int == used);
            assert forall|k: int| 0 <= k < pixels.len() implies #[trigger] self.renderer.buffer_spec(
                presentation.buffer as int,
            )[k] == rgb888(descriptor.palette_rgb565@[pixels[k] as int]) by {
                assert(frame.pixels@[k] == pixels[k]);
                assert(self.renderer.buffer_spec(used)[k] == rgb888(
                    frame.palette_rgb565@[frame.pixels@[k] as int],
                ));
            }
        }
        let crop = presentation.source_crop;
        match slint_dimension(crop.x) {
            Ok(_) => {},
            Err(error) => return Err(error.message()),
        }
        match slint_dimension(crop.y) {
            Ok(_) => {},
            Err(error) => return Err(error.message()),
        }
        match slint_dimension(crop.width) {
            Ok(_) => {},
            Err(error) => return Err(error.message()),
        }
        match slint_dimension(crop.height) {
            Ok(_) => {},
            Err(error) => return Err(error.message()),
        }
        handoff.mark_submitted(presentation.frame_id);
        Ok(Some(presentation))
    }
}

} // verus!
