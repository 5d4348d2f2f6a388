//! Native video frames and the bounded handoff from the emulator worker to the
//! presenter: three slots, generations that only grow, at most one pending
//! wakeup, and counters for coalesced frames and duplicate polls.

use vstd::prelude::*;

verus! {

/// Slots in a video handoff.
pub const VIDEO_SLOT_COUNT: usize = 3;

/// Marker for "no slot published yet".
pub const NO_VIDEO_SLOT: usize = usize::MAX;

/// Pixel encodings a native frame can use.
#[derive(Debug, Clone, Copy, PartialEq, Eq, Structural)]
pub enum NativePixelFormat {
    /// One byte per pixel indexing an RGB565 palette.
    Indexed8Rgb565,
}

/// The part of a native frame that is meant to be shown.
#[derive(Debug, Clone, Copy, PartialEq, Eq, Structural)]
pub struct NativeVideoCrop {
    pub x: u32,
    pub y: u32,
    pub width: u32,
    pub height: u32,
}

impl NativeVideoCrop {
    /// The whole `width` by `height` frame.
    pub fn full(width: u32, height: u32) -> (crop: Self)
        ensures
            crop == (NativeVideoCrop { x: 0, y: 0, width, height }),
    {
        NativeVideoCrop { x: 0, y: 0, width, height }
    }
}

/// Emulation timing attached to a native frame.
#[derive(Debug, Clone, Copy, PartialEq, Eq, Structural)]
pub struct NativeVideoTiming {
    pub emulated_ticks: u64,
    pub input_sequence_id: u64,
}

/// A borrowed frame in the emulator's native pixel layout.
#[derive(Debug, Clone, Copy)]
pub struct NativeVideoFrame<'a> {
    pub width: u32,
    pub height: u32,
    pub visible_crop: NativeVideoCrop,
    pub pixel_format: NativePixelFormat,
    pub frame_id: u64,
    pub pixels: &'a [u8],
    pub palette_rgb565: &'a [u16],
    pub timing: Option<NativeVideoTiming>,
}

/// A frame is well laid out when it is non-empty, holds exactly one index per
/// pixel, has a palette, and its crop is a non-empty part of the frame.
pub open spec fn valid_layout(frame: NativeVideoFrame) -> bool {
    &&& frame.width > 0
    &&& frame.height > 0
    &&& frame.pixels@.len() == frame.width as int * frame.height as int
    &&& frame.palette_rgb565@.len() > 0
    &&& frame.visible_crop.width > 0
    &&& frame.visible_crop.height > 0
    &&& frame.visible_crop.x as int + frame.visible_crop.width as int <= frame.width as int
    &&& frame.visible_crop.y as int + frame.visible_crop.height as int <= frame.height as int
}

/// Checks `valid_layout`.
pub fn has_valid_layout(frame: &NativeVideoFrame) -> (valid: bool)
    ensures
        valid == valid_layout(*frame),
{
    let w = frame.width as u64;
    let h = frame.height as u64;
    assert(w * h <= 0xffff_ffff_u64 * 0xffff_ffff_u64) by (nonlinear_arith)
        requires
            w <= 0xffff_ffff,
            h <= 0xffff_ffff,
    ;
    let area = w * h;
    frame.width > 0 && frame.height > 0 && frame.pixels.len() as u64 == area
        && frame.palette_rgb565.len() > 0 && frame.visible_crop.width > 0
        && frame.visible_crop.height > 0 && frame.visible_crop.x as u64
        + frame.visible_crop.width as u64 <= frame.width as u64 && frame.visible_crop.y as u64
        + frame.visible_crop.height as u64 <= frame.height as u64
}

/// Why a realtime runtime could not start.
#[derive(Debug, Clone, PartialEq, Eq)]
pub enum RealtimeStartError {
    InvalidInitialVideo,
    ThreadSpawn(String),
}

/// Why a frame could not be handed over or copied out.
#[derive(Debug, Clone, PartialEq, Eq, Structural)]
pub enum VideoHandoffError {
    InvalidFrame,
    FormatChanged,
    DestinationSize { expected: usize, actual: usize },
}

/// The fixed format that a runtime's frames keep after startup.
#[derive(Debug)]
pub struct NativeVideoDescriptor {
    pub width: u32,
    pub height: u32,
    pub visible_crop: NativeVideoCrop,
    pub pixel_format: NativePixelFormat,
    pub palette_rgb565: Vec<u16>,
    /// Number of pixels in every frame.
    pub pixel_count: usize,
}

/// A copy of a slice of palette entries.
fn copy_u16s(source: &[u16]) -> (copy: Vec<u16>)
    ensures
        copy@ == source@,
{
    let mut copy: Vec<u16> = Vec::new();
    let mut i: usize = 0;
    while i < source.len()
        invariant
            i <= source.len(),
            copy@ == source@.take(i as int),
        decreases source.len() - i,
    {
        copy.push(source[i]);
        assert(source@.take(i as int + 1) =~= source@.take(i as int).push(source@[i as int]));
        i = i + 1;
    }
    assert(source@.take(source.len() as int) =~= source@);
    copy
}

/// Whether two palettes are equal.
fn same_u16s(a: &[u16], b: &[u16]) -> (equal: bool)
    ensures
        equal == (a@ == b@),
{
    if a.len() != b.len() {
        return false;
    }
    let mut i: usize = 0;
    while i < a.len()
        invariant
            a.len() == b.len(),
            i <= a.len(),
            forall|k: int| 0 <= k < i ==> a@[k] == b@[k],
        decreases a.len() - i,
    {
        if a[i] != b[i] {
            return false;
        }
        i = i + 1;
    }
    assert(a@ =~= b@);
    true
}

impl NativeVideoDescriptor {
    pub open spec fn pixel_count_spec(&self) -> nat {
        self.pixel_count as nat
    }

    /// The descriptor's format is the frame's format.
    pub open spec fn describes(&self, frame: NativeVideoFrame) -> bool {
        &&& valid_layout(frame)
        &&& frame.width == self.width
        &&& frame.height == self.height
        &&& frame.visible_crop == self.visible_crop
        &&& frame.pixel_format == self.pixel_format
        &&& frame.pixels@.len() == self.pixel_count_spec()
        &&& frame.palette_rgb565@ == self.palette_rgb565@
    }

    /// The format of a well laid out initial frame.
    pub fn from_frame(frame: &NativeVideoFrame) -> (r: Result<Self, RealtimeStartError>)
        ensures
            valid_layout(*frame) <==> r is Ok,
            r matches Ok(d) ==> d.describes(*frame),
            !valid_layout(*frame) ==> r == Err::<Self, _>(RealtimeStartError::InvalidInitialVideo),
    {
        if !has_valid_layout(frame) {
            return Err(RealtimeStartError::InvalidInitialVideo);
        }
        Ok(NativeVideoDescriptor {
            width: frame.width,
            height: frame.height,
            visible_crop: frame.visible_crop,
            pixel_format: frame.pixel_format,
            palette_rgb565: copy_u16s(frame.palette_rgb565),
            pixel_count: frame.pixels.len(),
        })
    }

    /// Number of pixels in every frame.
    pub fn pixel_count(&self) -> (count: usize)
        ensures
            count == self.pixel_count_spec(),
    {
        self.pixel_count
    }

    /// Whether `frame` keeps this format.
    pub fn matches(&self, frame: &NativeVideoFrame) -> (same: bool)
        ensures
            same == self.describes(*frame),
    {
        has_valid_layout(frame) && frame.width == self.width && frame.height == self.height
            && frame.visible_crop == self.visible_crop && frame.pixel_format == self.pixel_format
            && frame.pixels.len() == self.pixel_count && same_u16s(
            frame.palette_rgb565,
            self.palette_rgb565.as_slice(),
        )
    }
}

/// Where a published frame came from and when, in nanoseconds since the
/// runtime started.
#[derive(Debug, Clone, Copy, Default, PartialEq, Eq, Structural)]
pub struct RealtimeVideoMetadata {
    pub generation: u64,
    pub frame_id: u64,
    pub emulated_ticks: u64,
    pub input_sequence_id: u64,
    pub input_observed_at: u128,
    pub worker_sampled_at: u128,
    pub frame_completed_at: u128,
    pub frame_published_at: u128,
}

/// Counters shared by the worker, the handoff and the presenter. They count
/// modulo 2^64, as relaxed atomic additions do.
#[derive(Debug, Clone, Copy, Default, PartialEq, Eq, Structural)]
pub struct TelemetryCounters {
    pub emulated_frames: u64,
    pub produced_video_frames: u64,
    pub consumed_video_frames: u64,
    pub submitted_video_frames: u64,
    pub displayed_loop_iterations: u64,
    pub coalesced_video_frames: u64,
    pub duplicate_video_polls: u64,
    pub wake_requests: u64,
    pub coalesced_wake_requests: u64,
    pub catch_up_rebases: u64,
    pub produced_audio_samples: u64,
    pub last_produced_frame_id: u64,
    pub last_submitted_frame_id: u64,
}

struct VideoSlotContent {
    generation: u64,
    metadata: RealtimeVideoMetadata,
    pixels: Vec<u8>,
}

/// The observable state of a video handoff.
pub ghost struct HandoffView {
    /// Generation of the newest published frame (0 before the first).
    pub latest: u64,
    /// Generation the next publish assigns.
    pub upcoming: u64,
    /// Generation of the newest frame the presenter has copied out.
    pub consumed: u64,
    /// Pixels of the newest published frame.
    pub latest_pixels: Seq<u8>,
    /// Metadata of the newest published frame.
    pub latest_metadata: RealtimeVideoMetadata,
    /// A wakeup has been requested and not yet completed.
    pub wake_outstanding: bool,
    /// A waker has been installed.
    pub waker_installed: bool,
    /// The waker must be called now.
    pub wake_due: bool,
    pub counters: TelemetryCounters,
}

/// Triple-buffered handoff of native frames with wakeup coalescing.
pub struct VideoHandoff {
    descriptor: NativeVideoDescriptor,
    slots: Vec<VideoSlotContent>,
    next_generation: u64,
    latest_generation: u64,
    latest_slot: usize,
    consumed_generation: u64,
    wake_pending: bool,
    has_waker: bool,
    wake_due: bool,
    telemetry: TelemetryCounters,
}

impl View for VideoHandoff {
    type V = HandoffView;

    closed spec fn view(&self) -> HandoffView {
        HandoffView {
            latest: self.latest_generation,
            upcoming: self.next_generation,
            consumed: self.consumed_generation,
            latest_pixels: self.slots@[self.latest_slot as int].pixels@,
            latest_metadata: self.slots@[self.latest_slot as int].metadata,
            wake_outstanding: self.wake_pending,
            waker_installed: self.has_waker,
            wake_due: self.wake_due,
            counters: self.telemetry,
        }
    }
}

impl VideoHandoff {
    pub closed spec fn wf(&self) -> bool {
        &&& self.slots.len() == VIDEO_SLOT_COUNT
        &&& forall|i: int|
            0 <= i < VIDEO_SLOT_COUNT ==> #[trigger] self.slots@[i].pixels.len()
                == self.descriptor.pixel_count
        &&& self.next_generation >= 1
        &&& self.latest_generation < self.next_generation
        &&& self.consumed_generation <= self.latest_generation
        &&& (self.latest_generation == 0) == (self.latest_slot == NO_VIDEO_SLOT)
        &&& self.latest_generation > 0 ==> {
            &&& self.latest_slot == (self.latest_generation - 1) % (VIDEO_SLOT_COUNT as int)
            &&& self.slots@[self.latest_slot as int].generation == self.latest_generation
            &&& self.slots@[self.latest_slot as int].metadata.generation == self.latest_generation
        }
    }

    /// The descriptor the frames must keep.
    pub closed spec fn descriptor_spec(&self) -> &NativeVideoDescriptor {
        &self.descriptor
    }

    /// An empty handoff for frames of `descriptor`'s format.
    pub fn new(descriptor: NativeVideoDescriptor, telemetry: TelemetryCounters) -> (handoff: Self)
        ensures
            handoff.wf(),
            handoff.descriptor_spec() == &descriptor,
            handoff@.latest == 0,
            handoff@.consumed == 0,
            handoff@.upcoming == 1,
            !handoff@.wake_outstanding,
            !handoff@.waker_installed,
            !handoff@.wake_due,
            handoff@.counters == telemetry,
    {
        let pixel_count = descriptor.pixel_count;
        let mut slots: Vec<VideoSlotContent> = Vec::new();
        let mut i: usize = 0;
        while i < VIDEO_SLOT_COUNT
            invariant
                i <= VIDEO_SLOT_COUNT,
                slots.len() == i,
                forall|k: int| 0 <= k < i ==> #[trigger] slots@[k].pixels.len() == pixel_count,
            decreases VIDEO_SLOT_COUNT - i,
        {
            let mut pixels: Vec<u8> = Vec::new();
            let mut j: usize = 0;
            while j < pixel_count
                invariant
                    j <= pixel_count,
                    pixels.len() == j,
                decreases pixel_count - j,
            {
                pixels.push(0);
                j = j + 1;
            }
            slots.push(
                VideoSlotContent {
                    generation: 0,
                    metadata: RealtimeVideoMetadata {
                        generation: 0,
                        frame_id: 0,
                        emulated_ticks: 0,
                        input_sequence_id: 0,
                        input_observed_at: 0,
                        worker_sampled_at: 0,
                        frame_completed_at: 0,
                        frame_published_at: 0,
                    },
                    pixels,
                },
            );
            i = i + 1;
        }
        VideoHandoff {
            descriptor,
            slots,
            next_generation: 1,
            latest_generation: 0,
            latest_slot: NO_VIDEO_SLOT,
            consumed_generation: 0,
            wake_pending: false,
            has_waker: false,
            wake_due: false,
            telemetry,
        }
    }

    /// The generation the next publish assigns.
    pub fn upcoming_generation(&self) -> (generation: u64)
        ensures
            generation == self@.upcoming,
    {
        self.next_generation
    }

    /// The frame format.
    pub fn descriptor(&self) -> (d: &NativeVideoDescriptor)
        ensures
            d == self.descriptor_spec(),
    {
        &self.descriptor
    }

    /// Asks for a wakeup: with a waker installed and none outstanding the
    /// waker is due; otherwise the request is coalesced.
    fn request_wake(&mut self)
        requires
            old(self).wf(),
        ensures
            final(self).wf(),
            final(self).descriptor_spec() == old(self).descriptor_spec(),
            wake_requested(old(self)@, final(self)@),
    {
        if !self.has_waker {
            return;
        }
        if !self.wake_pending {
            self.wake_pending = true;
            self.wake_due = true;
            self.telemetry.wake_requests = self.telemetry.wake_requests.wrapping_add(1);
        } else {
            self.telemetry.coalesced_wake_requests = self.telemetry.coalesced_wake_requests.wrapping_add(
                1,
            );
        }
    }

    /// Consumes the due waker call, if any.
    pub fn take_wake_due(&mut self) -> (due: bool)
        ensures
            due == old(self)@.wake_due,
            final(self).wf() == old(self).wf(),
            final(self)@ == (HandoffView { wake_due: false, ..old(self)@ }),
            final(self).descriptor_spec() == old(self).descriptor_spec(),
    {
        let due = self.wake_due;
        self.wake_due = false;
        due
    }

    /// Installs the presenter's waker; an unconsumed frame asks for a wakeup
    /// right away.
    pub fn set_waker(&mut self)
        requires
            old(self).wf(),
        ensures
            final(self).wf(),
            final(self)@.waker_installed,
            final(self).descriptor_spec() == old(self).descriptor_spec(),
            old(self)@.latest > old(self)@.consumed ==> wake_requested(
                (HandoffView { waker_installed: true, ..old(self)@ }),
                final(self)@,
            ),
            old(self)@.latest <= old(self)@.consumed ==> final(self)@ == (HandoffView {
                waker_installed: true,
                ..old(self)@
            }),
    {
        self.has_waker = true;
        if self.latest_generation > self.consumed_generation {
            self.request_wake();
        }
    }

    /// The presenter finished with generation `consumed`; a newer frame asks
    /// for another wakeup.
    fn complete_wakeup(&mut self, consumed: u64)
        requires
            old(self).wf(),
        ensures
            final(self).wf(),
            final(self).descriptor_spec() == old(self).descriptor_spec(),
            old(self)@.latest > consumed ==> wake_requested(
                (HandoffView { wake_outstanding: false, ..old(self)@ }),
                final(self)@,
            ),
            old(self)@.latest <= consumed ==> final(self)@ == (HandoffView {
                wake_outstanding: false,
                ..old(self)@
            }),
    {
        self.wake_pending = false;
        if self.latest_generation > consumed {
            self.request_wake();
        }
    }

    /// Hands a frame to the presenter in the next slot and returns its
    /// generation. A frame whose predecessor was never copied out counts as
    /// coalesced.
    pub fn publish(&mut self, frame: &NativeVideoFrame, metadata: RealtimeVideoMetadata) -> (r:
        Result<u64, VideoHandoffError>)
        requires
            old(self).wf(),
            old(self)@.upcoming < u64::MAX,
        ensures
            final(self).wf(),
            final(self).descriptor_spec() == old(self).descriptor_spec(),
            !valid_layout(*frame) ==> r == Err::<u64, _>(VideoHandoffError::InvalidFrame)
                && final(self)@ == old(self)@,
            valid_layout(*frame) && !old(self).descriptor_spec().describes(*frame) ==> r == Err::<
                u64,
                _,
            >(VideoHandoffError::FormatChanged) && final(self)@ == old(self)@,
            old(self).descriptor_spec().describes(*frame) ==> {
                &&& r == Ok::<u64, VideoHandoffError>(old(self)@.upcoming)
                &&& final(self)@ == published_view(old(self)@, *frame, metadata)
                &&& final(self).descriptor_spec() == old(self).descriptor_spec()
            },
    {
        if !has_valid_layout(frame) {
            return Err(VideoHandoffError::InvalidFrame);
        }
        if !self.descriptor.matches(frame) {
            return Err(VideoHandoffError::FormatChanged);
        }
        if self.latest_generation > self.consumed_generation {
            self.telemetry.coalesced_video_frames = self.telemetry.coalesced_video_frames.wrapping_add(
                1,
            );
        }
        let generation = self.next_generation;
        self.next_generation = generation + 1;
        let slot_index = ((generation - 1) % (VIDEO_SLOT_COUNT as u64)) as usize;
        let pixels = copy_u8s(frame.pixels);
        let stored = RealtimeVideoMetadata { generation, ..metadata };
        let mut slot = VideoSlotContent { generation, metadata: stored, pixels };
        std::mem::swap(&mut self.slots[slot_index], &mut slot);
        self.latest_slot = slot_index;
        self.latest_generation = generation;
        self.telemetry.produced_video_frames = self.telemetry.produced_video_frames.wrapping_add(1);
        self.telemetry.last_produced_frame_id = frame.frame_id;
        self.request_wake();
        Ok(generation)
    }
}

/// Generations are ordered: the consumed one is not after the newest, and
/// the newest is before the one the next publish assigns.
pub proof fn lemma_generations_ordered(handoff: &VideoHandoff)
    requires
        handoff.wf(),
    ensures
        handoff@.consumed <= handoff@.latest < handoff@.upcoming,
{
}

/// Every slot, the newest one among them, holds one frame of the handoff's
/// format.
pub proof fn lemma_latest_frame_fits(handoff: &VideoHandoff)
    requires
        handoff.wf(),
        handoff@.latest > 0,
    ensures
        handoff@.latest_pixels.len() == handoff.descriptor_spec().pixel_count_spec(),
{
    let i = handoff.latest_slot as int;
    assert(0 <= i < VIDEO_SLOT_COUNT);
    assert(handoff.slots@[i].pixels.len() == handoff.descriptor.pixel_count);
}

/// What finishing a wakeup does: the outstanding wakeup ends, and a frame
/// newer than `consumed` asks for another.
pub open spec fn wakeup_completed(before: HandoffView, consumed: u64, after: HandoffView) -> bool {
    if before.latest > consumed {
        wake_requested(HandoffView { wake_outstanding: false, ..before }, after)
    } else {
        after == HandoffView { wake_outstanding: false, ..before }
    }
}

/// The presenter's side of a video handoff.
pub type RealtimeVideoConsumer = VideoHandoff;

impl VideoHandoff {
    /// Copies the newest unconsumed frame into `destination` and returns its
    /// metadata; `None` when nothing new was published since the last copy.
    /// Either way the outstanding wakeup is completed.
    pub fn try_copy_latest(&mut self, destination: &mut [u8]) -> (r: Result<
        Option<RealtimeVideoMetadata>,
        VideoHandoffError,
    >)
        requires
            old(self).wf(),
        ensures
            final(self).wf(),
            final(self).descriptor_spec() == old(self).descriptor_spec(),
            r is Ok ==> final(self)@.consumed == final(self)@.latest,
            old(destination)@.len() != old(self).descriptor_spec().pixel_count_spec() ==> {
                &&& r == Err::<Option<RealtimeVideoMetadata>, _>(
                    VideoHandoffError::DestinationSize {
                        expected: old(self).descriptor_spec().pixel_count,
                        actual: old(destination)@.len() as usize,
                    },
                )
                &&& final(self)@ == old(self)@
                &&& final(destination)@ == old(destination)@
            },
            old(destination)@.len() == old(self).descriptor_spec().pixel_count_spec() ==> {
                if old(self)@.latest > old(self)@.consumed {
                    let taken = HandoffView {
                        consumed: old(self)@.latest,
                        counters: TelemetryCounters {
                            consumed_video_frames: old(
                                self,
                            )@.counters.consumed_video_frames.wrapping_add(1),
                            ..old(self)@.counters
                        },
                        ..old(self)@
                    };
                    &&& r == Ok::<_, VideoHandoffError>(Some(old(self)@.latest_metadata))
                    &&& final(destination)@ == old(self)@.latest_pixels
                    &&& wakeup_completed(taken, old(self)@.latest, final(self)@)
                } else {
                    let polled = HandoffView {
                        counters: TelemetryCounters {
                            duplicate_video_polls: old(
                                self,
                            )@.counters.duplicate_video_polls.wrapping_add(1),
                            ..old(self)@.counters
                        },
                        ..old(self)@
                    };
                    &&& r == Ok::<_, VideoHandoffError>(None::<RealtimeVideoMetadata>)
                    &&& final(destination)@ == old(destination)@
                    &&& wakeup_completed(polled, old(self)@.consumed, final(self)@)
                }
            },
    {
        let expected = self.descriptor.pixel_count;
        if destination.len() != expected {
            return Err(VideoHandoffError::DestinationSize { expected, actual: destination.len() });
        }
        let consumed = self.consumed_generation;
        let latest = self.latest_generation;
        let slot_index = self.latest_slot;
        if latest <= consumed || slot_index == NO_VIDEO_SLOT {
            self.telemetry.duplicate_video_polls = self.telemetry.duplicate_video_polls.wrapping_add(1);
            self.complete_wakeup(consumed);
            return Ok(None);
        }
        if self.slots[slot_index].generation <= consumed {
            self.telemetry.duplicate_video_polls = self.telemetry.duplicate_video_polls.wrapping_add(1);
            self.complete_wakeup(consumed);
            return Ok(None);
        }
        assert(self.slots@[slot_index as int].pixels.len() == expected);
        let mut i: usize = 0;
        while i < expected
            invariant
                self.wf(),
                slot_index == self.latest_slot,
                slot_index < VIDEO_SLOT_COUNT,
                self.slots@[slot_index as int].pixels.len() == expected,
                self.latest_generation > 0,
                expected == self.descriptor.pixel_count,
                destination@.len() == expected,
                i <= expected,
                forall|k: int| 0 <= k < i ==> destination@[k] == self.slots@[slot_index as int].pixels@[k],
            decreases expected - i,
        {
            let value = self.slots[slot_index].pixels[i];
            destination[i] = value;
            i = i + 1;
        }
        assert(destination@ =~= self.slots@[slot_index as int].pixels@);
        let metadata = self.slots[slot_index].metadata;
        self.consumed_generation = metadata.generation;
        self.telemetry.consumed_video_frames = self.telemetry.consumed_video_frames.wrapping_add(1);
        self.complete_wakeup(metadata.generation);
        Ok(Some(metadata))
    }

    /// Records that the presenter submitted frame `frame_id` for display.
    pub fn mark_submitted(&mut self, frame_id: u64)
        requires
            old(self).wf(),
        ensures
            final(self).wf(),
            final(self).descriptor_spec() == old(self).descriptor_spec(),
            final(self)@ == (HandoffView {
                counters: TelemetryCounters {
                    submitted_video_frames: old(self)@.counters.submitted_video_frames.wrapping_add(1),
                    last_submitted_frame_id: frame_id,
                    ..old(self)@.counters
                },
                ..old(self)@
            }),
    {
        self.telemetry.submitted_video_frames = self.telemetry.submitted_video_frames.wrapping_add(1);
        self.telemetry.last_submitted_frame_id = frame_id;
    }
}

impl VideoHandoff {
    /// Counts one emulated frame.
    pub fn record_emulated_frame(&mut self)
        requires
            old(self).wf(),
        ensures
            final(self).wf(),
            final(self).descriptor_spec() == old(self).descriptor_spec(),
            final(self)@ == (HandoffView {
                counters: TelemetryCounters {
                    emulated_frames: old(self)@.counters.emulated_frames.wrapping_add(1),
                    ..old(self)@.counters
                },
                ..old(self)@
            }),
    {
        self.telemetry.emulated_frames = self.telemetry.emulated_frames.wrapping_add(1);
    }

    /// Counts `count` audio samples produced by the worker.
    pub fn record_produced_audio(&mut self, count: u64)
        requires
            old(self).wf(),
        ensures
            final(self).wf(),
            final(self).descriptor_spec() == old(self).descriptor_spec(),
            final(self)@ == (HandoffView {
                counters: TelemetryCounters {
                    produced_audio_samples: old(self)@.counters.produced_audio_samples.wrapping_add(
                        count,
                    ),
                    ..old(self)@.counters
                },
                ..old(self)@
            }),
    {
        self.telemetry.produced_audio_samples = self.telemetry.produced_audio_samples.wrapping_add(
            count,
        );
    }

    /// Counts one iteration of the display loop.
    pub fn record_displayed_loop_iteration(&mut self)
        requires
            old(self).wf(),
        ensures
            final(self).wf(),
            final(self).descriptor_spec() == old(self).descriptor_spec(),
            final(self)@ == (HandoffView {
                counters: TelemetryCounters {
                    displayed_loop_iterations: old(
                        self,
                    )@.counters.displayed_loop_iterations.wrapping_add(1),
                    ..old(self)@.counters
                },
                ..old(self)@
            }),
    {
        self.telemetry.displayed_loop_iterations = self.telemetry.displayed_loop_iterations.wrapping_add(
            1,
        );
    }

    /// Counts one pacer rebase after an overload.
    pub fn record_catch_up_rebase(&mut self)
        requires
            old(self).wf(),
        ensures
            final(self).wf(),
            final(self).descriptor_spec() == old(self).descriptor_spec(),
            final(self)@ == (HandoffView {
                counters: TelemetryCounters {
                    catch_up_rebases: old(self)@.counters.catch_up_rebases.wrapping_add(1),
                    ..old(self)@.counters
                },
                ..old(self)@
            }),
    {
        self.telemetry.catch_up_rebases = self.telemetry.catch_up_rebases.wrapping_add(1);
    }

    /// The counters.
    pub fn counters(&self) -> (c: TelemetryCounters)
        ensures
            c == self@.counters,
    {
        self.telemetry
    }
}

/// The message for a handoff error.
pub open spec fn handoff_error_text(error: VideoHandoffError) -> Seq<char> {
    match error {
        VideoHandoffError::InvalidFrame => "worker produced an invalid native frame"@,
        VideoHandoffError::FormatChanged => "worker changed native video format after startup"@,
        VideoHandoffError::DestinationSize { expected, actual } => "native video destination has "@
            + crate::text::decimal(actual as nat) + " pixels; expected "@ + crate::text::decimal(
            expected as nat,
        ),
    }
}

/// The message for a handoff error.
pub fn handoff_error_message(error: &VideoHandoffError) -> (text: String)
    ensures
        text@ == handoff_error_text(*error),
{
    let mut text = String::new();
    match error {
        VideoHandoffError::InvalidFrame => crate::text::push_str(
            &mut text,
            "worker produced an invalid native frame",
        ),
        VideoHandoffError::FormatChanged => crate::text::push_str(
            &mut text,
            "worker changed native video format after startup",
        ),
        VideoHandoffError::DestinationSize { expected, actual } => {
            crate::text::push_str(&mut text, "native video destination has ");
            crate::text::push_decimal(&mut text, *actual as u128);
            crate::text::push_str(&mut text, " pixels; expected ");
            crate::text::push_decimal(&mut text, *expected as u128);
        },
    }
    text
}

/// The counters after publishing frame `frame_id`: one more produced frame,
/// and one more coalesced frame when the previous one was never copied out.
pub open spec fn published_counters(before: HandoffView, frame_id: u64) -> TelemetryCounters {
    TelemetryCounters {
        coalesced_video_frames: if before.latest > before.consumed {
            before.counters.coalesced_video_frames.wrapping_add(1)
        } else {
            before.counters.coalesced_video_frames
        },
        produced_video_frames: before.counters.produced_video_frames.wrapping_add(1),
        last_produced_frame_id: frame_id,
        ..before.counters
    }
}

/// What a wakeup request does: with a waker installed and none outstanding,
/// the waker becomes due and the wakeup outstanding; with one outstanding, the
/// request is only counted as coalesced; without a waker nothing happens.
pub open spec fn after_wake_request(before: HandoffView) -> HandoffView {
    if !before.waker_installed {
        before
    } else if !before.wake_outstanding {
        HandoffView {
            wake_outstanding: true,
            wake_due: true,
            counters: TelemetryCounters {
                wake_requests: before.counters.wake_requests.wrapping_add(1),
                ..before.counters
            },
            ..before
        }
    } else {
        HandoffView {
            counters: TelemetryCounters {
                coalesced_wake_requests: before.counters.coalesced_wake_requests.wrapping_add(1),
                ..before.counters
            },
            ..before
        }
    }
}

/// A copy returns the latest publish: right after a frame is published it is
/// the newest, unconsumed frame, holding exactly the published pixels and
/// metadata under the generation the publish returned.
pub proof fn lemma_copy_returns_latest_publish(
    before: HandoffView,
    frame: NativeVideoFrame,
    metadata: RealtimeVideoMetadata,
)
    requires
        before.consumed < before.upcoming,
    ensures
        ({
            let after = published_view(before, frame, metadata);
            &&& after.latest == before.upcoming
            &&& after.latest > after.consumed
            &&& after.latest_pixels == frame.pixels@
            &&& after.latest_metadata == (RealtimeVideoMetadata { generation: before.upcoming, ..metadata })
        }),
{
}

/// One wakeup is outstanding at a time: a frame published while one is
/// outstanding leaves it outstanding, does not make the waker due again, and
/// only counts its request as coalesced.
pub proof fn lemma_publish_while_wakeup_outstanding(
    before: HandoffView,
    frame: NativeVideoFrame,
    metadata: RealtimeVideoMetadata,
)
    requires
        before.waker_installed,
        before.wake_outstanding,
    ensures
        ({
            let after = published_view(before, frame, metadata);
            &&& after.wake_outstanding
            &&& after.wake_due == before.wake_due
            &&& after.counters.wake_requests == before.counters.wake_requests
            &&& after.counters.coalesced_wake_requests
                == before.counters.coalesced_wake_requests.wrapping_add(1)
        }),
{
}

/// `after` is `before` after one wakeup request.
pub open spec fn wake_requested(before: HandoffView, after: HandoffView) -> bool {
    after == after_wake_request(before)
}

/// The handoff after publishing `frame` with `metadata`: the frame becomes the
/// newest generation, the counters count it, and a wakeup is requested.
pub open spec fn published_view(
    before: HandoffView,
    frame: NativeVideoFrame,
    metadata: RealtimeVideoMetadata,
) -> HandoffView {
    let generation = before.upcoming;
    after_wake_request(
        HandoffView {
            latest: generation,
            upcoming: (generation + 1) as u64,
            latest_pixels: frame.pixels@,
            latest_metadata: RealtimeVideoMetadata { generation, ..metadata },
            counters: published_counters(before, frame.frame_id),
            ..before
        },
    )
}

/// A copy of a slice of bytes.
pub fn copy_u8s(source: &[u8]) -> (copy: Vec<u8>)
    ensures
        copy@ == source@,
{
    let mut copy: Vec<u8> = Vec::new();
    let mut i: usize = 0;
    while i < source.len()
        invariant
            i <= source.len(),
            copy@ == source@.take(i as int),
        decreases source.len() - i,
    {
        copy.push(source[i]);
        assert(source@.take(i as int + 1) =~= source@.take(i as int).push(source@[i as int]));
        i = i + 1;
    }
    assert(source@.take(source.len() as int) =~= source@);
    copy
}

} // verus!
