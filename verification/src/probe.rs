//! The presentation lab's options, its packed pixel format, and its nested
//! timing spans.

use vstd::prelude::*;

verus! {

/// Options of the fixed-image presentation lab.
#[derive(Debug, Clone, Copy, PartialEq, Eq, Structural)]
pub struct Options {
    /// Run the lab instead of the client.
    pub benchmark_presentation: bool,
    presentation_frames: u32,
    presentation_repeats: u32,
    presentation_detail: bool,
    presentation_republish: bool,
}

/// Draws per measured block when none is given.
pub const DEFAULT_PRESENTATION_FRAMES: u32 = 120;

/// Paired blocks when none is given.
pub const DEFAULT_PRESENTATION_REPEATS: u32 = 4;

impl Options {
    pub closed spec fn presentation_spec(&self) -> bool {
        self.benchmark_presentation
    }

    pub closed spec fn frames_spec(&self) -> u32 {
        self.presentation_frames
    }

    pub closed spec fn repeats_spec(&self) -> u32 {
        self.presentation_repeats
    }

    pub closed spec fn detail_spec(&self) -> bool {
        self.presentation_detail
    }

    pub closed spec fn republish_spec(&self) -> bool {
        self.presentation_republish
    }

    /// The lab's options: 1 to 10000 draws per block and 1 to 20 paired
    /// blocks; `None` outside those ranges.
    pub fn from_values(
        benchmark_presentation: bool,
        frames: u32,
        repeats: u32,
        detail: bool,
        republish: bool,
    ) -> (options: Option<Self>)
        ensures
            (1 <= frames <= 10000 && 1 <= repeats <= 20) <==> options is Some,
            options matches Some(o) ==> {
                &&& o.presentation_spec() == benchmark_presentation
                &&& o.frames_spec() == frames
                &&& o.repeats_spec() == repeats
                &&& o.detail_spec() == detail
                &&& o.republish_spec() == republish
            },
    {
        if 1 <= frames && frames <= 10000 && 1 <= repeats && repeats <= 20 {
            Some(
                Options {
                    benchmark_presentation,
                    presentation_frames: frames,
                    presentation_repeats: repeats,
                    presentation_detail: detail,
                    presentation_republish: republish,
                },
            )
        } else {
            None
        }
    }

    /// Draws per measured block.
    pub fn frames(&self) -> (frames: u32)
        ensures
            frames == self.frames_spec(),
    {
        self.presentation_frames
    }

    /// Paired blocks, alternating which UI runs first.
    pub fn repeats(&self) -> (repeats: u32)
        ensures
            repeats == self.repeats_spec(),
    {
        self.presentation_repeats
    }

    /// Nested operations are timed.
    pub fn detail(&self) -> (detail: bool)
        ensures
            detail == self.detail_spec(),
    {
        self.presentation_detail
    }

    /// A fresh identical image is published before every draw.
    pub fn republish(&self) -> (republish: bool)
        ensures
            republish == self.republish_spec(),
    {
        self.presentation_republish
    }
}

impl Default for Options {
    fn default() -> (options: Self)
        ensures
            !options.presentation_spec(),
            options.frames_spec() == 0,
            options.repeats_spec() == 0,
            !options.detail_spec(),
            !options.republish_spec(),
    {
        Options {
            benchmark_presentation: false,
            presentation_frames: 0,
            presentation_repeats: 0,
            presentation_detail: false,
            presentation_republish: false,
        }
    }
}

/// An opaque pixel packed as `0xffRRGGBB`.
pub open spec fn xrgb(r: u8, g: u8, b: u8) -> u32 {
    0xff00_0000u32 | ((r as u32) << 16u32) | ((g as u32) << 8u32) | (b as u32)
}

/// Packs an opaque pixel.
pub fn xrgb_from_rgb(r: u8, g: u8, b: u8) -> (pixel: u32)
    ensures
        pixel == xrgb(r, g, b),
        pixel >> 24u32 == 0xffu32,
        (pixel >> 16u32) & 0xffu32 == r as u32,
        (pixel >> 8u32) & 0xffu32 == g as u32,
        pixel & 0xffu32 == b as u32,
{
    let pixel = 0xff00_0000u32 | ((r as u32) << 16u32) | ((g as u32) << 8u32) | (b as u32);
    let (r32, g32, b32) = (r as u32, g as u32, b as u32);
    assert(r32 < 256 && g32 < 256 && b32 < 256);
    assert((0xff00_0000u32 | (r32 << 16u32) | (g32 << 8u32) | b32) >> 24u32 == 0xffu32) by (bit_vector)
        requires
            r32 < 256,
            g32 < 256,
            b32 < 256,
    ;
    assert(((0xff00_0000u32 | (r32 << 16u32) | (g32 << 8u32) | b32) >> 16u32) & 0xffu32 == r32) by (bit_vector)
        requires
            r32 < 256,
            g32 < 256,
            b32 < 256,
    ;
    assert(((0xff00_0000u32 | (r32 << 16u32) | (g32 << 8u32) | b32) >> 8u32) & 0xffu32 == g32) by (bit_vector)
        requires
            r32 < 256,
            g32 < 256,
            b32 < 256,
    ;
    assert((0xff00_0000u32 | (r32 << 16u32) | (g32 << 8u32) | b32) & 0xffu32 == b32) by (bit_vector)
        requires
            r32 < 256,
            g32 < 256,
            b32 < 256,
    ;
    pixel
}

/// Time spent in one kind of nested draw operation: the outermost span is
/// timed, inner ones of the same kind only counted.
#[derive(Debug, Clone, Copy, Default, PartialEq, Eq, Structural)]
pub struct Measurement {
    /// When the outermost open span began, in nanoseconds.
    pub start: u128,
    /// Spans open now.
    pub depth: usize,
    /// Spans begun.
    pub calls: u64,
    /// Time inside outermost spans, in nanoseconds.
    pub elapsed: u128,
}

/// The measurement after a span opens at `now`.
pub open spec fn begun(m: Measurement, now: u128) -> Measurement {
    Measurement {
        calls: (m.calls + 1) as u64,
        depth: (m.depth + 1) as usize,
        start: if m.depth == 0 { now } else { m.start },
        ..m
    }
}

/// The measurement after a span closes at `now`: closing the outermost span
/// adds its time.
pub open spec fn ended(m: Measurement, now: u128) -> Measurement {
    Measurement {
        depth: (m.depth - 1) as usize,
        elapsed: if m.depth == 1 { (m.elapsed + (now - m.start)) as u128 } else { m.elapsed },
        ..m
    }
}

impl Measurement {
    /// Opens a span at `now`.
    pub fn begin(&mut self, now: u128)
        requires
            old(self).depth < usize::MAX,
            old(self).calls < u64::MAX,
        ensures
            *final(self) == begun(*old(self), now),
    {
        self.calls = self.calls + 1;
        if self.depth == 0 {
            self.start = now;
        }
        self.depth = self.depth + 1;
    }

    /// Closes a span at `now`; closing the outermost one adds its time.
    pub fn end(&mut self, now: u128)
        requires
            old(self).depth > 0,
            old(self).depth == 1 ==> old(self).start <= now && old(self).elapsed + (now - old(
                self,
            ).start) <= u128::MAX,
        ensures
            *final(self) == ended(*old(self), now),
    {
        self.depth = self.depth - 1;
        if self.depth == 0 {
            self.elapsed = self.elapsed + (now - self.start);
        }
    }
}

/// Nested spans are timed once: opening a span at `t0`, a nested one at
/// `t1`, closing it at `t2` and the outer one at `t3` adds `t3 - t0`, not the
/// inner time again, and counts two calls.
pub proof fn lemma_nested_spans_time_once(m: Measurement, t0: u128, t1: u128, t2: u128, t3: u128)
    requires
        m.depth == 0,
        t0 <= t1 <= t2 <= t3,
        m.elapsed + (t3 - t0) <= u128::MAX,
        m.calls + 2 <= u64::MAX,
    ensures
        ({
            let d = ended(ended(begun(begun(m, t0), t1), t2), t3);
            &&& d.elapsed == m.elapsed + (t3 - t0)
            &&& d.calls == m.calls + 2
            &&& d.depth == 0
        }),
{
}


/// How the memory lab rotates what it presents.
#[derive(Debug, Clone, Copy, PartialEq, Eq, Structural)]
pub enum ProbeRotation {
    NoRotation,
    Rotate90,
    Rotate180,
    Rotate270,
}

/// The rotation a label names: `0`, `90`, `180` or `270` degrees.
pub open spec fn rotation_named(label: Seq<char>) -> Option<ProbeRotation> {
    if label == "0"@ {
        Some(ProbeRotation::NoRotation)
    } else if label == "90"@ {
        Some(ProbeRotation::Rotate90)
    } else if label == "180"@ {
        Some(ProbeRotation::Rotate180)
    } else if label == "270"@ {
        Some(ProbeRotation::Rotate270)
    } else {
        None
    }
}

/// Reads the presentation rotation; any other label is refused.
pub fn parse_rotation(label: &str) -> (r: Result<ProbeRotation, String>)
    ensures
        match rotation_named(label@) {
            Some(rotation) => r == Ok::<ProbeRotation, String>(rotation),
            None => r matches Err(message) && message@ == "invalid presentation rotation"@,
        },
{
    if crate::text::str_equal(label, "0") {
        Ok(ProbeRotation::NoRotation)
    } else if crate::text::str_equal(label, "90") {
        Ok(ProbeRotation::Rotate90)
    } else if crate::text::str_equal(label, "180") {
        Ok(ProbeRotation::Rotate180)
    } else if crate::text::str_equal(label, "270") {
        Ok(ProbeRotation::Rotate270)
    } else {
        Err(crate::text::owned("invalid presentation rotation"))
    }
}

/// The size of the buffer a `width` by `height` window is presented into: a
/// quarter turn swaps the sides.
pub fn rotated_size(rotation: ProbeRotation, width: u32, height: u32) -> (size: (u32, u32))
    ensures
        size == if rotation == ProbeRotation::Rotate90 || rotation == ProbeRotation::Rotate270 {
            (height, width)
        } else {
            (width, height)
        },
{
    match rotation {
        ProbeRotation::Rotate90 | ProbeRotation::Rotate270 => (height, width),
        _ => (width, height),
    }
}

/// The row stride, in pixels, of the lab's output buffer `width` pixels wide:
/// a device buffer's pitch in bytes, which must be whole pixels and cover the
/// width, or else seven pixels of padding past the width in memory.
pub fn output_stride(device_pitch: Option<u32>, width: u32) -> (r: Result<u64, String>)
    ensures
        match device_pitch {
            None => r == Ok::<u64, String>((width + 7) as u64),
            Some(pitch) => if pitch % 4 != 0 || pitch / 4 < width {
                r matches Err(message) && message@ == "DRM returned an invalid XRGB stride"@
            } else {
                r == Ok::<u64, String>((pitch / 4) as u64)
            },
        },
{
    match device_pitch {
        None => Ok(width as u64 + 7),
        Some(pitch) => {
            let stride = pitch / 4;
            if stride < width || pitch % 4 != 0 {
                Err(crate::text::owned("DRM returned an invalid XRGB stride"))
            } else {
                Ok(stride as u64)
            }
        },
    }
}

/// One way of presenting the lab's image: into a device buffer or memory,
/// with or without the blending shortcut, directly or through a staging copy.
#[derive(Debug, Clone, Copy, PartialEq, Eq, Structural)]
pub struct ProbeVariant {
    pub drm: bool,
    pub shortcut: bool,
    pub staged: bool,
}

/// The variants the lab measures, in order: memory without and with the
/// shortcut, then the device buffer likewise when there is one, then the
/// staged copies into the device buffer (or memory).
pub open spec fn probe_variants_spec(has_device: bool) -> Seq<ProbeVariant> {
    let direct = seq![
        ProbeVariant { drm: false, shortcut: false, staged: false },
        ProbeVariant { drm: false, shortcut: true, staged: false },
    ];
    let device = if has_device {
        seq![
            ProbeVariant { drm: true, shortcut: false, staged: false },
            ProbeVariant { drm: true, shortcut: true, staged: false },
        ]
    } else {
        Seq::empty()
    };
    direct + device + seq![
        ProbeVariant { drm: has_device, shortcut: false, staged: true },
        ProbeVariant { drm: has_device, shortcut: true, staged: true },
    ]
}

/// The variants the lab measures.
pub fn probe_variants(has_device: bool) -> (variants: Vec<ProbeVariant>)
    ensures
        variants@ == probe_variants_spec(has_device),
{
    let mut variants = vec![
        ProbeVariant { drm: false, shortcut: false, staged: false },
        ProbeVariant { drm: false, shortcut: true, staged: false },
    ];
    if has_device {
        variants.push(ProbeVariant { drm: true, shortcut: false, staged: false });
        variants.push(ProbeVariant { drm: true, shortcut: true, staged: false });
    }
    variants.push(ProbeVariant { drm: has_device, shortcut: false, staged: true });
    variants.push(ProbeVariant { drm: has_device, shortcut: true, staged: true });
    assert(variants@ =~= probe_variants_spec(has_device));
    variants
}


/// The largest side of a viewport the lab presents.
pub const MAX_PROBE_VIEWPORT_SIDE: u32 = 2048;

/// The lab refuses a viewport with a side over 2048 pixels.
pub fn check_viewport(width: u32, height: u32) -> (r: Result<(), String>)
    ensures
        width <= MAX_PROBE_VIEWPORT_SIDE && height <= MAX_PROBE_VIEWPORT_SIDE ==> r is Ok,
        !(width <= MAX_PROBE_VIEWPORT_SIDE && height <= MAX_PROBE_VIEWPORT_SIDE) ==> (r matches Err(
            message,
        ) && message@ == "presentation viewport must be at most 2048×2048"@),
{
    if width > MAX_PROBE_VIEWPORT_SIDE || height > MAX_PROBE_VIEWPORT_SIDE {
        Err(crate::text::owned("presentation viewport must be at most 2048×2048"))
    } else {
        Ok(())
    }
}

} // verus!
