//! Conversion of native indexed frames into RGB images, cycling through three
//! image buffers so that an image handed to the display is not overwritten
//! by the next frame.

use vstd::prelude::*;

use crate::text::{decimal, push_decimal, push_str};
use crate::video::{
    has_valid_layout, valid_layout, NativePixelFormat, NativeVideoCrop, NativeVideoFrame,
    NativeVideoTiming,
};

verus! {

/// Image buffers the renderer cycles through.
pub const BUFFER_COUNT: usize = 3;

/// One RGB pixel with eight bits per channel.
#[derive(Debug, Clone, Copy, PartialEq, Eq, Structural)]
pub struct Rgb8 {
    pub r: u8,
    pub g: u8,
    pub b: u8,
}

/// Why a native frame could not be presented.
#[derive(Debug, Clone, Copy, PartialEq, Eq, Structural)]
pub enum NativeVideoError {
    InvalidLayout,
    PaletteIndexOutOfRange { index: u8, palette_len: usize },
    SlintDimensionOutOfRange { value: u32 },
}

/// The message for a presentation error.
pub open spec fn native_video_error_text(error: NativeVideoError) -> Seq<char> {
    match error {
        NativeVideoError::InvalidLayout => "native video frame has an invalid layout"@,
        NativeVideoError::PaletteIndexOutOfRange { index, palette_len } =>
            "native video palette index "@ + decimal(index as nat) + " exceeds palette length "@
                + decimal(palette_len as nat),
        NativeVideoError::SlintDimensionOutOfRange { value } => "native video dimension "@
            + decimal(value as nat) + " exceeds Slint's range"@,
    }
}

impl NativeVideoError {
    /// The error's message.
    pub fn message(&self) -> (text: String)
        ensures
            text@ == native_video_error_text(*self),
    {
        let mut text = String::new();
        match self {
            NativeVideoError::InvalidLayout => push_str(
                &mut text,
                "native video frame has an invalid layout",
            ),
            NativeVideoError::PaletteIndexOutOfRange { index, palette_len } => {
                push_str(&mut text, "native video palette index ");
                push_decimal(&mut text, *index as u128);
                push_str(&mut text, " exceeds palette length ");
                push_decimal(&mut text, *palette_len as u128);
            },
            NativeVideoError::SlintDimensionOutOfRange { value } => {
                push_str(&mut text, "native video dimension ");
                push_decimal(&mut text, *value as u128);
                push_str(&mut text, " exceeds Slint's range");
            },
        }
        text
    }
}

/// A dimension as the UI toolkit takes it: refused above `i32::MAX`.
pub fn slint_dimension(value: u32) -> (r: Result<i32, NativeVideoError>)
    ensures
        value <= i32::MAX ==> r == Ok::<i32, NativeVideoError>(value as i32),
        value > i32::MAX ==> r == Err::<i32, NativeVideoError>(
            NativeVideoError::SlintDimensionOutOfRange { value },
        ),
{
    if value <= 0x7fff_ffff {
        Ok(value as i32)
    } else {
        Err(NativeVideoError::SlintDimensionOutOfRange { value })
    }
}

/// An RGB565 color widened to eight bits per channel, rounding to nearest.
pub open spec fn rgb888(color: u16) -> Rgb8 {
    let red = (color as nat / 2048) % 32;
    let green = (color as nat / 32) % 64;
    let blue = color as nat % 32;
    Rgb8 {
        r: ((red * 255 + 15) / 31) as u8,
        g: ((green * 255 + 31) / 63) as u8,
        b: ((blue * 255 + 15) / 31) as u8,
    }
}

/// Widens an RGB565 color to eight bits per channel.
pub fn rgb565_to_rgb888(color: u16) -> (rgb: Rgb8)
    ensures
        rgb == rgb888(color),
{
    let red: u32 = ((color >> 11) & 0x1f) as u32;
    let green: u32 = ((color >> 5) & 0x3f) as u32;
    let blue: u32 = (color & 0x1f) as u32;
    assert(((color >> 11) & 0x1f) as nat == (color as nat / 2048) % 32) by (bit_vector);
    assert(((color >> 5) & 0x3f) as nat == (color as nat / 32) % 64) by (bit_vector);
    assert((color & 0x1f) as nat == color as nat % 32) by (bit_vector);
    Rgb8 {
        r: ((red * 255 + 15) / 31) as u8,
        g: ((green * 255 + 31) / 63) as u8,
        b: ((blue * 255 + 15) / 31) as u8,
    }
}

/// Index of the first pixel whose palette index is out of range, if any.
pub open spec fn first_bad_index(indices: Seq<u8>, palette_len: nat) -> Option<int> {
    if exists|i: int| 0 <= i < indices.len() && indices[i] >= palette_len {
        Some(
            choose|i: int|
                0 <= i < indices.len() && indices[i] >= palette_len && forall|k: int|
                    0 <= k < i ==> indices[k] < palette_len,
        )
    } else {
        None
    }
}

/// `out` holds the colors of the first `count` pixels and is otherwise
/// unchanged from `before`.
pub open spec fn expanded_prefix(
    indices: Seq<u8>,
    palette: Seq<u16>,
    before: Seq<Rgb8>,
    out: Seq<Rgb8>,
    count: int,
) -> bool {
    &&& out.len() == before.len()
    &&& forall|k: int| 0 <= k < count ==> #[trigger] out[k] == rgb888(palette[indices[k] as int])
    &&& forall|k: int| count <= k < out.len() ==> #[trigger] out[k] == before[k]
}

/// Writes the color of each palette index into `output`, stopping at the
/// first index beyond the palette.
pub fn expand_indexed_rgb565(indices: &[u8], palette: &[u16], output: &mut Vec<Rgb8>) -> (r: Result<
    (),
    NativeVideoError,
>)
    requires
        indices@.len() == old(output)@.len(),
    ensures
        match r {
            Ok(_) => {
                &&& forall|k: int| 0 <= k < indices@.len() ==> indices@[k] < palette@.len()
                &&& expanded_prefix(indices@, palette@, old(output)@, final(output)@, indices@.len() as int)
            },
            Err(e) => exists|bad: int|
                0 <= bad < indices@.len() && indices@[bad] >= palette@.len() && (forall|k: int|
                    0 <= k < bad ==> indices@[k] < palette@.len()) && e
                    == (NativeVideoError::PaletteIndexOutOfRange {
                    index: indices@[bad],
                    palette_len: palette@.len() as usize,
                }) && expanded_prefix(indices@, palette@, old(output)@, final(output)@, bad),
        },
{
    let mut i: usize = 0;
    while i < indices.len()
        invariant
            i <= indices@.len(),
            indices@.len() == output@.len(),
            forall|k: int| 0 <= k < i ==> indices@[k] < palette@.len(),
            expanded_prefix(indices@, palette@, old(output)@, output@, i as int),
        decreases indices@.len() - i,
    {
        let index = indices[i];
        if index as usize >= palette.len() {
            return Err(
                NativeVideoError::PaletteIndexOutOfRange { index, palette_len: palette.len() },
            );
        }
        let color = rgb565_to_rgb888(palette[index as usize]);
        output.set(i, color);
        i = i + 1;
    }
    Ok(())
}

/// A converted frame: which buffer holds its image, and what the frame said
/// about itself.
#[derive(Debug, Clone, Copy, PartialEq, Eq)]
pub struct NativeVideoPresentation {
    pub buffer: usize,
    pub source_crop: NativeVideoCrop,
    pub frame_id: u64,
    pub timing: Option<NativeVideoTiming>,
}

/// Converts native frames into three rotating RGB image buffers.
#[derive(Debug)]
pub struct NativeVideoRenderer {
    buffers: Vec<Vec<Rgb8>>,
    width: u32,
    height: u32,
    active_buffer: usize,
}

impl NativeVideoRenderer {
    /// Either no buffers yet, or three buffers of the current size with the
    /// next one to fill among them.
    pub closed spec fn wf(&self) -> bool {
        ||| self.buffers.len() == 0
        ||| {
            &&& self.buffers.len() == BUFFER_COUNT
            &&& self.active_buffer < BUFFER_COUNT
            &&& forall|i: int|
                0 <= i < BUFFER_COUNT ==> #[trigger] self.buffers@[i]@.len() == self.width as int
                    * self.height as int
        }
    }

    pub closed spec fn buffer_count(&self) -> nat {
        self.buffers@.len()
    }

    pub closed spec fn buffer_spec(&self, i: int) -> Seq<Rgb8> {
        self.buffers@[i]@
    }

    /// Width and height of the buffers.
    pub closed spec fn size(&self) -> (u32, u32) {
        (self.width, self.height)
    }

    /// The buffer the next frame goes into.
    pub closed spec fn next_buffer(&self) -> usize {
        self.active_buffer
    }

    /// No buffers yet.
    pub fn new() -> (renderer: Self)
        ensures
            renderer.wf(),
            renderer.buffer_count() == 0,
            renderer.size() == (0u32, 0u32),
            renderer.next_buffer() == 0,
    {
        NativeVideoRenderer { buffers: Vec::new(), width: 0, height: 0, active_buffer: 0 }
    }

    /// The pixels of buffer `i`.
    pub fn buffer(&self, i: usize) -> (pixels: &[Rgb8])
        requires
            i < self.buffer_count(),
        ensures
            pixels@ == self.buffer_spec(i as int),
    {
        self.buffers[i].as_slice()
    }

    /// Number of buffers.
    pub fn buffers_len(&self) -> (n: usize)
        ensures
            n == self.buffer_count(),
    {
        self.buffers.len()
    }

    /// Makes three black buffers of the frame's size, unless they exist.
    fn ensure_size(&mut self, width: u32, height: u32, pixel_count: usize)
        requires
            old(self).wf(),
            pixel_count == width as int * height as int,
        ensures
            final(self).wf(),
            final(self).buffer_count() == BUFFER_COUNT,
            final(self).size() == (width, height),
            old(self).size() == (width, height) && old(self).buffer_count() == BUFFER_COUNT ==> {
                &&& final(self).next_buffer() == old(self).next_buffer()
                &&& forall|i: int| 0 <= i < BUFFER_COUNT ==> final(self).buffer_spec(i) == old(self).buffer_spec(i)
            },
            !(old(self).size() == (width, height) && old(self).buffer_count() == BUFFER_COUNT) ==> {
                &&& final(self).next_buffer() == 0
                &&& forall|i: int, k: int|
                    0 <= i < BUFFER_COUNT && 0 <= k < pixel_count ==> #[trigger] final(self).buffer_spec(i)[k]
                        == (Rgb8 { r: 0, g: 0, b: 0 })
            },
    {
        if self.width == width && self.height == height && self.buffers.len() == BUFFER_COUNT {
            return;
        }
        let mut buffers: Vec<Vec<Rgb8>> = Vec::new();
        let mut b: usize = 0;
        while b < BUFFER_COUNT
            invariant
                b <= BUFFER_COUNT,
                buffers.len() == b,
                forall|i: int| 0 <= i < b ==> #[trigger] buffers@[i]@.len() == pixel_count,
                forall|i: int, k: int|
                    0 <= i < b && 0 <= k < pixel_count ==> #[trigger] buffers@[i]@[k] == (Rgb8 { r: 0, g: 0, b: 0 }),
            decreases BUFFER_COUNT - b,
        {
            let mut pixels: Vec<Rgb8> = Vec::new();
            let mut k: usize = 0;
            while k < pixel_count
                invariant
                    k <= pixel_count,
                    pixels.len() == k,
                    forall|j: int| 0 <= j < k ==> #[trigger] pixels@[j] == (Rgb8 { r: 0, g: 0, b: 0 }),
                decreases pixel_count - k,
            {
                pixels.push(Rgb8 { r: 0, g: 0, b: 0 });
                k = k + 1;
            }
            buffers.push(pixels);
            b = b + 1;
        }
        self.width = width;
        self.height = height;
        self.active_buffer = 0;
        self.buffers = buffers;
    }

    /// Converts `frame` into the next buffer. A frame that is not well laid
    /// out is refused before anything changes; a palette index out of range
    /// is refused after the buffer was claimed.
    pub fn present(&mut self, frame: &NativeVideoFrame) -> (r: Result<
        NativeVideoPresentation,
        NativeVideoError,
    >)
        requires
            old(self).wf(),
        ensures
            final(self).wf(),
            !valid_layout(*frame) ==> r == Err::<NativeVideoPresentation, _>(
                NativeVideoError::InvalidLayout,
            ) && final(self).buffer_count() == old(self).buffer_count() && final(self).size()
                == old(self).size() && final(self).next_buffer() == old(self).next_buffer(),
            valid_layout(*frame) ==> {
                let kept = old(self).size() == (frame.width, frame.height) && old(self).buffer_count()
                    == BUFFER_COUNT;
                let used: int = if kept { old(self).next_buffer() as int } else { 0 };
                &&& 0 <= used < BUFFER_COUNT
                &&& final(self).size() == (frame.width, frame.height)
                &&& final(self).buffer_count() == BUFFER_COUNT
                &&& final(self).next_buffer() == (used + 1) % (BUFFER_COUNT as int)
                &&& forall|i: int| 0 <= i < BUFFER_COUNT && i != used && kept ==> final(self).buffer_spec(i)
                    == old(self).buffer_spec(i)
                &&& match r {
                    Ok(p) => {
                        &&& p == (NativeVideoPresentation {
                            buffer: used as usize,
                            source_crop: frame.visible_crop,
                            frame_id: frame.frame_id,
                            timing: frame.timing,
                        })
                        &&& forall|k: int| 0 <= k < frame.pixels@.len() ==> #[trigger] frame.pixels@[k]
                            < frame.palette_rgb565@.len()
                        &&& final(self).buffer_spec(used).len() == frame.pixels@.len()
                        &&& forall|k: int| 0 <= k < frame.pixels@.len() ==> final(self).buffer_spec(used)[k]
                            == rgb888(frame.palette_rgb565@[#[trigger] frame.pixels@[k] as int])
                    },
                    Err(e) => exists|bad: int|
                        0 <= bad < frame.pixels@.len() && frame.pixels@[bad]
                            >= frame.palette_rgb565@.len() && (forall|k: int|
                            0 <= k < bad ==> frame.pixels@[k] < frame.palette_rgb565@.len()) && e
                            == (NativeVideoError::PaletteIndexOutOfRange {
                            index: frame.pixels@[bad],
                            palette_len: frame.palette_rgb565@.len() as usize,
                        }),
                }
            },
    {
        if !has_valid_layout(frame) {
            return Err(NativeVideoError::InvalidLayout);
        }
        self.ensure_size(frame.width, frame.height, frame.pixels.len());
        let buffer_index = self.active_buffer;
        self.active_buffer = (self.active_buffer + 1) % BUFFER_COUNT;
        let mut target: Vec<Rgb8> = Vec::new();
        std::mem::swap(&mut target, &mut self.buffers[buffer_index]);
        let result = match frame.pixel_format {
            NativePixelFormat::Indexed8Rgb565 => expand_indexed_rgb565(
                frame.pixels,
                frame.palette_rgb565,
                &mut target,
            ),
        };
        std::mem::swap(&mut target, &mut self.buffers[buffer_index]);
        match result {
            Ok(_) => Ok(
                NativeVideoPresentation {
                    buffer: buffer_index,
                    source_crop: frame.visible_crop,
                    frame_id: frame.frame_id,
                    timing: frame.timing,
                },
            ),
            Err(e) => Err(e),
        }
    }
}

} // verus!
