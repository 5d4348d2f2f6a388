//! Choosing an audio output configuration among those a device offers: the
//! sample format, the channel count, the device buffer and the depth the
//! ring fills to before playback starts.

use vstd::prelude::*;

use crate::audio::{AUDIO_RING_CAPACITY_SAMPLES, DESIRED_DEVICE_BUFFER_FRAMES, MIN_PRIME_DEPTH_SAMPLES};
use crate::text::{decimal, push_decimal, push_str};

verus! {

/// The emulator's audio sample rate.
pub const AUDIO_SAMPLE_RATE_HZ: u32 = 48_000;

/// Buffer length assumed when the device does not say.
pub const UNKNOWN_BUFFER_FRAMES: usize = 512;

/// The sample formats a device can offer; those the output cannot write are
/// `Other`.
#[derive(Debug, Clone, Copy, PartialEq, Eq, Structural)]
pub enum OutputSampleFormat {
    F32,
    I16,
    U16,
    Other,
}

/// Preference among writable formats: float first, then signed, then
/// unsigned 16-bit; `None` for a format the output cannot write.
pub open spec fn format_rank(format: OutputSampleFormat) -> Option<u8> {
    match format {
        OutputSampleFormat::F32 => Some(0u8),
        OutputSampleFormat::I16 => Some(1u8),
        OutputSampleFormat::U16 => Some(2u8),
        OutputSampleFormat::Other => None,
    }
}

/// The rank of `format`.
pub fn sample_format_rank(format: OutputSampleFormat) -> (rank: Option<u8>)
    ensures
        rank == format_rank(format),
{
    match format {
        OutputSampleFormat::F32 => Some(0),
        OutputSampleFormat::I16 => Some(1),
        OutputSampleFormat::U16 => Some(2),
        OutputSampleFormat::Other => None,
    }
}

/// One output configuration range a device offers.
#[derive(Debug, Clone, Copy, PartialEq, Eq, Structural)]
pub struct OutputConfigRange {
    pub min_sample_rate: u32,
    pub max_sample_rate: u32,
    pub channels: u16,
    pub sample_format: OutputSampleFormat,
}

/// A range is usable when it covers the emulator's rate in a writable format.
pub open spec fn usable(config: OutputConfigRange) -> bool {
    &&& config.min_sample_rate <= AUDIO_SAMPLE_RATE_HZ
    &&& AUDIO_SAMPLE_RATE_HZ <= config.max_sample_rate
    &&& format_rank(config.sample_format) is Some
}

/// Distance of a channel count from stereo.
pub open spec fn stereo_distance(channels: u16) -> int {
    if channels >= 2 {
        channels - 2
    } else {
        2 - channels
    }
}

/// `a` is preferred to `b`: better format, then closer to stereo, then
/// fewer channels.
pub open spec fn preferred(a: OutputConfigRange, b: OutputConfigRange) -> bool {
    let ra = format_rank(a.sample_format)->0;
    let rb = format_rank(b.sample_format)->0;
    ||| ra < rb
    ||| ra == rb && stereo_distance(a.channels) < stereo_distance(b.channels)
    ||| ra == rb && stereo_distance(a.channels) == stereo_distance(b.channels) && a.channels
        < b.channels
}

/// How configurations compare: a float format beats a signed 16-bit one,
/// which beats an unsigned one, whatever the channels; within one format a
/// channel count nearer to two (by the square of the difference) wins, so
/// stereo beats every other count; at equal distance the fewer channels win.
/// Preference is never mutual.
pub proof fn lemma_preference_order(a: OutputConfigRange, b: OutputConfigRange)
    requires
        usable(a),
        usable(b),
    ensures
        a.sample_format == OutputSampleFormat::F32 && b.sample_format != OutputSampleFormat::F32
            ==> preferred(a, b),
        a.sample_format == OutputSampleFormat::I16 && b.sample_format == OutputSampleFormat::U16
            ==> preferred(a, b),
        a.sample_format == b.sample_format && (a.channels as int - 2) * (a.channels as int - 2) < (
        b.channels as int - 2) * (b.channels as int - 2) ==> preferred(a, b),
        a.sample_format == b.sample_format && a.channels == 2 && b.channels != 2 ==> preferred(a, b),
        a.sample_format == b.sample_format && (a.channels as int - 2) * (a.channels as int - 2) == (
        b.channels as int - 2) * (b.channels as int - 2) && a.channels < b.channels ==> preferred(a, b),
        !(preferred(a, b) && preferred(b, a)),
{
    let da = a.channels as int - 2;
    let db = b.channels as int - 2;
    assert(stereo_distance(a.channels) * stereo_distance(a.channels) == da * da) by (nonlinear_arith)
        requires
            stereo_distance(a.channels) == da || stereo_distance(a.channels) == -da,
    ;
    assert(stereo_distance(b.channels) * stereo_distance(b.channels) == db * db) by (nonlinear_arith)
        requires
            stereo_distance(b.channels) == db || stereo_distance(b.channels) == -db,
    ;
    let sa = stereo_distance(a.channels);
    let sb = stereo_distance(b.channels);
    assert(sa * sa < sb * sb <==> sa < sb) by (nonlinear_arith)
        requires
            sa >= 0,
            sb >= 0,
    ;
    assert(sa * sa == sb * sb <==> sa == sb) by (nonlinear_arith)
        requires
            sa >= 0,
            sb >= 0,
    ;
}

/// The configuration chosen among `configs`: the first usable one that no
/// usable one is preferred to; `None` when none is usable.
pub open spec fn chosen_config(configs: Seq<OutputConfigRange>, choice: Option<usize>) -> bool {
    match choice {
        None => forall|j: int| 0 <= j < configs.len() ==> !usable(#[trigger] configs[j]),
        Some(i) => {
            &&& i < configs.len()
            &&& usable(configs[i as int])
            &&& forall|j: int|
                0 <= j < configs.len() && usable(#[trigger] configs[j]) ==> !preferred(
                    configs[j],
                    configs[i as int],
                )
            &&& forall|j: int|
                0 <= j < i && usable(#[trigger] configs[j]) ==> preferred(
                    configs[i as int],
                    configs[j],
                )
        },
    }
}

fn distance_from_stereo(channels: u16) -> (d: u16)
    ensures
        d == stereo_distance(channels),
{
    if channels >= 2 {
        channels - 2
    } else {
        2 - channels
    }
}

fn is_usable(config: &OutputConfigRange) -> (u: bool)
    ensures
        u == usable(*config),
{
    config.min_sample_rate <= AUDIO_SAMPLE_RATE_HZ && AUDIO_SAMPLE_RATE_HZ <= config.max_sample_rate
        && sample_format_rank(config.sample_format).is_some()
}

fn is_preferred(a: &OutputConfigRange, b: &OutputConfigRange) -> (p: bool)
    requires
        usable(*a),
        usable(*b),
    ensures
        p == preferred(*a, *b),
{
    let ra = match sample_format_rank(a.sample_format) {
        Some(r) => r,
        None => 0,
    };
    let rb = match sample_format_rank(b.sample_format) {
        Some(r) => r,
        None => 0,
    };
    let da = distance_from_stereo(a.channels);
    let db = distance_from_stereo(b.channels);
    ra < rb || (ra == rb && da < db) || (ra == rb && da == db && a.channels < b.channels)
}

/// Picks the output configuration: among the usable ranges, the best format,
/// then the channel count closest to stereo, then the fewest channels; the
/// first of equals. Returns its position.
pub fn choose_output_config(configs: &Vec<OutputConfigRange>) -> (choice: Option<usize>)
    ensures
        chosen_config(configs@, choice),
        choice matches Some(i) ==> forall|j: int|
            0 <= j < configs@.len() && usable(#[trigger] configs@[j]) && configs@[j].channels == 2
                && configs@[j].sample_format == configs@[i as int].sample_format ==> configs@[i as int].channels
                == 2,
        choice matches Some(i) ==> forall|j: int|
            0 <= j < configs@.len() && usable(#[trigger] configs@[j]) && configs@[j].sample_format
                == OutputSampleFormat::F32 ==> configs@[i as int].sample_format == OutputSampleFormat::F32,
{
    let mut best: Option<usize> = None;
    let mut k: usize = 0;
    while k < configs.len()
        invariant
            k <= configs@.len(),
            match best {
                None => forall|j: int| 0 <= j < k ==> !usable(#[trigger] configs@[j]),
                Some(i) => {
                    &&& i < k
                    &&& usable(configs@[i as int])
                    &&& forall|j: int|
                        0 <= j < k && usable(#[trigger] configs@[j]) ==> !preferred(
                            configs@[j],
                            configs@[i as int],
                        )
                    &&& forall|j: int|
                        0 <= j < i && usable(#[trigger] configs@[j]) ==> preferred(
                            configs@[i as int],
                            configs@[j],
                        )
                },
            },
        decreases configs@.len() - k,
    {
        if is_usable(&configs[k]) {
            match best {
                None => {
                    best = Some(k);
                },
                Some(i) => {
                    if is_preferred(&configs[k], &configs[i]) {
                        proof {
                            assert forall|j: int|
                                0 <= j < k && usable(#[trigger] configs@[j]) implies preferred(
                                configs@[k as int],
                                configs@[j],
                            ) by {
                                assert(!preferred(configs@[j], configs@[i as int]));
                            }
                        }
                        best = Some(k);
                    }
                },
            }
        }
        k = k + 1;
    }
    proof {
        if let Some(i) = best {
            assert forall|j: int|
                0 <= j < configs@.len() && usable(#[trigger] configs@[j]) implies (
                configs@[j].channels == 2 && configs@[j].sample_format == configs@[i as int].sample_format
                    ==> configs@[i as int].channels == 2) && (configs@[j].sample_format
                == OutputSampleFormat::F32 ==> configs@[i as int].sample_format == OutputSampleFormat::F32) by {
                lemma_preference_order(configs@[j], configs@[i as int]);
            }
        }
    }
    best
}

/// The buffer sizes a device accepts.
#[derive(Debug, Clone, Copy, PartialEq, Eq, Structural)]
pub enum DeviceBufferSize {
    /// Any length from `min` to `max` frames.
    Range { min: u32, max: u32 },
    /// The device does not say.
    Unknown,
}

/// The buffer to ask the device for.
#[derive(Debug, Clone, Copy, PartialEq, Eq, Structural)]
pub enum BufferRequest {
    /// A buffer of this many frames.
    Fixed(u32),
    /// The device's own default.
    Default,
}

/// The buffer to ask for and its expected length in frames: the desired
/// length clamped to a device range, else the default with 512 frames
/// assumed.
pub fn choose_buffer_size(supported: DeviceBufferSize) -> (choice: (BufferRequest, usize))
    requires
        supported matches DeviceBufferSize::Range { min, max } ==> min <= max,
    ensures
        match supported {
            DeviceBufferSize::Range { min, max } => {
                let frames = if DESIRED_DEVICE_BUFFER_FRAMES < min {
                    min
                } else if DESIRED_DEVICE_BUFFER_FRAMES > max {
                    max
                } else {
                    DESIRED_DEVICE_BUFFER_FRAMES
                };
                choice == (BufferRequest::Fixed(frames), frames as usize)
            },
            DeviceBufferSize::Unknown => choice == (BufferRequest::Default, UNKNOWN_BUFFER_FRAMES),
        },
{
    match supported {
        DeviceBufferSize::Range { min, max } => {
            let frames = if DESIRED_DEVICE_BUFFER_FRAMES < min {
                min
            } else if DESIRED_DEVICE_BUFFER_FRAMES > max {
                max
            } else {
                DESIRED_DEVICE_BUFFER_FRAMES
            };
            (BufferRequest::Fixed(frames), frames as usize)
        },
        DeviceBufferSize::Unknown => (BufferRequest::Default, UNKNOWN_BUFFER_FRAMES),
    }
}

/// The depth the ring fills to before playback: two device buffers, at least
/// the minimum priming depth and at most the ring's capacity.
pub fn device_target_depth(buffer_frames: usize) -> (depth: usize)
    ensures
        depth == ({
            let doubled = if buffer_frames * 2 > usize::MAX { usize::MAX as int } else { buffer_frames * 2 };
            let at_least = if doubled < MIN_PRIME_DEPTH_SAMPLES { MIN_PRIME_DEPTH_SAMPLES as int } else { doubled };
            if at_least > AUDIO_RING_CAPACITY_SAMPLES { AUDIO_RING_CAPACITY_SAMPLES as int } else { at_least }
        }),
{
    let doubled = if buffer_frames > usize::MAX / 2 {
        usize::MAX
    } else {
        buffer_frames * 2
    };
    let at_least = if doubled < MIN_PRIME_DEPTH_SAMPLES {
        MIN_PRIME_DEPTH_SAMPLES
    } else {
        doubled
    };
    if at_least > AUDIO_RING_CAPACITY_SAMPLES {
        AUDIO_RING_CAPACITY_SAMPLES
    } else {
        at_least
    }
}

/// How a sample format is named in the output description.
pub open spec fn format_name(format: OutputSampleFormat) -> Seq<char> {
    match format {
        OutputSampleFormat::F32 => "F32"@,
        OutputSampleFormat::I16 => "I16"@,
        OutputSampleFormat::U16 => "U16"@,
        OutputSampleFormat::Other => "Other"@,
    }
}

/// The description of an open output: device, channels, rate, format and the
/// requested buffer (`0` frames meaning the device default).
pub open spec fn output_description_text(
    device_name: Seq<char>,
    channels: u16,
    format: OutputSampleFormat,
    buffer_frames: usize,
) -> Seq<char> {
    device_name + "; "@ + decimal(channels as nat) + " channels; "@ + decimal(AUDIO_SAMPLE_RATE_HZ as nat)
        + " Hz; "@ + format_name(format) + "; "@ + if buffer_frames == 0 {
        "default buffer"@
    } else {
        decimal(buffer_frames as nat) + "-frame requested buffer"@
    }
}

/// Describes an open output.
pub fn output_description(
    device_name: &str,
    channels: u16,
    format: OutputSampleFormat,
    buffer_frames: usize,
) -> (text: String)
    ensures
        text@ == output_description_text(device_name@, channels, format, buffer_frames),
{
    let mut text = String::new();
    push_str(&mut text, device_name);
    push_str(&mut text, "; ");
    push_decimal(&mut text, channels as u128);
    push_str(&mut text, " channels; ");
    push_decimal(&mut text, AUDIO_SAMPLE_RATE_HZ as u128);
    push_str(&mut text, " Hz; ");
    match format {
        OutputSampleFormat::F32 => push_str(&mut text, "F32"),
        OutputSampleFormat::I16 => push_str(&mut text, "I16"),
        OutputSampleFormat::U16 => push_str(&mut text, "U16"),
        OutputSampleFormat::Other => push_str(&mut text, "Other"),
    }
    push_str(&mut text, "; ");
    if buffer_frames == 0 {
        push_str(&mut text, "default buffer");
    } else {
        push_decimal(&mut text, buffer_frames as u128);
        push_str(&mut text, "-frame requested buffer");
    }
    text
}

} // verus!
