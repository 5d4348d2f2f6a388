//! Bounded audio handoff between the emulator worker and the output callback.
//!
//! The ring keeps monotonically increasing write and read positions; a slot is
//! the position modulo the capacity. Samples that do not fit are dropped and
//! counted, pausing or resuming discards what is queued, and the callback only
//! starts draining once a target depth has been primed.

use vstd::arithmetic::div_mod::{lemma_mod_equivalence, lemma_small_mod};
use vstd::prelude::*;

verus! {

/// Samples held by a realtime audio ring.
pub const AUDIO_RING_CAPACITY_SAMPLES: usize = 4096;

/// Device buffer size requested from the output device, in frames.
pub const DESIRED_DEVICE_BUFFER_FRAMES: u32 = 256;

/// Smallest priming depth used for a device stream.
pub const MIN_PRIME_DEPTH_SAMPLES: usize = 768;

/// Unity gain in Q15 fixed point.
pub const FULL_VOLUME_Q15: u32 = 32768;

/// Two positions fewer than `m` apart occupy different slots.
proof fn lemma_distinct_slots(a: int, b: int, m: int)
    requires
        0 < m,
        b < a,
        a - b < m,
    ensures
        a % m != b % m,
{
    lemma_mod_equivalence(a, b, m);
    lemma_small_mod((a - b) as nat, m as nat);
}

/// A fixed-capacity ring of PCM samples addressed by 64-bit positions.
pub struct AudioRing {
    samples: Vec<i16>,
    write_index: u64,
    read_index: u64,
    discard_through: u64,
}

impl AudioRing {
    /// The positions are ordered and the queued span fits in the storage.
    pub closed spec fn wf(&self) -> bool {
        &&& self.samples.len() > 0
        &&& self.discard_through <= self.read_index <= self.write_index
        &&& self.write_index - self.read_index <= self.samples.len()
    }

    /// Number of sample slots.
    pub closed spec fn capacity_spec(&self) -> nat {
        self.samples.len() as nat
    }

    /// Position that the next accepted sample takes.
    pub closed spec fn write_position(&self) -> u64 {
        self.write_index
    }

    /// Position of the oldest queued sample.
    pub closed spec fn read_position(&self) -> u64 {
        self.read_index
    }

    /// Sample stored in the slot of `position`.
    pub closed spec fn slot(&self, position: int) -> i16 {
        self.samples@[position % (self.samples.len() as int)]
    }

    /// Queued samples, oldest first.
    pub closed spec fn pending(&self) -> Seq<i16> {
        Seq::new(
            (self.write_index - self.read_index) as nat,
            |k: int| self.slot(self.read_index + k),
        )
    }

    /// An empty ring with `capacity` zeroed slots.
    pub fn new(capacity: usize) -> (ring: Self)
        requires
            capacity > 0,
        ensures
            ring.wf(),
            ring.capacity_spec() == capacity,
            ring.pending().len() == 0,
            ring.write_position() == 0,
            ring.read_position() == 0,
    {
        let mut samples: Vec<i16> = Vec::new();
        let mut i: usize = 0;
        while i < capacity
            invariant
                i <= capacity,
                samples.len() == i,
            decreases capacity - i,
        {
            samples.push(0);
            i = i + 1;
        }
        AudioRing { samples, write_index: 0, read_index: 0, discard_through: 0 }
    }

    /// Number of sample slots.
    pub fn capacity(&self) -> (c: usize)
        ensures
            c == self.capacity_spec(),
    {
        self.samples.len()
    }

    /// Queues as many of `samples` as fit, in order, and returns how many were
    /// dropped because the ring was full.
    pub fn push(&mut self, samples: &[i16]) -> (overflow: u64)
        requires
            old(self).wf(),
            old(self).write_position() + samples.len() <= u64::MAX,
        ensures
            final(self).wf(),
            final(self).capacity_spec() == old(self).capacity_spec(),
            final(self).read_position() == old(self).read_position(),
            final(self).pending() == old(self).pending() + samples@.take(
                accepted_count(samples.len() as int, old(self).capacity_spec() - old(self).pending().len()),
            ),
            overflow == samples.len() - accepted_count(
                samples.len() as int,
                old(self).capacity_spec() - old(self).pending().len(),
            ),
            final(self).write_position() == old(self).write_position() + accepted_count(
                samples.len() as int,
                old(self).capacity_spec() - old(self).pending().len(),
            ),
    {
        let ghost old_pending = self.pending();
        let ghost free = self.samples.len() - (self.write_index - self.read_index);
        let cap = self.samples.len();
        let mut write = self.write_index;
        let mut overflow: u64 = 0;
        let mut i: usize = 0;
        while i < samples.len()
            invariant
                self.wf(),
                self.samples.len() == cap,
                self.read_index == old(self).read_index,
                self.discard_through == old(self).discard_through,
                write == self.write_index,
                i <= samples.len(),
                free == cap - old_pending.len(),
                old_pending == old(self).pending(),
                old_pending.len() == old(self).write_index - old(self).read_index,
                write == old(self).write_position() + accepted_count(i as int, free),
                old(self).write_position() + samples.len() <= u64::MAX,
                overflow == i - accepted_count(i as int, free),
                self.pending() == old_pending + samples@.take(accepted_count(i as int, free)),
            decreases samples.len() - i,
        {
            let read = self.read_index;
            if write - read >= cap as u64 {
                overflow = overflow + 1;
                assert(accepted_count(i as int + 1, free) == accepted_count(i as int, free));
            } else {
                let ghost before = self.pending();
                let slot_index = (write % (cap as u64)) as usize;
                self.samples.set(slot_index, samples[i]);
                proof {
                    assert forall|k: int| 0 <= k < before.len() implies self.slot(
                        self.read_index + k,
                    ) == before[k] by {
                        lemma_distinct_slots(write as int, self.read_index + k, cap as int);
                    }
                }
                write = write + 1;
                self.write_index = write;
                assert(accepted_count(i as int + 1, free) == accepted_count(i as int, free) + 1);
                assert(samples@.take(accepted_count(i as int + 1, free)) =~= samples@.take(
                    accepted_count(i as int, free),
                ).push(samples@[i as int]));
                assert(self.pending() =~= before.push(samples@[i as int]));
            }
            i = i + 1;
        }
        assert(samples@.take(accepted_count(samples.len() as int, free)) =~= samples@.take(
            accepted_count(i as int, free),
        ));
        overflow
    }

    /// Drops everything queued: the read position catches up with the write
    /// position and becomes the discard floor.
    pub fn discard_current_contents(&mut self)
        requires
            old(self).wf(),
        ensures
            final(self).wf(),
            final(self).capacity_spec() == old(self).capacity_spec(),
            final(self).write_position() == old(self).write_position(),
            final(self).pending().len() == 0,
    {
        let write = self.write_index;
        if self.read_index < write {
            self.read_index = write;
        }
        self.discard_through = write;
    }

    /// The effective read position (never below the discard floor) and the
    /// write position.
    pub fn begin_read(&self) -> (positions: (u64, u64))
        requires
            self.wf(),
        ensures
            positions.0 == self.read_position(),
            positions.1 == self.write_position(),
    {
        let write = self.write_index;
        let floor = self.discard_through;
        let read = if self.read_index > floor { self.read_index } else { floor };
        (read, write)
    }

    /// The sample in the slot of `position`.
    pub fn sample(&self, position: u64) -> (s: i16)
        requires
            self.wf(),
        ensures
            s == self.slot(position as int),
    {
        self.samples[(position % (self.samples.len() as u64)) as usize]
    }

    /// Marks everything before `read` as consumed; the read position never
    /// moves backwards.
    pub fn commit_read(&mut self, read: u64)
        requires
            old(self).wf(),
            read <= old(self).write_position(),
        ensures
            final(self).wf(),
            final(self).capacity_spec() == old(self).capacity_spec(),
            final(self).write_position() == old(self).write_position(),
            final(self).read_position() == if read > old(self).read_position() {
                read
            } else {
                old(self).read_position()
            },
            final(self).pending() == old(self).pending().skip(
                final(self).read_position() - old(self).read_position(),
            ),
            read <= old(self).read_position() ==> *final(self) == *old(self),
    {
        if read > self.read_index {
            let ghost before = self.pending();
            let ghost delta = read - self.read_index;
            self.read_index = read;
            assert(self.pending() =~= before.skip(delta));
        } else {
            assert(self.pending() =~= self.pending().skip(0));
        }
    }

    /// Moves the read position up to the discard floor. The floor never lies
    /// above the read position of a well-formed ring, so the ring is left
    /// exactly as it was.
    pub fn apply_discard_floor(&mut self)
        requires
            old(self).wf(),
        ensures
            final(self).wf(),
            *final(self) == *old(self),
            final(self).capacity_spec() == old(self).capacity_spec(),
            final(self).write_position() == old(self).write_position(),
            final(self).read_position() == old(self).read_position(),
            final(self).pending() == old(self).pending(),
    {
        let floor = self.discard_through;
        self.commit_read(floor);
    }

    /// Number of queued samples.
    pub fn depth(&self) -> (d: usize)
        requires
            self.wf(),
        ensures
            d == self.pending().len(),
            d <= self.capacity_spec(),
    {
        let write = self.write_index;
        let floor = self.discard_through;
        let read = if self.read_index > floor { self.read_index } else { floor };
        let depth = write - read;
        let cap = self.samples.len() as u64;
        let bounded = if depth < cap { depth } else { cap };
        bounded as usize
    }
}

/// How many of `requested` samples a ring with `free` slots accepts.
pub open spec fn accepted_count(requested: int, free: int) -> int {
    if requested < free { requested } else { free }
}


/// What offering `samples` to a stream does: an inactive stream ignores
/// them; an active one queues as many as fit, counts the rest as overflow and
/// raises its high-water mark to the new depth.
pub open spec fn samples_pushed(before: AudioShared, after: AudioShared, samples: Seq<i16>) -> bool {
    if !before.is_active() {
        after == before
    } else {
        let accepted = accepted_count(
            samples.len() as int,
            before.ring_spec().capacity_spec() - before.ring_spec().pending().len(),
        );
        &&& after.ring_spec().pending() == before.ring_spec().pending() + samples.take(accepted)
        &&& after.ring_spec().capacity_spec() == before.ring_spec().capacity_spec()
        &&& after.overflows() == before.overflows().wrapping_add((samples.len() - accepted) as u64)
        &&& after.high_water() == if after.ring_spec().pending().len() > before.high_water() {
            after.ring_spec().pending().len() as u64
        } else {
            before.high_water()
        }
        &&& after.is_active() == before.is_active()
        &&& after.is_primed() == before.is_primed()
        &&& after.is_muted() == before.is_muted()
        &&& after.volume() == before.volume()
        &&& after.target_depth() == before.target_depth()
        &&& after.consumed() == before.consumed()
        &&& after.underruns() == before.underruns()
        &&& after.callbacks() == before.callbacks()
        &&& after.errors() == before.errors()
    }
}

/// Snapshot of an audio endpoint's state and counters.
#[derive(Debug, Clone, Copy, Default, PartialEq, Eq)]
pub struct RealtimeAudioTelemetry {
    pub available: bool,
    pub active: bool,
    pub primed: bool,
    pub muted: bool,
    pub capacity_samples: usize,
    pub target_depth_samples: usize,
    pub current_depth_samples: usize,
    pub high_water_samples: usize,
    pub consumed_samples: u64,
    pub underrun_samples: u64,
    pub overflow_samples: u64,
    pub callback_count: u64,
    pub device_errors: u64,
}

/// State shared by the sample producer and the output callback.
pub struct AudioShared {
    ring: AudioRing,
    target_depth_samples: usize,
    active: bool,
    primed: bool,
    muted: bool,
    volume_q15: u32,
    high_water_samples: u64,
    consumed_samples: u64,
    underrun_samples: u64,
    overflow_samples: u64,
    callback_count: u64,
    device_errors: u64,
}

impl AudioShared {
    /// The ring is well formed and the volume is at most unity gain; the
    /// high-water mark lies between the queue depth and the capacity, and an
    /// inactive stream queues nothing.
    pub closed spec fn wf(&self) -> bool {
        &&& self.ring.wf()
        &&& self.volume_q15 <= FULL_VOLUME_Q15
        &&& self.ring.pending().len() <= self.high_water_samples
        &&& self.high_water_samples <= self.ring.capacity_spec()
        &&& !self.active ==> self.ring.pending().len() == 0
    }

    pub closed spec fn ring_spec(&self) -> AudioRing {
        self.ring
    }

    pub closed spec fn target_depth(&self) -> nat {
        self.target_depth_samples as nat
    }

    pub closed spec fn is_active(&self) -> bool {
        self.active
    }

    pub closed spec fn is_primed(&self) -> bool {
        self.primed
    }

    pub closed spec fn is_muted(&self) -> bool {
        self.muted
    }

    pub closed spec fn volume(&self) -> u32 {
        self.volume_q15
    }

    pub closed spec fn high_water(&self) -> u64 {
        self.high_water_samples
    }

    pub closed spec fn consumed(&self) -> u64 {
        self.consumed_samples
    }

    pub closed spec fn underruns(&self) -> u64 {
        self.underrun_samples
    }

    pub closed spec fn overflows(&self) -> u64 {
        self.overflow_samples
    }

    pub closed spec fn callbacks(&self) -> u64 {
        self.callback_count
    }

    pub closed spec fn errors(&self) -> u64 {
        self.device_errors
    }

    /// Inactive, unprimed, unmuted, at unity gain, with an empty ring of
    /// `capacity` slots and zeroed counters.
    pub fn new(capacity: usize, target_depth_samples: usize) -> (shared: Self)
        requires
            capacity > 0,
        ensures
            shared.wf(),
            shared.ring_spec().capacity_spec() == capacity,
            shared.ring_spec().pending().len() == 0,
            shared.ring_spec().write_position() == 0,
            shared.target_depth() == target_depth_samples,
            !shared.is_active(),
            !shared.is_primed(),
            !shared.is_muted(),
            shared.volume() == FULL_VOLUME_Q15,
            shared.high_water() == 0,
            shared.consumed() == 0,
            shared.underruns() == 0,
            shared.overflows() == 0,
            shared.callbacks() == 0,
            shared.errors() == 0,
    {
        AudioShared {
            ring: AudioRing::new(capacity),
            target_depth_samples,
            active: false,
            primed: false,
            muted: false,
            volume_q15: FULL_VOLUME_Q15,
            high_water_samples: 0,
            consumed_samples: 0,
            underrun_samples: 0,
            overflow_samples: 0,
            callback_count: 0,
            device_errors: 0,
        }
    }
}

/// Raises the recorded high-water mark to at least `depth`.
pub fn update_high_water(shared: &mut AudioShared, depth: u64)
    ensures
        final(shared).high_water() == if depth > old(shared).high_water() {
            depth
        } else {
            old(shared).high_water()
        },
        final(shared).ring_spec() == old(shared).ring_spec(),
        final(shared).target_depth() == old(shared).target_depth(),
        final(shared).is_active() == old(shared).is_active(),
        final(shared).is_primed() == old(shared).is_primed(),
        final(shared).is_muted() == old(shared).is_muted(),
        final(shared).volume() == old(shared).volume(),
        final(shared).consumed() == old(shared).consumed(),
        final(shared).underruns() == old(shared).underruns(),
        final(shared).overflows() == old(shared).overflows(),
        final(shared).callbacks() == old(shared).callbacks(),
        final(shared).errors() == old(shared).errors(),
{
    if depth > shared.high_water_samples {
        shared.high_water_samples = depth;
    }
}

/// What the output callback writes into a device buffer.
#[derive(Debug, PartialEq, Eq)]
pub enum AudioOutputPlan {
    /// The buffer is left as it is (a stream without channels).
    Untouched,
    /// Every sample of the buffer is silence.
    Silence,
    /// Frame `i` carries `samples[i]` on every channel, scaled by
    /// `volume_q15 / 32768` (or silenced when `muted`); when `silence_tail`
    /// holds, everything after those frames is silence.
    Frames { samples: Vec<i16>, muted: bool, volume_q15: u32, silence_tail: bool },
}

/// Producer and control handle of a realtime audio stream.
pub struct RealtimeAudioEndpoint {
    shared: AudioShared,
}

impl RealtimeAudioEndpoint {
    pub closed spec fn shared_spec(&self) -> AudioShared {
        self.shared
    }

    pub open spec fn wf(&self) -> bool {
        self.shared_spec().wf()
    }

    /// An endpoint with a ring of the standard capacity whose priming depth is
    /// `target_depth_samples` clamped to `1..=capacity`.
    pub fn new(target_depth_samples: usize) -> (endpoint: Self)
        ensures
            endpoint.wf(),
            endpoint.shared_spec().ring_spec().capacity_spec() == AUDIO_RING_CAPACITY_SAMPLES,
            endpoint.shared_spec().ring_spec().pending().len() == 0,
            endpoint.shared_spec().target_depth() == if target_depth_samples < 1 {
                1
            } else if target_depth_samples > AUDIO_RING_CAPACITY_SAMPLES {
                AUDIO_RING_CAPACITY_SAMPLES as int
            } else {
                target_depth_samples as int
            },
            !endpoint.shared_spec().is_active(),
            !endpoint.shared_spec().is_primed(),
    {
        let target = if target_depth_samples < 1 {
            1
        } else if target_depth_samples > AUDIO_RING_CAPACITY_SAMPLES {
            AUDIO_RING_CAPACITY_SAMPLES
        } else {
            target_depth_samples
        };
        RealtimeAudioEndpoint { shared: AudioShared::new(AUDIO_RING_CAPACITY_SAMPLES, target) }
    }

    /// An endpoint over explicitly constructed shared state.
    pub fn from_shared(shared: AudioShared) -> (endpoint: Self)
        ensures
            endpoint.shared_spec() == shared,
    {
        RealtimeAudioEndpoint { shared }
    }

    /// The ring behind this endpoint.
    pub fn ring(&self) -> (ring: &AudioRing)
        ensures
            *ring == self.shared_spec().ring_spec(),
    {
        &self.shared.ring
    }

    /// Queues samples while the stream is active; what does not fit is dropped
    /// and counted, and the high-water mark follows the queue depth.
    pub fn push_samples(&mut self, samples: &[i16])
        requires
            old(self).wf(),
            old(self).shared_spec().ring_spec().write_position() + samples.len() <= u64::MAX,
        ensures
            final(self).wf(),
            samples_pushed(old(self).shared_spec(), final(self).shared_spec(), samples@),
            old(self).shared_spec().is_active() ==> {
                let depth = old(self).shared_spec().ring_spec().pending().len() as int;
                let cap = old(self).shared_spec().ring_spec().capacity_spec() as int;
                let wanted = depth + samples.len();
                &&& final(self).shared_spec().ring_spec().pending().len() == if wanted < cap {
                    wanted
                } else {
                    cap
                }
                &&& final(self).shared_spec().overflows() == old(
                    self,
                ).shared_spec().overflows().wrapping_add(
                    (if wanted > cap { wanted - cap } else { 0 }) as u64,
                )
            },
    {
        if !self.shared.active {
            return;
        }
        let overflow = self.shared.ring.push(samples);
        self.shared.overflow_samples = self.shared.overflow_samples.wrapping_add(overflow);
        let depth = self.shared.ring.depth() as u64;
        update_high_water(&mut self.shared, depth);
    }

    /// Pausing stops accepting samples and discards the queue; resuming
    /// discards the queue too, then starts accepting again. Either way the
    /// stream must prime again.
    pub fn set_paused(&mut self, paused: bool)
        requires
            old(self).wf(),
        ensures
            final(self).wf(),
            final(self).shared_spec().is_active() == !paused,
            !final(self).shared_spec().is_primed(),
            final(self).shared_spec().ring_spec().pending().len() == 0,
            final(self).shared_spec().ring_spec().capacity_spec() == old(
                self,
            ).shared_spec().ring_spec().capacity_spec(),
            final(self).shared_spec().ring_spec().write_position() == old(
                self,
            ).shared_spec().ring_spec().write_position(),
            final(self).shared_spec().is_muted() == old(self).shared_spec().is_muted(),
            final(self).shared_spec().volume() == old(self).shared_spec().volume(),
            final(self).shared_spec().target_depth() == old(self).shared_spec().target_depth(),
            final(self).shared_spec().high_water() == old(self).shared_spec().high_water(),
            final(self).shared_spec().consumed() == old(self).shared_spec().consumed(),
            final(self).shared_spec().underruns() == old(self).shared_spec().underruns(),
            final(self).shared_spec().overflows() == old(self).shared_spec().overflows(),
            final(self).shared_spec().callbacks() == old(self).shared_spec().callbacks(),
            final(self).shared_spec().errors() == old(self).shared_spec().errors(),
    {
        if paused {
            self.shared.active = false;
            self.shared.primed = false;
            self.shared.ring.discard_current_contents();
        } else {
            self.shared.primed = false;
            self.shared.ring.discard_current_contents();
            self.shared.active = true;
        }
    }

    /// Mutes or unmutes the output; consumption continues either way.
    pub fn set_muted(&mut self, muted: bool)
        ensures
            final(self).wf() == old(self).wf(),
            final(self).shared_spec().is_muted() == muted,
            final(self).shared_spec().volume() == old(self).shared_spec().volume(),
            same_stream(old(self).shared_spec(), final(self).shared_spec()),
            same_counters(old(self).shared_spec(), final(self).shared_spec()),
    {
        self.shared.muted = muted;
    }

    /// Sets the output gain in Q15 fixed point, capped at unity gain.
    pub fn set_volume_q15(&mut self, volume_q15: u32)
        requires
            old(self).wf(),
        ensures
            final(self).wf(),
            final(self).shared_spec().volume() == if volume_q15 > FULL_VOLUME_Q15 {
                FULL_VOLUME_Q15
            } else {
                volume_q15
            },
            final(self).shared_spec().is_muted() == old(self).shared_spec().is_muted(),
            same_stream(old(self).shared_spec(), final(self).shared_spec()),
            same_counters(old(self).shared_spec(), final(self).shared_spec()),
    {
        self.shared.volume_q15 = if volume_q15 > FULL_VOLUME_Q15 {
            FULL_VOLUME_Q15
        } else {
            volume_q15
        };
    }

    /// Counts one output-device error.
    pub fn record_device_error(&mut self)
        ensures
            final(self).wf() == old(self).wf(),
            final(self).shared_spec().errors() == old(self).shared_spec().errors().wrapping_add(1),
            final(self).shared_spec().is_muted() == old(self).shared_spec().is_muted(),
            final(self).shared_spec().volume() == old(self).shared_spec().volume(),
            same_stream(old(self).shared_spec(), final(self).shared_spec()),
            final(self).shared_spec().high_water() == old(self).shared_spec().high_water(),
            final(self).shared_spec().consumed() == old(self).shared_spec().consumed(),
            final(self).shared_spec().underruns() == old(self).shared_spec().underruns(),
            final(self).shared_spec().overflows() == old(self).shared_spec().overflows(),
            final(self).shared_spec().callbacks() == old(self).shared_spec().callbacks(),
    {
        self.shared.device_errors = self.shared.device_errors.wrapping_add(1);
    }

    /// A snapshot of the endpoint's state and counters.
    pub fn telemetry(&self) -> (t: RealtimeAudioTelemetry)
        requires
            self.wf(),
        ensures
            t.available,
            t.active == self.shared_spec().is_active(),
            t.primed == self.shared_spec().is_primed(),
            t.muted == self.shared_spec().is_muted(),
            t.capacity_samples == self.shared_spec().ring_spec().capacity_spec(),
            t.target_depth_samples == self.shared_spec().target_depth(),
            t.current_depth_samples == self.shared_spec().ring_spec().pending().len(),
            t.current_depth_samples <= t.capacity_samples,
            t.high_water_samples == self.shared_spec().high_water(),
            t.current_depth_samples <= t.high_water_samples,
            t.high_water_samples <= t.capacity_samples,
            !t.active ==> t.current_depth_samples == 0,
            t.consumed_samples == self.shared_spec().consumed(),
            t.underrun_samples == self.shared_spec().underruns(),
            t.overflow_samples == self.shared_spec().overflows(),
            t.callback_count == self.shared_spec().callbacks(),
            t.device_errors == self.shared_spec().errors(),
    {
        RealtimeAudioTelemetry {
            available: true,
            active: self.shared.active,
            primed: self.shared.primed,
            muted: self.shared.muted,
            capacity_samples: self.shared.ring.capacity(),
            target_depth_samples: self.shared.target_depth_samples,
            current_depth_samples: self.shared.ring.depth(),
            high_water_samples: self.shared.high_water_samples as usize,
            consumed_samples: self.shared.consumed_samples,
            underrun_samples: self.shared.underrun_samples,
            overflow_samples: self.shared.overflow_samples,
            callback_count: self.shared.callback_count,
            device_errors: self.shared.device_errors,
        }
    }

    /// Starts a read: the effective read and write positions, recording the
    /// queue depth as a high-water candidate.
    pub fn begin_read(&mut self) -> (positions: (u64, u64))
        requires
            old(self).wf(),
        ensures
            final(self).wf(),
            positions.0 == old(self).shared_spec().ring_spec().read_position(),
            positions.1 == old(self).shared_spec().ring_spec().write_position(),
            final(self).shared_spec().high_water() == if old(
                self,
            ).shared_spec().ring_spec().pending().len() > old(self).shared_spec().high_water() {
                old(self).shared_spec().ring_spec().pending().len() as u64
            } else {
                old(self).shared_spec().high_water()
            },
            final(self).shared_spec().is_muted() == old(self).shared_spec().is_muted(),
            final(self).shared_spec().volume() == old(self).shared_spec().volume(),
            same_stream(old(self).shared_spec(), final(self).shared_spec()),
            final(self).shared_spec().consumed() == old(self).shared_spec().consumed(),
            final(self).shared_spec().underruns() == old(self).shared_spec().underruns(),
            final(self).shared_spec().overflows() == old(self).shared_spec().overflows(),
            final(self).shared_spec().callbacks() == old(self).shared_spec().callbacks(),
            final(self).shared_spec().errors() == old(self).shared_spec().errors(),
    {
        let positions = self.shared.ring.begin_read();
        let depth = positions.1 - positions.0;
        update_high_water(&mut self.shared, depth);
        positions
    }

    /// Commits a read up to `read`.
    pub fn commit_read(&mut self, read: u64)
        requires
            old(self).wf(),
            read <= old(self).shared_spec().ring_spec().write_position(),
        ensures
            final(self).wf(),
            final(self).shared_spec().ring_spec().pending() == old(
                self,
            ).shared_spec().ring_spec().pending().skip(
                final(self).shared_spec().ring_spec().read_position() - old(
                    self,
                ).shared_spec().ring_spec().read_position(),
            ),
            final(self).shared_spec().ring_spec().read_position() == if read > old(
                self,
            ).shared_spec().ring_spec().read_position() {
                read
            } else {
                old(self).shared_spec().ring_spec().read_position()
            },
            keeps_configuration(old(self).shared_spec(), final(self).shared_spec()),
    {
        self.shared.ring.commit_read(read);
    }

    /// One output callback over a buffer of `output_len` samples interleaved
    /// across `channels`: decides what the buffer receives and consumes the
    /// queued samples it plays.
    pub fn plan_output(&mut self, output_len: usize, channels: usize) -> (plan: AudioOutputPlan)
        requires
            old(self).wf(),
        ensures
            final(self).wf(),
            output_plan_matches(
                old(self).shared_spec(),
                final(self).shared_spec(),
                output_len,
                channels,
                plan,
            ),
    {
        self.shared.callback_count = self.shared.callback_count.wrapping_add(1);
        if channels == 0 {
            return AudioOutputPlan::Untouched;
        }
        let frame_count = output_len / channels;
        if !self.shared.active {
            self.shared.primed = false;
            self.shared.ring.apply_discard_floor();
            return AudioOutputPlan::Silence;
        }
        let (read, write) = self.shared.ring.begin_read();
        update_high_water(&mut self.shared, write - read);
        let available = write - read;
        if !self.shared.primed {
            if available < self.shared.target_depth_samples as u64 {
                return AudioOutputPlan::Silence;
            }
            self.shared.primed = true;
        }
        let muted = self.shared.muted;
        let volume_q15 = self.shared.volume_q15;
        let frames_to_copy: usize = if (frame_count as u64) < available {
            frame_count
        } else {
            available as usize
        };
        let ghost queued = self.shared.ring.pending();
        let mut samples: Vec<i16> = Vec::new();
        let mut position = read;
        let mut i: usize = 0;
        while i < frames_to_copy
            invariant
                self.shared.ring.wf(),
                self.shared.ring.pending() == queued,
                self.shared.ring.read_position() == read,
                queued.len() == available,
                frames_to_copy <= available,
                i <= frames_to_copy,
                position == read + i,
                samples@ == queued.take(i as int),
            decreases frames_to_copy - i,
        {
            let sample = self.shared.ring.sample(position);
            samples.push(sample);
            assert(queued.take(i as int + 1) =~= queued.take(i as int).push(queued[i as int]));
            position = position + 1;
            i = i + 1;
        }
        self.shared.ring.commit_read(position);
        self.shared.consumed_samples = self.shared.consumed_samples.wrapping_add(
            frames_to_copy as u64,
        );
        let silence_tail = frames_to_copy < frame_count;
        if silence_tail {
            self.shared.underrun_samples = self.shared.underrun_samples.wrapping_add(
                (frame_count - frames_to_copy) as u64,
            );
            self.shared.primed = false;
        }
        AudioOutputPlan::Frames { samples, muted, volume_q15, silence_tail }
    }
}

/// What every snapshot of a well-formed endpoint shows, whatever calls came
/// before: the queue never exceeds the high-water mark, the high-water mark
/// never exceeds the capacity, and an inactive stream queues nothing. Every
/// operation that takes a well-formed endpoint leaves it well formed.
pub proof fn lemma_audio_telemetry_invariant(endpoint: RealtimeAudioEndpoint)
    requires
        endpoint.wf(),
    ensures
        endpoint.shared_spec().ring_spec().pending().len() <= endpoint.shared_spec().high_water(),
        endpoint.shared_spec().high_water() <= endpoint.shared_spec().ring_spec().capacity_spec(),
        !endpoint.shared_spec().is_active() ==> endpoint.shared_spec().ring_spec().pending().len()
            == 0,
{
}

/// The ring's capacity and the priming target are unchanged; every endpoint
/// operation keeps them.
pub open spec fn keeps_configuration(before: AudioShared, after: AudioShared) -> bool {
    &&& after.ring_spec().capacity_spec() == before.ring_spec().capacity_spec()
    &&& after.target_depth() == before.target_depth()
}

/// The priming depth an endpoint made for `target_depth_samples` uses.
pub open spec fn clamped_target(target_depth_samples: usize) -> int {
    if target_depth_samples < 1 {
        1
    } else if target_depth_samples > AUDIO_RING_CAPACITY_SAMPLES {
        AUDIO_RING_CAPACITY_SAMPLES as int
    } else {
        target_depth_samples as int
    }
}

/// What a snapshot shows after any sequence of calls on an endpoint made by
/// `RealtimeAudioEndpoint::new(target_depth_samples)`: `states` are the
/// endpoint's shared states, from the new endpoint on, each the result of an
/// operation on the one before (all of which keep the endpoint well formed
/// and keep its configuration). The ring keeps its standard capacity and the
/// clamped priming target, the queue never exceeds the capacity or the
/// high-water mark, and an inactive stream queues nothing.
pub proof fn lemma_audio_telemetry_over_calls(states: Seq<AudioShared>, target_depth_samples: usize)
    requires
        states.len() > 0,
        states[0].ring_spec().capacity_spec() == AUDIO_RING_CAPACITY_SAMPLES,
        states[0].target_depth() == clamped_target(target_depth_samples),
        forall|i: int| 0 <= i < states.len() ==> (#[trigger] states[i]).wf(),
        forall|i: int|
            0 <= i < states.len() - 1 ==> keeps_configuration(#[trigger] states[i], states[i + 1]),
    ensures
        ({
            let last = states.last();
            &&& last.ring_spec().capacity_spec() == AUDIO_RING_CAPACITY_SAMPLES
            &&& last.target_depth() == clamped_target(target_depth_samples)
            &&& last.ring_spec().pending().len() <= last.ring_spec().capacity_spec()
            &&& last.ring_spec().pending().len() <= last.high_water()
            &&& !last.is_active() ==> last.ring_spec().pending().len() == 0
        }),
    decreases states.len(),
{
    if states.len() > 1 {
        let prefix = states.drop_last();
        assert forall|i: int| 0 <= i < prefix.len() implies (#[trigger] prefix[i]).wf() by {
            assert(prefix[i] == states[i]);
        }
        assert forall|i: int| 0 <= i < prefix.len() - 1 implies keeps_configuration(
            #[trigger] prefix[i],
            prefix[i + 1],
        ) by {
            assert(prefix[i] == states[i]);
            assert(prefix[i + 1] == states[i + 1]);
        }
        lemma_audio_telemetry_over_calls(prefix, target_depth_samples);
        assert(keeps_configuration(states[states.len() - 2], states[states.len() - 1]));
    }
    let last = states.last();
    assert(last.wf());
    lemma_shared_invariant(last);
}

proof fn lemma_shared_invariant(shared: AudioShared)
    requires
        shared.wf(),
    ensures
        shared.ring_spec().pending().len() <= shared.high_water(),
        shared.high_water() <= shared.ring_spec().capacity_spec(),
        !shared.is_active() ==> shared.ring_spec().pending().len() == 0,
{
}

/// The queue, priming target and stream flags agree.
pub open spec fn same_stream(a: AudioShared, b: AudioShared) -> bool {
    &&& a.ring_spec() == b.ring_spec()
    &&& a.target_depth() == b.target_depth()
    &&& a.is_active() == b.is_active()
    &&& a.is_primed() == b.is_primed()
}

/// All counters agree.
pub open spec fn same_counters(a: AudioShared, b: AudioShared) -> bool {
    &&& a.high_water() == b.high_water()
    &&& a.consumed() == b.consumed()
    &&& a.underruns() == b.underruns()
    &&& a.overflows() == b.overflows()
    &&& a.callbacks() == b.callbacks()
    &&& a.errors() == b.errors()
}

/// Relates the state before and after one output callback to the plan it
/// produced.
pub open spec fn output_plan_matches(
    before: AudioShared,
    after: AudioShared,
    output_len: usize,
    channels: usize,
    plan: AudioOutputPlan,
) -> bool {
    let callbacks = before.callbacks().wrapping_add(1);
    let queued = before.ring_spec().pending();
    let frame_count = if channels == 0 { 0 } else { output_len as int / channels as int };
    let raised = if queued.len() > before.high_water() {
        queued.len() as u64
    } else {
        before.high_water()
    };
    &&& after.callbacks() == callbacks
    &&& after.ring_spec().capacity_spec() == before.ring_spec().capacity_spec()
    &&& after.ring_spec().write_position() == before.ring_spec().write_position()
    &&& after.is_active() == before.is_active()
    &&& after.is_muted() == before.is_muted()
    &&& after.volume() == before.volume()
    &&& after.target_depth() == before.target_depth()
    &&& after.overflows() == before.overflows()
    &&& after.errors() == before.errors()
    &&& if channels == 0 {
        &&& plan == AudioOutputPlan::Untouched
        &&& after.is_primed() == before.is_primed()
        &&& after.ring_spec().pending() == queued
        &&& after.high_water() == before.high_water()
        &&& after.consumed() == before.consumed()
        &&& after.underruns() == before.underruns()
    } else if !before.is_active() {
        &&& plan == AudioOutputPlan::Silence
        &&& !after.is_primed()
        &&& after.ring_spec().pending() == queued
        &&& after.high_water() == before.high_water()
        &&& after.consumed() == before.consumed()
        &&& after.underruns() == before.underruns()
    } else if !before.is_primed() && queued.len() < before.target_depth() {
        &&& plan == AudioOutputPlan::Silence
        &&& !after.is_primed()
        &&& after.ring_spec().pending() == queued
        &&& after.high_water() == raised
        &&& after.consumed() == before.consumed()
        &&& after.underruns() == before.underruns()
    } else {
        let copied = if frame_count < queued.len() { frame_count } else { queued.len() as int };
        &&& plan == AudioOutputPlan::Frames {
            samples: plan->samples,
            muted: before.is_muted(),
            volume_q15: before.volume(),
            silence_tail: copied < frame_count,
        }
        &&& plan->samples@ == queued.take(copied)
        &&& after.ring_spec().pending() == queued.skip(copied)
        &&& after.high_water() == raised
        &&& after.consumed() == before.consumed().wrapping_add(copied as u64)
        &&& after.underruns() == if copied < frame_count {
            before.underruns().wrapping_add((frame_count - copied) as u64)
        } else {
            before.underruns()
        }
        &&& after.is_primed() == !(copied < frame_count)
    }
}

} // verus!
