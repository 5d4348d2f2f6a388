//! Bookkeeping of the software raster path: per-layer timings, pixel clip
//! rectangles, and the least-recently-used cache of visible starfield
//! primitives.

use vstd::prelude::*;

use crate::host::MAX_DURATION_NANOS;

verus! {

/// Overview images are redrawn every this many frames.
pub const DEFAULT_OVERVIEW_CACHE_PERIOD: u64 = 6;

pub const SPACEWARS_STARFIELD_LAYER: i32 = -30;
pub const SPACEWARS_WORLD_LAYER: i32 = -20;
pub const SPACEWARS_SUN_LAYER: i32 = -15;
pub const SPACEWARS_PLANET_LAYER: i32 = -10;
pub const SPACEWARS_SPACEPORT_LAYER: i32 = -5;
pub const SPACEWARS_EXHAUST_LAYER: i32 = -1;
pub const SPACEWARS_SHIP_LAYER: i32 = 0;
pub const SPACEWARS_DEBRIS_LAYER: i32 = 1;
pub const SPACEWARS_LASER_LAYER: i32 = 2;
pub const SPACEWARS_PARTICLE_LAYER: i32 = 3;

/// Starfield visibility lists kept at most.
pub const STARFIELD_CACHE_MAX_ENTRIES: usize = 64;

/// Time spent in each part of drawing a raster image, in nanoseconds.
#[derive(Debug, Clone, Copy, Default, PartialEq, Eq, Structural)]
pub struct RasterTimings {
    pub clear: u128,
    pub player_views: u128,
    pub player_starfield: u128,
    pub player_bodies: u128,
    pub player_world: u128,
    pub player_sun_planets: u128,
    pub player_spaceports: u128,
    pub player_effects: u128,
    pub player_ships: u128,
    pub player_debris: u128,
    pub player_particles: u128,
    pub player_other: u128,
    pub overview_refresh: u128,
    pub overview_blit: u128,
    pub overview_live: u128,
    pub other_frames: u128,
    pub image: u128,
}

/// Every timing is a valid duration.
pub open spec fn timings_bounded(t: RasterTimings) -> bool {
    &&& t.clear <= MAX_DURATION_NANOS
    &&& t.player_views <= MAX_DURATION_NANOS
    &&& t.player_starfield <= MAX_DURATION_NANOS
    &&& t.player_bodies <= MAX_DURATION_NANOS
    &&& t.player_world <= MAX_DURATION_NANOS
    &&& t.player_sun_planets <= MAX_DURATION_NANOS
    &&& t.player_spaceports <= MAX_DURATION_NANOS
    &&& t.player_effects <= MAX_DURATION_NANOS
    &&& t.player_ships <= MAX_DURATION_NANOS
    &&& t.player_debris <= MAX_DURATION_NANOS
    &&& t.player_particles <= MAX_DURATION_NANOS
    &&& t.player_other <= MAX_DURATION_NANOS
    &&& t.overview_refresh <= MAX_DURATION_NANOS
    &&& t.overview_blit <= MAX_DURATION_NANOS
    &&& t.overview_live <= MAX_DURATION_NANOS
    &&& t.other_frames <= MAX_DURATION_NANOS
    &&& t.image <= MAX_DURATION_NANOS
}

/// The timings after drawing player layer `z` took `elapsed`: the starfield,
/// the world, the sun and planets and the spaceports each have a bucket (the
/// last three also count as bodies); exhaust and lasers are effects; ships,
/// debris and particles have their own; anything else is other.
pub open spec fn with_player_layer(t: RasterTimings, z: i32, elapsed: u128) -> RasterTimings {
    if z == SPACEWARS_STARFIELD_LAYER {
        RasterTimings { player_starfield: (t.player_starfield + elapsed) as u128, ..t }
    } else if z == SPACEWARS_WORLD_LAYER {
        RasterTimings {
            player_bodies: (t.player_bodies + elapsed) as u128,
            player_world: (t.player_world + elapsed) as u128,
            ..t
        }
    } else if z == SPACEWARS_SUN_LAYER || z == SPACEWARS_PLANET_LAYER {
        RasterTimings {
            player_bodies: (t.player_bodies + elapsed) as u128,
            player_sun_planets: (t.player_sun_planets + elapsed) as u128,
            ..t
        }
    } else if z == SPACEWARS_SPACEPORT_LAYER {
        RasterTimings {
            player_bodies: (t.player_bodies + elapsed) as u128,
            player_spaceports: (t.player_spaceports + elapsed) as u128,
            ..t
        }
    } else if z == SPACEWARS_EXHAUST_LAYER || z == SPACEWARS_LASER_LAYER {
        RasterTimings { player_effects: (t.player_effects + elapsed) as u128, ..t }
    } else if z == SPACEWARS_SHIP_LAYER {
        RasterTimings { player_ships: (t.player_ships + elapsed) as u128, ..t }
    } else if z == SPACEWARS_DEBRIS_LAYER {
        RasterTimings { player_debris: (t.player_debris + elapsed) as u128, ..t }
    } else if z == SPACEWARS_PARTICLE_LAYER {
        RasterTimings { player_particles: (t.player_particles + elapsed) as u128, ..t }
    } else {
        RasterTimings { player_other: (t.player_other + elapsed) as u128, ..t }
    }
}

/// The timings `a` and `b` added field by field.
pub open spec fn sum_timings(a: RasterTimings, b: RasterTimings) -> RasterTimings {
    RasterTimings {
        clear: (a.clear + b.clear) as u128,
        player_views: (a.player_views + b.player_views) as u128,
        player_starfield: (a.player_starfield + b.player_starfield) as u128,
        player_bodies: (a.player_bodies + b.player_bodies) as u128,
        player_world: (a.player_world + b.player_world) as u128,
        player_sun_planets: (a.player_sun_planets + b.player_sun_planets) as u128,
        player_spaceports: (a.player_spaceports + b.player_spaceports) as u128,
        player_effects: (a.player_effects + b.player_effects) as u128,
        player_ships: (a.player_ships + b.player_ships) as u128,
        player_debris: (a.player_debris + b.player_debris) as u128,
        player_particles: (a.player_particles + b.player_particles) as u128,
        player_other: (a.player_other + b.player_other) as u128,
        overview_refresh: (a.overview_refresh + b.overview_refresh) as u128,
        overview_blit: (a.overview_blit + b.overview_blit) as u128,
        overview_live: (a.overview_live + b.overview_live) as u128,
        other_frames: (a.other_frames + b.other_frames) as u128,
        image: (a.image + b.image) as u128,
    }
}

impl RasterTimings {
    /// Adds `elapsed` to the buckets of player layer `z`.
    pub fn add_player_layer(&mut self, z: i32, elapsed: u128)
        requires
            timings_bounded(*old(self)),
            timings_bounded(with_player_layer(*old(self), z, elapsed)),
            elapsed <= MAX_DURATION_NANOS,
        ensures
            *final(self) == with_player_layer(*old(self), z, elapsed),
    {
        if z == SPACEWARS_STARFIELD_LAYER {
            self.player_starfield = self.player_starfield + elapsed;
        } else if z == SPACEWARS_WORLD_LAYER {
            self.player_bodies = self.player_bodies + elapsed;
            self.player_world = self.player_world + elapsed;
        } else if z == SPACEWARS_SUN_LAYER || z == SPACEWARS_PLANET_LAYER {
            self.player_bodies = self.player_bodies + elapsed;
            self.player_sun_planets = self.player_sun_planets + elapsed;
        } else if z == SPACEWARS_SPACEPORT_LAYER {
            self.player_bodies = self.player_bodies + elapsed;
            self.player_spaceports = self.player_spaceports + elapsed;
        } else if z == SPACEWARS_EXHAUST_LAYER || z == SPACEWARS_LASER_LAYER {
            self.player_effects = self.player_effects + elapsed;
        } else if z == SPACEWARS_SHIP_LAYER {
            self.player_ships = self.player_ships + elapsed;
        } else if z == SPACEWARS_DEBRIS_LAYER {
            self.player_debris = self.player_debris + elapsed;
        } else if z == SPACEWARS_PARTICLE_LAYER {
            self.player_particles = self.player_particles + elapsed;
        } else {
            self.player_other = self.player_other + elapsed;
        }
    }

    /// Adds `rhs` field by field.
    pub fn add_assign(&mut self, rhs: RasterTimings)
        requires
            timings_bounded(*old(self)),
            timings_bounded(rhs),
            timings_bounded(sum_timings(*old(self), rhs)),
        ensures
            *final(self) == sum_timings(*old(self), rhs),
    {
        self.clear = self.clear + rhs.clear;
        self.player_views = self.player_views + rhs.player_views;
        self.player_starfield = self.player_starfield + rhs.player_starfield;
        self.player_bodies = self.player_bodies + rhs.player_bodies;
        self.player_world = self.player_world + rhs.player_world;
        self.player_sun_planets = self.player_sun_planets + rhs.player_sun_planets;
        self.player_spaceports = self.player_spaceports + rhs.player_spaceports;
        self.player_effects = self.player_effects + rhs.player_effects;
        self.player_ships = self.player_ships + rhs.player_ships;
        self.player_debris = self.player_debris + rhs.player_debris;
        self.player_particles = self.player_particles + rhs.player_particles;
        self.player_other = self.player_other + rhs.player_other;
        self.overview_refresh = self.overview_refresh + rhs.overview_refresh;
        self.overview_blit = self.overview_blit + rhs.overview_blit;
        self.overview_live = self.overview_live + rhs.overview_live;
        self.other_frames = self.other_frames + rhs.other_frames;
        self.image = self.image + rhs.image;
    }
}

/// Every player layer adds its time to exactly one of the disjoint layer
/// buckets, so the body buckets never count more than the bodies total.
pub proof fn lemma_bodies_cover_their_parts(t: RasterTimings, z: i32, elapsed: u128)
    requires
        t.player_world as int + t.player_sun_planets as int + t.player_spaceports as int
            == t.player_bodies as int,
        timings_bounded(with_player_layer(t, z, elapsed)),
        t.player_bodies as int + elapsed <= MAX_DURATION_NANOS,
    ensures
        ({
            let u = with_player_layer(t, z, elapsed);
            u.player_world as int + u.player_sun_planets as int + u.player_spaceports as int
                == u.player_bodies as int
        }),
{
}

/// An inclusive rectangle of pixels.
#[derive(Debug, Clone, Copy, PartialEq, Eq, Structural)]
pub struct PixelClip {
    pub min_x: i32,
    pub max_x: i32,
    pub min_y: i32,
    pub max_y: i32,
}

/// A `u32` size read as `i32`, wrapping as `as` does.
pub open spec fn as_i32(value: u32) -> int {
    if value <= i32::MAX {
        value as int
    } else {
        value as int - 0x1_0000_0000
    }
}

/// The rectangle from `min_x..=max_x` by `min_y..=max_y` clipped to a
/// `width` by `height` image; `None` when nothing is left.
pub open spec fn clipped(width: u32, height: u32, min_x: i32, max_x: i32, min_y: i32, max_y: i32) -> Option<PixelClip> {
    let lo_x = if min_x < 0 { 0 } else { min_x as int };
    let lo_y = if min_y < 0 { 0 } else { min_y as int };
    let hi_x = if max_x < as_i32(width) - 1 { max_x as int } else { as_i32(width) - 1 };
    let hi_y = if max_y < as_i32(height) - 1 { max_y as int } else { as_i32(height) - 1 };
    if lo_x > hi_x || lo_y > hi_y {
        None
    } else {
        Some(PixelClip { min_x: lo_x as i32, max_x: hi_x as i32, min_y: lo_y as i32, max_y: hi_y as i32 })
    }
}

impl PixelClip {
    /// Clips a rectangle of pixels to the image.
    pub fn new(width: u32, height: u32, min_x: i32, max_x: i32, min_y: i32, max_y: i32) -> (clip: Option<Self>)
        requires
            width != 0x8000_0000,
            height != 0x8000_0000,
        ensures
            clip == clipped(width, height, min_x, max_x, min_y, max_y),
    {
        let w: i64 = if width <= 0x7fff_ffff { width as i64 } else { width as i64 - 0x1_0000_0000 };
        let h: i64 = if height <= 0x7fff_ffff { height as i64 } else { height as i64 - 0x1_0000_0000 };
        let lo_x: i64 = if min_x < 0 { 0 } else { min_x as i64 };
        let lo_y: i64 = if min_y < 0 { 0 } else { min_y as i64 };
        let hi_x: i64 = if (max_x as i64) < w - 1 { max_x as i64 } else { w - 1 };
        let hi_y: i64 = if (max_y as i64) < h - 1 { max_y as i64 } else { h - 1 };
        if lo_x > hi_x || lo_y > hi_y {
            None
        } else {
            Some(PixelClip { min_x: lo_x as i32, max_x: hi_x as i32, min_y: lo_y as i32, max_y: hi_y as i32 })
        }
    }
}

/// What identifies a starfield view: the camera's cell and height, the
/// viewport size, and the primitive list's length and end points.
#[derive(Debug, Clone, Copy, PartialEq, Eq, Structural)]
pub struct StarfieldCacheKey {
    pub center_x_cell: i32,
    pub center_y_cell: i32,
    pub viewport_width: u32,
    pub viewport_height: u32,
    pub camera_height_milli: u32,
    pub primitive_count: usize,
    pub first_x_bits: u32,
    pub first_y_bits: u32,
    pub last_x_bits: u32,
    pub last_y_bits: u32,
}

/// A cached list of visible primitive indices.
pub struct StarfieldVisibilityEntry {
    pub key: StarfieldCacheKey,
    pub last_used: u64,
    pub indices: Vec<usize>,
}

/// Visible-primitive lists for recent starfield views, at most
/// `STARFIELD_CACHE_MAX_ENTRIES` of them, the least recently used evicted
/// first.
pub struct StarfieldVisibilityCache {
    entries: Vec<StarfieldVisibilityEntry>,
}

/// A ghost copy of an entry.
pub ghost struct EntryView {
    pub key: StarfieldCacheKey,
    pub last_used: u64,
    pub indices: Seq<usize>,
}

/// The ghost copy of an entry.
pub open spec fn entry_view(entry: StarfieldVisibilityEntry) -> EntryView {
    EntryView { key: entry.key, last_used: entry.last_used, indices: entry.indices@ }
}

/// Index of the entry used longest ago, the first of several.
pub open spec fn is_oldest(entries: Seq<EntryView>, i: int) -> bool {
    &&& 0 <= i < entries.len()
    &&& forall|k: int| 0 <= k < entries.len() ==> entries[i].last_used <= #[trigger] entries[k].last_used
    &&& forall|k: int| 0 <= k < i ==> entries[i].last_used < #[trigger] entries[k].last_used
}

/// `entries` with entry `i` replaced by the last one (`Vec::swap_remove`).
pub open spec fn swap_removed<T>(entries: Seq<T>, i: int) -> Seq<T> {
    if i == entries.len() - 1 {
        entries.drop_last()
    } else {
        entries.update(i, entries.last()).drop_last()
    }
}

impl View for StarfieldVisibilityCache {
    type V = Seq<EntryView>;

    closed spec fn view(&self) -> Seq<EntryView> {
        self.entries@.map_values(|e: StarfieldVisibilityEntry| entry_view(e))
    }
}

impl StarfieldVisibilityCache {
    /// An empty cache.
    pub fn new() -> (cache: Self)
        ensures
            cache@.len() == 0,
    {
        StarfieldVisibilityCache { entries: Vec::new() }
    }

    /// Forgets every list.
    pub fn clear(&mut self)
        ensures
            final(self)@.len() == 0,
    {
        self.entries.clear();
    }

    /// Looks up the list for `key`, marking it used in `frame_index`.
    pub fn lookup(&mut self, key: StarfieldCacheKey, frame_index: u64) -> (found: Option<usize>)
        ensures
            match found {
                Some(i) => {
                    &&& i < old(self)@.len()
                    &&& old(self)@[i as int].key == key
                    &&& forall|k: int| 0 <= k < i ==> (#[trigger] old(self)@[k]).key != key
                    &&& final(self)@ == old(self)@.update(i as int, EntryView { last_used: frame_index, ..old(self)@[i as int] })
                },
                None => {
                    &&& forall|k: int| 0 <= k < old(self)@.len() ==> (#[trigger] old(self)@[k]).key != key
                    &&& final(self)@ == old(self)@
                },
            },
    {
        let mut i: usize = 0;
        while i < self.entries.len()
            invariant
                i <= self.entries@.len(),
                self@ == old(self)@,
                forall|k: int| 0 <= k < i ==> (#[trigger] self.entries@[k]).key != key,
            decreases self.entries@.len() - i,
        {
            if self.entries[i].key == key {
                let mut entry = self.entries.remove(i);
                entry.last_used = frame_index;
                self.entries.insert(i, entry);
                proof {
                    assert(self@ =~= old(self)@.update(i as int, EntryView { last_used: frame_index, ..old(self)@[i as int] }));
                }
                return Some(i);
            }
            i = i + 1;
        }
        None
    }

    /// The list at position `i`.
    pub fn indices(&self, i: usize) -> (indices: &[usize])
        requires
            i < self@.len(),
        ensures
            indices@ == self@[i as int].indices,
    {
        self.entries[i].indices.as_slice()
    }

    /// Position of the least recently used list, the first of several.
    fn oldest(&self) -> (i: usize)
        requires
            self@.len() > 0,
        ensures
            is_oldest(self@, i as int),
    {
        let mut best: usize = 0;
        let mut k: usize = 1;
        while k < self.entries.len()
            invariant
                self@.len() == self.entries@.len(),
                1 <= k <= self.entries@.len(),
                best < k,
                forall|j: int| 0 <= j < k ==> self@[best as int].last_used <= #[trigger] self@[j].last_used,
                forall|j: int| 0 <= j < best ==> self@[best as int].last_used < #[trigger] self@[j].last_used,
            decreases self.entries@.len() - k,
        {
            if self.entries[k].last_used < self.entries[best].last_used {
                best = k;
            }
            k = k + 1;
        }
        best
    }

    /// Stores the list for `key`, used in `frame_index`, after evicting the
    /// least recently used list when the cache is full. Returns the new
    /// list's position, which is the last.
    pub fn insert(&mut self, key: StarfieldCacheKey, frame_index: u64, indices: Vec<usize>) -> (position: usize)
        requires
            old(self)@.len() <= STARFIELD_CACHE_MAX_ENTRIES,
        ensures
            final(self)@.len() <= STARFIELD_CACHE_MAX_ENTRIES,
            position == final(self)@.len() - 1,
            ({
                let added = EntryView { key, last_used: frame_index, indices: indices@ };
                if old(self)@.len() >= STARFIELD_CACHE_MAX_ENTRIES {
                    exists|i: int| is_oldest(old(self)@, i) && final(self)@ == swap_removed(old(self)@, i).push(added)
                } else {
                    final(self)@ == old(self)@.push(added)
                }
            }),
    {
        let ghost added = EntryView { key, last_used: frame_index, indices: indices@ };
        if self.entries.len() >= STARFIELD_CACHE_MAX_ENTRIES {
            let oldest = self.oldest();
            let ghost before = self@;
            self.entries.swap_remove(oldest);
            proof {
                assert(self@ =~= swap_removed(before, oldest as int));
            }
        }
        let ghost kept = self@;
        self.entries.push(StarfieldVisibilityEntry { key, last_used: frame_index, indices });
        assert(self@ =~= kept.push(added));
        self.entries.len() - 1
    }
}

/// One pixel with eight bits per channel and alpha.
#[derive(Debug, Clone, Copy, PartialEq, Eq, Structural)]
pub struct Rgba8 {
    pub r: u8,
    pub g: u8,
    pub b: u8,
    pub a: u8,
}

/// Pixel (`col`, `row`) of a `width` by `height` image lies under a
/// `source_width` by `source_height` image placed with its corner at
/// (`x`, `y`).
pub open spec fn blit_covers(
    width: u32,
    height: u32,
    source_width: u32,
    source_height: u32,
    x: i32,
    y: i32,
    col: int,
    row: int,
) -> bool {
    &&& 0 <= col < width
    &&& 0 <= row < height
    &&& x <= col < x + source_width
    &&& y <= row < y + source_height
}

/// The pixel at index `i` of a `width`-wide image after the blit: the source
/// pixel over it where the source covers it, else the pixel before.
pub open spec fn blitted_pixel(
    before: Seq<Rgba8>,
    width: u32,
    height: u32,
    source: Seq<Rgba8>,
    source_width: u32,
    source_height: u32,
    x: i32,
    y: i32,
    i: int,
) -> Rgba8 {
    let col = i % width as int;
    let row = i / width as int;
    if blit_covers(width, height, source_width, source_height, x, y, col, row) {
        source[(row - y) * source_width + (col - x)]
    } else {
        before[i]
    }
}

proof fn lemma_row_col(i: int, w: int, row: int, col: int)
    requires
        w > 0,
        0 <= col < w,
        i == row * w + col,
    ensures
        i / w == row,
        i % w == col,
{
    vstd::arithmetic::div_mod::lemma_fundamental_div_mod_converse(i, w, row, col);
}

/// Copies a `source_width` by `source_height` image into the `width` by
/// `height` image `pixels` with its corner at (`x`, `y`); what falls outside
/// is cut off.
pub fn blit(
    pixels: &mut Vec<Rgba8>,
    width: u32,
    height: u32,
    source: &[Rgba8],
    source_width: u32,
    source_height: u32,
    x: i32,
    y: i32,
)
    requires
        old(pixels)@.len() == width as int * height as int,
        source@.len() == source_width as int * source_height as int,
        width as int * height as int <= u32::MAX,
        source_width as int * source_height as int <= u32::MAX,
    ensures
        final(pixels)@.len() == old(pixels)@.len(),
        forall|i: int|
            0 <= i < old(pixels)@.len() ==> #[trigger] final(pixels)@[i] == if x >= as_i32(width) || y
                >= as_i32(height) {
                old(pixels)@[i]
            } else {
                blitted_pixel(old(pixels)@, width, height, source@, source_width, source_height, x, y, i)
            },
{
    let ghost before = pixels@;
    let ghost w = width as int;
    let wrapped_width: i64 = if width <= 0x7fff_ffff { width as i64 } else { width as i64 - 0x1_0000_0000 };
    let wrapped_height: i64 = if height <= 0x7fff_ffff { height as i64 } else { height as i64 - 0x1_0000_0000 };
    if x as i64 >= wrapped_width || y as i64 >= wrapped_height {
        return;
    }
    let start_x: i64 = if x > 0 { x as i64 } else { 0 };
    let start_y: i64 = if y > 0 { y as i64 } else { 0 };
    let source_x: i64 = start_x - x as i64;
    let source_y: i64 = start_y - y as i64;
    let copy_width: i64 = {
        let a: i64 = if (source_width as i64) > source_x { source_width as i64 - source_x } else { 0 };
        let b: i64 = if (width as i64) > start_x { width as i64 - start_x } else { 0 };
        if a < b { a } else { b }
    };
    let copy_height: i64 = {
        let a: i64 = if (source_height as i64) > source_y { source_height as i64 - source_y } else { 0 };
        let b: i64 = if (height as i64) > start_y { height as i64 - start_y } else { 0 };
        if a < b { a } else { b }
    };
    let ghost sx = start_x as int;
    let ghost sy = start_y as int;
    let mut row: i64 = 0;
    while row < copy_height
        invariant
            0 <= row <= copy_height,
            pixels@.len() == before.len(),
            before.len() == width as int * height as int,
            source@.len() == source_width as int * source_height as int,
            width as int * height as int <= u32::MAX,
            source_width as int * source_height as int <= u32::MAX,
            w == width as int,
            sx == start_x,
            sy == start_y,
            start_x == if x > 0 { x as int } else { 0 },
            start_y == if y > 0 { y as int } else { 0 },
            source_x == start_x - x,
            source_y == start_y - y,
            copy_width >= 0,
            copy_height >= 0,
            start_x + copy_width <= width,
            start_y + copy_height <= height,
            copy_width > 0 ==> source_x + copy_width <= source_width,
            copy_height > 0 ==> source_y + copy_height <= source_height,
            x < as_i32(width),
            y < as_i32(height),
            copy_width > 0 ==> start_x + copy_width == if x + source_width < width { x + source_width } else { width as int },
            copy_height > 0 ==> start_y + copy_height == if y + source_height < height { y + source_height } else { height as int },
            forall|i: int|
                0 <= i < before.len() ==> #[trigger] pixels@[i] == if sx <= i % w < sx + copy_width && sy
                    <= i / w < sy + row {
                    source@[(i / w - y) * source_width + (i % w - x)]
                } else {
                    before[i]
                },
        decreases copy_height - row,
    {
        let mut col: i64 = 0;
        while col < copy_width
            invariant
                0 <= row < copy_height,
                0 <= col <= copy_width,
                pixels@.len() == before.len(),
                before.len() == width as int * height as int,
                source@.len() == source_width as int * source_height as int,
                width as int * height as int <= u32::MAX,
                source_width as int * source_height as int <= u32::MAX,
                w == width as int,
                sx == start_x,
                sy == start_y,
                start_x >= 0,
                start_y >= 0,
                source_x == start_x - x,
                source_y == start_y - y,
                source_x >= 0,
                source_y >= 0,
                start_x + copy_width <= width,
                start_y + copy_height <= height,
                copy_width > 0 ==> source_x + copy_width <= source_width,
                source_y + copy_height <= source_height,
                forall|i: int|
                    0 <= i < before.len() ==> #[trigger] pixels@[i] == if sx <= i % w < sx + copy_width
                        && (sy <= i / w < sy + row || (i / w == sy + row && i % w < sx + col)) {
                        source@[(i / w - y) * source_width + (i % w - x)]
                    } else {
                        before[i]
                    },
            decreases copy_width - col,
        {
            let r: i64 = start_y + row;
            let c: i64 = start_x + col;
            let sr: i64 = source_y + row;
            let sc: i64 = source_x + col;
            assert(r * w + c < w * height) by (nonlinear_arith)
                requires
                    0 <= r < height,
                    0 <= c < w,
            ;
            assert(sr * source_width + sc < source_width * source_height) by (nonlinear_arith)
                requires
                    0 <= sr < source_height,
                    0 <= sc < source_width,
            ;
            assert(0 <= r * w + c) by (nonlinear_arith)
                requires
                    0 <= r,
                    0 <= c,
                    w >= 0,
            ;
            assert(0 <= sr * source_width + sc) by (nonlinear_arith)
                requires
                    0 <= sr,
                    0 <= sc,
            ;
            let dst: usize = (r * (width as i64) + c) as usize;
            let src: usize = (sr * (source_width as i64) + sc) as usize;
            let value = source[src];
            proof {
                lemma_row_col(dst as int, w, r as int, c as int);
                assert(src as int == (r - y) * source_width + (c - x));
            }
            let ghost prev = pixels@;
            pixels.set(dst, value);
            proof {
                assert forall|i: int| 0 <= i < before.len() implies #[trigger] pixels@[i] == if sx <= i % w
                    < sx + copy_width && (sy <= i / w < sy + row || (i / w == sy + row && i % w < sx + col
                    + 1)) {
                    source@[(i / w - y) * source_width + (i % w - x)]
                } else {
                    before[i]
                } by {
                    if i != dst as int {
                        assert(pixels@[i] == prev[i]);
                        vstd::arithmetic::div_mod::lemma_fundamental_div_mod(i, w);
                        if i / w == sy + row && i % w == sx + col {
                            assert(i == (sy + row) * w + (sx + col)) by (nonlinear_arith)
                                requires
                                    i == w * (i / w) + i % w,
                                    i / w == sy + row,
                                    i % w == sx + col,
                            ;
                        }
                    }
                }
            }
            col = col + 1;
        }
        row = row + 1;
    }
    proof {
        assert forall|i: int| 0 <= i < before.len() implies #[trigger] pixels@[i] == blitted_pixel(
            before,
            width,
            height,
            source@,
            source_width,
            source_height,
            x,
            y,
            i,
        ) by {
            vstd::arithmetic::div_mod::lemma_fundamental_div_mod(i, w);
            assert(w > 0) by (nonlinear_arith)
                requires
                    0 <= i < w * height,
                    w >= 0,
                    height >= 0,
            ;
            assert(0 <= i % w < w);
            assert(0 <= i / w < height) by (nonlinear_arith)
                requires
                    0 <= i < w * height,
                    i == w * (i / w) + i % w,
                    0 <= i % w < w,
                    w > 0,
            ;
        }
    }
}

} // verus!
