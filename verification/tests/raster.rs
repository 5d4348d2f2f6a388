use engine_client::raster::{
    blit, PixelClip, Rgba8, RasterTimings, StarfieldCacheKey, StarfieldVisibilityCache, SPACEWARS_DEBRIS_LAYER,
    SPACEWARS_EXHAUST_LAYER, SPACEWARS_LASER_LAYER, SPACEWARS_PARTICLE_LAYER,
    SPACEWARS_PLANET_LAYER, SPACEWARS_SHIP_LAYER, SPACEWARS_SPACEPORT_LAYER,
    SPACEWARS_STARFIELD_LAYER, SPACEWARS_SUN_LAYER, SPACEWARS_WORLD_LAYER,
    STARFIELD_CACHE_MAX_ENTRIES,
};

fn key(cell: i32) -> StarfieldCacheKey {
    StarfieldCacheKey {
        center_x_cell: cell,
        center_y_cell: -cell,
        viewport_width: 640,
        viewport_height: 480,
        camera_height_milli: 1_500,
        primitive_count: 10,
        first_x_bits: 1,
        first_y_bits: 2,
        last_x_bits: 3,
        last_y_bits: 4,
    }
}

#[test]
fn player_layers_land_in_their_buckets() {
    let mut timings = RasterTimings::default();
    timings.add_player_layer(SPACEWARS_STARFIELD_LAYER, 1);
    timings.add_player_layer(SPACEWARS_WORLD_LAYER, 2);
    timings.add_player_layer(SPACEWARS_SUN_LAYER, 4);
    timings.add_player_layer(SPACEWARS_PLANET_LAYER, 8);
    timings.add_player_layer(SPACEWARS_SPACEPORT_LAYER, 16);
    timings.add_player_layer(SPACEWARS_EXHAUST_LAYER, 32);
    timings.add_player_layer(SPACEWARS_LASER_LAYER, 64);
    timings.add_player_layer(SPACEWARS_SHIP_LAYER, 128);
    timings.add_player_layer(SPACEWARS_DEBRIS_LAYER, 256);
    timings.add_player_layer(SPACEWARS_PARTICLE_LAYER, 512);
    timings.add_player_layer(99, 1024);

    assert_eq!(timings.player_starfield, 1);
    assert_eq!(timings.player_world, 2);
    assert_eq!(timings.player_sun_planets, 12);
    assert_eq!(timings.player_spaceports, 16);
    assert_eq!(timings.player_bodies, 2 + 12 + 16);
    assert_eq!(timings.player_effects, 96);
    assert_eq!(timings.player_ships, 128);
    assert_eq!(timings.player_debris, 256);
    assert_eq!(timings.player_particles, 512);
    assert_eq!(timings.player_other, 1024);
    assert_eq!(timings.clear, 0);
}

#[test]
fn timings_add_field_by_field() {
    let mut total = RasterTimings { clear: 5, image: 7, ..RasterTimings::default() };
    total.add_assign(RasterTimings { clear: 1, overview_blit: 3, image: 2, ..RasterTimings::default() });
    assert_eq!(
        total,
        RasterTimings { clear: 6, overview_blit: 3, image: 9, ..RasterTimings::default() }
    );
}

#[test]
fn large_rectangles_are_clipped_to_the_image() {
    assert_eq!(
        PixelClip::new(100, 50, -20, 300, 10, 20),
        Some(PixelClip { min_x: 0, max_x: 99, min_y: 10, max_y: 20 })
    );
    assert_eq!(PixelClip::new(100, 50, 120, 300, 10, 20), None);
    assert_eq!(PixelClip::new(100, 50, 10, 20, -9, -1), None);
    assert_eq!(PixelClip::new(0, 50, 0, 0, 0, 0), None);
}

#[test]
fn starfield_visibility_cache_reuses_quantized_camera_entry() {
    let mut cache = StarfieldVisibilityCache::new();
    assert_eq!(cache.lookup(key(1), 0), None);
    let position = cache.insert(key(1), 0, vec![3, 5, 8]);
    assert_eq!(position, 0);
    let found = cache.lookup(key(1), 1).unwrap();
    assert_eq!(cache.indices(found), &[3, 5, 8]);
    assert_eq!(cache.lookup(key(2), 1), None);
    cache.clear();
    assert_eq!(cache.lookup(key(1), 2), None);
}

#[test]
fn a_full_cache_evicts_the_least_recently_used_view() {
    let mut cache = StarfieldVisibilityCache::new();
    for cell in 0..STARFIELD_CACHE_MAX_ENTRIES as i32 {
        cache.insert(key(cell), cell as u64, vec![cell as usize]);
    }
    // View 0 is used again, so view 1 is now the oldest.
    assert!(cache.lookup(key(0), 100).is_some());
    let position = cache.insert(key(1_000), 101, vec![1_000]);
    assert_eq!(position, STARFIELD_CACHE_MAX_ENTRIES - 1);
    assert_eq!(cache.lookup(key(1), 102), None);
    let kept = cache.lookup(key(0), 102).unwrap();
    assert_eq!(cache.indices(kept), &[0]);
    let added = cache.lookup(key(1_000), 102).unwrap();
    assert_eq!(cache.indices(added), &[1_000]);
}

fn shade(v: u8) -> Rgba8 {
    Rgba8 { r: v, g: v, b: v, a: 255 }
}

#[test]
fn blits_copy_the_overlap_and_cut_the_rest() {
    let background = shade(0);
    let source: Vec<Rgba8> = (1..=4).map(shade).collect();
    // A 2x2 source at (2, 1) on a 3x3 image: only its left column fits.
    let mut pixels = vec![background; 9];
    blit(&mut pixels, 3, 3, &source, 2, 2, 2, 1);
    let expected = vec![
        background, background, background,
        background, background, shade(1),
        background, background, shade(3),
    ];
    assert_eq!(pixels, expected);

    // Placed above and to the left, only its lower right pixel shows.
    let mut pixels = vec![background; 9];
    blit(&mut pixels, 3, 3, &source, 2, 2, -1, -1);
    assert_eq!(pixels[0], shade(4));
    assert!(pixels[1..].iter().all(|p| *p == background));

    // Entirely to the right: nothing changes.
    let mut pixels = vec![background; 9];
    blit(&mut pixels, 3, 3, &source, 2, 2, 3, 0);
    assert!(pixels.iter().all(|p| *p == background));
}
