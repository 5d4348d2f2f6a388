use engine_client::roms::{
    check_size, check_unchanged, deduplicate, display_name, display_name_for_path, fallback_id,
    fnv1a64, has_nes_extension, inspected_entry, is_nes_extension, library_paths, order_by_name,
    CartridgeMetadata,
    Inspection, NesRomCatalog, NesRomCatalogEntry, NesRomCompatibility, NesRomLoadError,
    RomDigest, MAX_ROM_BYTES,
};

fn supported(mapper: u16) -> NesRomCompatibility {
    NesRomCompatibility::Supported(CartridgeMetadata {
        mapper,
        prg_rom_len: 32 * 1024,
        chr_rom_len: 8 * 1024,
        chr_is_ram: false,
    })
}

fn entry(path: &str, bytes: &[u8], compatibility: NesRomCompatibility) -> NesRomCatalogEntry {
    inspected_entry(
        path.to_string(),
        Inspection::Read {
            digest: RomDigest::from_bytes(bytes),
            byte_len: bytes.len() as u64,
            compatibility,
        },
    )
}

#[test]
fn digest_hex_is_sha256_in_lower_case() {
    let digest = RomDigest::from_bytes(b"abc");
    assert_eq!(
        digest.as_hex(),
        "ba7816bf8f01cfea414140de5dae2223b00361a396177a9cb410ff61f20015ad"
    );
    assert_eq!(RomDigest::from_array([0xab; 32]).as_hex(), "ab".repeat(32));
    assert!(digest.same(&RomDigest::from_bytes(b"abc")));
    assert!(!digest.same(&RomDigest::from_bytes(b"abd")));
}

#[test]
fn fallback_ids_hash_the_sort_key() {
    assert_eq!(fnv1a64(b""), 0xcbf2_9ce4_8422_2325);
    assert_eq!(fnv1a64(b"a"), 0xaf63_dc4c_8601_ec8c);
    assert_eq!(fallback_id("a"), "path-af63dc4c8601ec8c");
    assert_eq!(fallback_id(""), "path-cbf29ce484222325");
}

#[test]
fn cartridge_files_are_named_by_extension_in_any_case() {
    assert!(is_nes_extension("nes"));
    assert!(is_nes_extension("NES"));
    assert!(!is_nes_extension("nez"));
    assert!(has_nes_extension("/roms/alpha.NES"));
    assert!(!has_nes_extension("/roms/notes.txt"));
    assert!(!has_nes_extension("/roms/nes"));
}

#[test]
fn display_names_fall_back_when_blank() {
    assert_eq!(display_name_for_path("/roms/Zebra.nes"), "Zebra");
    assert_eq!(display_name(Some("  ".into()), Some("x".into())), "Unnamed cartridge");
    assert_eq!(display_name(None, Some("file".into())), "file");
    assert_eq!(display_name(None, None), "Unnamed cartridge");
}

#[test]
fn summaries_describe_each_verdict() {
    assert_eq!(supported(2).summary(), "Mapper 2 · 32 KiB PRG · 8 KiB CHR");
    assert_eq!(
        NesRomCompatibility::Supported(CartridgeMetadata {
            mapper: 1,
            prg_rom_len: 128 * 1024,
            chr_rom_len: 0,
            chr_is_ram: true,
        })
        .summary(),
        "Mapper 1 · 128 KiB PRG · CHR RAM"
    );
    assert_eq!(
        NesRomCompatibility::Rejected("unsupported mapper 5".into()).summary(),
        "unsupported mapper 5"
    );
    assert_eq!(
        NesRomCompatibility::Unreadable("denied".into()).summary(),
        "Could not read cartridge: denied"
    );
    assert_eq!(
        NesRomCompatibility::TooLarge { actual: 20_000_000, maximum: MAX_ROM_BYTES }.summary(),
        "Cartridge is 20000000 bytes; the library limit is 16777216 bytes"
    );
}

#[test]
fn identical_cartridges_keep_the_first_file() {
    let first = entry("/roms/first.nes", b"same", supported(0));
    let second = entry("/roms/second.nes", b"same", supported(0));
    let other = entry("/roms/other.nes", b"other", supported(0));
    let unreadable = inspected_entry("/roms/broken.nes".into(), Inspection::Failed("denied".into()));
    let kept = deduplicate(vec![first.clone(), second, unreadable.clone(), other.clone(), unreadable.clone()]);
    assert_eq!(kept, vec![first, unreadable.clone(), other, unreadable]);
}

#[test]
fn lookups_and_launch_checks() {
    let mut catalog = NesRomCatalog::new("/config");
    assert_eq!(catalog.directory(), "/config/roms");
    assert!(catalog.entries().is_empty());
    assert_eq!(catalog.first_supported_id(), None);

    let rejected = entry("/config/roms/bad.nes", b"bad", NesRomCompatibility::Rejected("unsupported mapper 5".into()));
    let good = entry("/config/roms/good.nes", b"good", supported(0));
    catalog.replace_entries(vec![rejected.clone(), good.clone()]);
    assert_eq!(catalog.first_supported_id(), Some(good.id.clone()));
    assert_eq!(catalog.entry(&good.id), Some(&good));
    assert_eq!(catalog.entry("missing"), None);

    assert_eq!(catalog.launchable(&good.id), Ok(&good));
    assert_eq!(
        catalog.launchable("missing"),
        Err(NesRomLoadError::NotFound { id: "missing".into() })
    );
    assert_eq!(
        catalog.launchable(&rejected.id),
        Err(NesRomLoadError::Unavailable { name: "bad".into(), detail: "unsupported mapper 5".into() })
    );
    assert_eq!(
        NesRomLoadError::NotFound { id: "missing".into() }.message(),
        "ROM \"missing\" is no longer in the library"
    );
}

#[test]
fn loading_rejects_a_cartridge_changed_since_scan() {
    let scanned = entry("/roms/changing.nes", b"before", supported(0));
    assert_eq!(check_unchanged(&scanned, &RomDigest::from_bytes(b"before")), Ok(()));
    assert_eq!(
        check_unchanged(&scanned, &RomDigest::from_bytes(b"after")),
        Err(NesRomLoadError::Changed { path: "/roms/changing.nes".into() })
    );
    assert_eq!(
        NesRomLoadError::Changed { path: "/roms/changing.nes".into() }.message(),
        "ROM /roms/changing.nes changed after the library was scanned; reopen the launcher"
    );
}

#[test]
fn oversized_and_unreadable_files_get_fallback_entries() {
    assert_eq!(check_size("/r.nes", MAX_ROM_BYTES), Ok(()));
    assert_eq!(
        check_size("/r.nes", MAX_ROM_BYTES + 1),
        Err(NesRomLoadError::TooLarge { path: "/r.nes".into(), maximum: MAX_ROM_BYTES })
    );
    let big = inspected_entry("/R/Big.nes".into(), Inspection::TooLarge { actual: 20_000_000 });
    assert_eq!(big.id, fallback_id("/r/big.nes"));
    assert_eq!(big.display_name, "Big");
    assert_eq!(big.byte_len, 20_000_000);
    assert!(!big.is_supported());
    assert_eq!(big.digest, None);
    let read = entry("/r/ok.nes", b"rom", supported(4));
    assert_eq!(read.id, RomDigest::from_bytes(b"rom").as_hex());
    assert!(read.is_supported());
}

#[test]
fn catalog_discovers_supported_roms_in_stable_name_order() {
    let files = vec![
        "/config/roms/Zebra.nes".to_string(),
        "/config/roms/notes.txt".to_string(),
        "/config/roms/alpha.NES".to_string(),
    ];
    let paths = library_paths(files);
    assert_eq!(paths, vec!["/config/roms/alpha.NES", "/config/roms/Zebra.nes"]);

    let inspected: Vec<NesRomCatalogEntry> = paths
        .iter()
        .map(|path| entry(path, path.as_bytes(), supported(0)))
        .collect();
    let mut catalog = NesRomCatalog::new("/config");
    catalog.replace_entries(inspected.into_iter().rev().collect());

    assert_eq!(catalog.entries().len(), 2);
    assert_eq!(catalog.entries()[0].display_name, "alpha");
    assert_eq!(catalog.entries()[1].display_name, "Zebra");
    assert!(catalog.entries().iter().all(NesRomCatalogEntry::is_supported));
    assert!(catalog.first_supported_id().is_some());
}

#[test]
fn equal_names_are_listed_by_path() {
    let b = entry("/roms/b/Game.nes", b"b", supported(0));
    let a = entry("/roms/a/game.nes", b"a", supported(0));
    let c = entry("/roms/c/Other.nes", b"c", supported(0));
    let ordered = order_by_name(vec![c.clone(), b.clone(), a.clone()]);
    assert_eq!(ordered, vec![a.clone(), b.clone(), c.clone()]);
    // The listing depends only on the entries, not on the order they came in.
    assert_eq!(order_by_name(vec![b.clone(), a.clone(), c.clone()]), ordered);

    // Paths that differ only in case are visited in character order.
    let paths = library_paths(vec!["/r/b.nes".to_string(), "/r/B.nes".to_string(), "/r/a.nes".to_string()]);
    assert_eq!(paths, vec!["/r/a.nes", "/r/B.nes", "/r/b.nes"]);
}

#[test]
fn a_refresh_keeps_one_file_per_content_listed_by_name() {
    let files = vec![
        "/config/roms/Zebra.nes".to_string(),
        "/config/roms/notes.txt".to_string(),
        "/config/roms/alpha.NES".to_string(),
        "/config/roms/copy.nes".to_string(),
    ];
    let visited: Vec<(String, Inspection)> = library_paths(files)
        .into_iter()
        .map(|path| {
            let bytes: &[u8] = if path.ends_with("Zebra.nes") { b"zebra" } else { b"alpha" };
            let inspection = Inspection::Read {
                digest: RomDigest::from_bytes(bytes),
                byte_len: bytes.len() as u64,
                compatibility: supported(0),
            };
            (path, inspection)
        })
        .collect();
    let mut catalog = NesRomCatalog::new("/config");
    catalog.refresh_from(visited);
    let names: Vec<&str> = catalog.entries().iter().map(|e| e.display_name.as_str()).collect();
    // alpha.NES is visited before copy.nes, so the copy of its content is left out.
    assert_eq!(names, vec!["alpha", "Zebra"]);
    assert_eq!(catalog.entries()[0].path, "/config/roms/alpha.NES");
}

fn metadata() -> CartridgeMetadata {
    CartridgeMetadata { mapper: 0, prg_rom_len: 32 * 1024, chr_rom_len: 8 * 1024, chr_is_ram: false }
}

fn scanned_library() -> NesRomCatalog {
    let files = vec!["/c/roms/a.nes".to_string(), "/c/roms/notes.txt".to_string(), "/c/roms/b.nes".to_string()];
    let mut catalog = NesRomCatalog::new("/c");
    catalog.refresh_with(files, &|path: &String| {
        let bytes: &[u8] = if path.ends_with("a.nes") { b"aaa" } else { b"bbb" };
        Inspection::Read { digest: RomDigest::from_bytes(bytes), byte_len: 3, compatibility: supported(0) }
    });
    catalog
}

#[test]
fn a_refresh_reads_each_cartridge_file_once_in_path_order() {
    let catalog = scanned_library();
    let names: Vec<&str> = catalog.entries().iter().map(|e| e.display_name.as_str()).collect();
    assert_eq!(names, vec!["a", "b"]);
}

#[test]
fn loading_checks_the_entry_the_size_the_image_and_the_content() {
    let catalog = scanned_library();
    let a_id = RomDigest::from_bytes(b"aaa").as_hex();
    let parse_ok = |_: &Vec<u8>| -> Result<CartridgeMetadata, String> { Ok(metadata()) };
    let read_a = |_: &String| -> Result<Vec<u8>, NesRomLoadError> { Ok(b"aaa".to_vec()) };

    assert_eq!(
        catalog.load_with("nope", &read_a, &parse_ok).err(),
        Some(NesRomLoadError::NotFound { id: "nope".into() })
    );
    let asset = catalog.load_with(&a_id, &read_a, &parse_ok).unwrap();
    assert_eq!(asset.bytes, b"aaa".to_vec());
    assert_eq!(asset.display_name, "a");
    assert_eq!(asset.source_path, "/c/roms/a.nes");
    assert_eq!(asset.metadata, metadata());

    let read_changed = |_: &String| -> Result<Vec<u8>, NesRomLoadError> { Ok(b"zzz".to_vec()) };
    assert_eq!(
        catalog.load_with(&a_id, &read_changed, &parse_ok).err(),
        Some(NesRomLoadError::Changed { path: "/c/roms/a.nes".into() })
    );
    let read_big = |_: &String| -> Result<Vec<u8>, NesRomLoadError> { Ok(vec![0; MAX_ROM_BYTES + 1]) };
    assert_eq!(
        catalog.load_with(&a_id, &read_big, &parse_ok).err(),
        Some(NesRomLoadError::TooLarge { path: "/c/roms/a.nes".into(), maximum: MAX_ROM_BYTES })
    );
    let parse_bad = |_: &Vec<u8>| -> Result<CartridgeMetadata, String> { Err("bad header".into()) };
    assert_eq!(
        catalog.load_with(&a_id, &read_a, &parse_bad).err(),
        Some(NesRomLoadError::Cartridge { path: "/c/roms/a.nes".into(), message: "bad header".into() })
    );
    let read_fails = |path: &String| -> Result<Vec<u8>, NesRomLoadError> {
        Err(NesRomLoadError::Io { path: path.clone(), message: "gone".into() })
    };
    assert_eq!(
        catalog.load_with(&a_id, &read_fails, &parse_ok).err(),
        Some(NesRomLoadError::Io { path: "/c/roms/a.nes".into(), message: "gone".into() })
    );
}
