use engine_client::paths::{extension, file_name, file_stem};
use std::path::Path;

#[test]
fn path_parts_match_the_standard_library_on_unix() {
    let paths = [
        "", "/", ".", "..", "./", "a", "a/", "a/.", "a/./", "a/..", "/roms/alpha.NES", "/roms/.hidden",
        "/roms/archive.tar.gz", "/roms/trailing.", "/roms/...", "roms//double//slash.nes",
        "./relative.nes", "/roms/no_extension", "/roms/dir.d/", "/roms/Zebra.nes/.",
    ];
    for path in paths {
        let std_path = Path::new(path);
        let name = std_path.file_name().map(|s| s.to_string_lossy().into_owned());
        let stem = std_path.file_stem().map(|s| s.to_string_lossy().into_owned());
        let ext = std_path.extension().map(|s| s.to_string_lossy().into_owned());
        assert_eq!(file_name(path), name, "file_name of {path:?}");
        assert_eq!(file_stem(path), stem, "file_stem of {path:?}");
        assert_eq!(extension(path), ext, "extension of {path:?}");
    }
}
