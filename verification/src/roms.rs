//! Cartridge library rules: content digests and their hex ids, fallback ids
//! for unreadable files, which files count as cartridges, display names,
//! compatibility summaries, de-duplication by content, lookups, and the
//! checks made before a cartridge is launched.

use sha2::{Digest, Sha256};
use vstd::prelude::*;

use crate::ordering::{insert_by_key, key_view, sorted_by_key};
use crate::paths::{extension, file_name, file_stem, opt_view, path_extension, path_file_name, path_stem};
use crate::text::{decimal, digit_char, push_char, push_decimal, push_str};

verus! {

/// Directory of the cartridge library inside the config directory.
pub const ROM_DIRECTORY_NAME: &'static str = "roms";

/// Largest cartridge image the library loads.
pub const MAX_ROM_BYTES: usize = 16_777_216;

/// FNV-1a offset basis for 64-bit hashes.
pub const FNV_OFFSET_BASIS: u64 = 0xcbf2_9ce4_8422_2325;

/// FNV-1a prime for 64-bit hashes.
pub const FNV_PRIME: u64 = 0x0000_0100_0000_01b3;

/// The 64-bit FNV-1a hash of `bytes`, folded from the left.
pub open spec fn spec_fnv1a64(bytes: Seq<u8>) -> u64
    decreases bytes.len(),
{
    if bytes.len() == 0 {
        FNV_OFFSET_BASIS
    } else {
        let prefix = spec_fnv1a64(bytes.drop_last());
        ((prefix ^ (bytes.last() as u64)) as int * FNV_PRIME as int % 0x1_0000_0000_0000_0000) as u64
    }
}

/// Hashes `bytes` with 64-bit FNV-1a (wrapping multiplication).
pub fn fnv1a64(bytes: &[u8]) -> (hash: u64)
    ensures
        hash == spec_fnv1a64(bytes@),
{
    let mut hash: u64 = FNV_OFFSET_BASIS;
    let mut i: usize = 0;
    while i < bytes.len()
        invariant
            i <= bytes.len(),
            hash == spec_fnv1a64(bytes@.take(i as int)),
        decreases bytes.len() - i,
    {
        let ghost prefix = bytes@.take(i as int);
        assert(bytes@.take(i as int + 1).drop_last() =~= prefix);
        hash = hash ^ (bytes[i] as u64);
        hash = hash.wrapping_mul(FNV_PRIME);
        i = i + 1;
    }
    assert(bytes@.take(bytes.len() as int) =~= bytes@);
    hash
}

/// The SHA-256 digest of `bytes`.
pub uninterp spec fn sha256(bytes: Seq<u8>) -> Seq<u8>;

/// Hashes `bytes` with SHA-256 (`sha2::Sha256::digest`).
#[verifier::external_body]
fn sha256_digest(bytes: &[u8]) -> (digest: [u8; 32])
    ensures
        digest@ == sha256(bytes@),
{
    Sha256::digest(bytes).into()
}

/// The lower-case hex digit for a value below sixteen.
pub open spec fn hex_digit(d: nat) -> char {
    if d < 10 {
        digit_char(d)
    } else if d == 10 {
        'a'
    } else if d == 11 {
        'b'
    } else if d == 12 {
        'c'
    } else if d == 13 {
        'd'
    } else if d == 14 {
        'e'
    } else {
        'f'
    }
}

fn hex_digit_of(d: u64) -> (c: char)
    requires
        d < 16,
    ensures
        c == hex_digit(d as nat),
{
    if d < 10 {
        crate::text::digit_of(d as u128)
    } else if d == 10 {
        'a'
    } else if d == 11 {
        'b'
    } else if d == 12 {
        'c'
    } else if d == 13 {
        'd'
    } else if d == 14 {
        'e'
    } else {
        'f'
    }
}

/// Bytes as lower-case hex, two digits each.
pub open spec fn hex_text(bytes: Seq<u8>) -> Seq<char>
    decreases bytes.len(),
{
    if bytes.len() == 0 {
        Seq::empty()
    } else {
        hex_text(bytes.drop_last()) + seq![
            hex_digit((bytes.last() / 16) as nat),
            hex_digit((bytes.last() % 16) as nat),
        ]
    }
}

/// `value` as sixteen lower-case hex digits, most significant first.
pub open spec fn hex16_text(value: u64) -> Seq<char> {
    Seq::new(16, |i: int| hex_digit(((value as nat) / pow16((15 - i) as nat)) % 16))
}

/// Sixteen to the `n`.
pub open spec fn pow16(n: nat) -> nat
    decreases n,
{
    if n == 0 {
        1
    } else {
        16 * pow16((n - 1) as nat)
    }
}

proof fn lemma_pow16_positive(n: nat)
    ensures
        pow16(n) >= 1,
    decreases n,
{
    if n > 0 {
        lemma_pow16_positive((n - 1) as nat);
    }
}

/// A cartridge's content digest: SHA-256 of its bytes.
#[derive(Clone, Copy, Debug, Eq, Hash, Ord, PartialEq, PartialOrd)]
pub struct RomDigest([u8; 32]);

impl RomDigest {
    /// The digest's bytes.
    pub closed spec fn bytes_spec(&self) -> Seq<u8> {
        self.0@
    }

    /// The digest of `bytes`.
    pub fn from_bytes(bytes: &[u8]) -> (digest: Self)
        ensures
            digest.bytes_spec() == sha256(bytes@),
    {
        RomDigest(sha256_digest(bytes))
    }

    /// A digest with the given bytes.
    pub fn from_array(bytes: [u8; 32]) -> (digest: Self)
        ensures
            digest.bytes_spec() == bytes@,
    {
        RomDigest(bytes)
    }

    /// The digest's bytes.
    pub fn to_array(self) -> (bytes: [u8; 32])
        ensures
            bytes@ == self.bytes_spec(),
    {
        self.0
    }

    /// Whether two digests hold the same bytes.
    pub fn same(&self, other: &RomDigest) -> (same: bool)
        ensures
            same == (self.bytes_spec() == other.bytes_spec()),
    {
        let mut i: usize = 0;
        while i < 32
            invariant
                i <= 32,
                self.0@.len() == 32,
                other.0@.len() == 32,
                forall|k: int| 0 <= k < i ==> self.0@[k] == other.0@[k],
            decreases 32 - i,
        {
            if self.0[i] != other.0[i] {
                return false;
            }
            i = i + 1;
        }
        assert(self.0@ =~= other.0@);
        true
    }

    /// The digest as sixty-four lower-case hex digits.
    pub fn as_hex(self) -> (hex: String)
        ensures
            hex@ == hex_text(self.bytes_spec()),
    {
        let mut hex = String::new();
        let mut i: usize = 0;
        while i < 32
            invariant
                i <= 32,
                self.0@.len() == 32,
                hex@ == hex_text(self.0@.take(i as int)),
            decreases 32 - i,
        {
            let byte = self.0[i];
            push_char(&mut hex, hex_digit_of((byte / 16) as u64));
            push_char(&mut hex, hex_digit_of((byte % 16) as u64));
            assert(self.0@.take(i as int + 1).drop_last() =~= self.0@.take(i as int));
            i = i + 1;
        }
        assert(self.0@.take(32) =~= self.0@);
        hex
    }
}

/// Appends `value` as sixteen lower-case hex digits.
fn push_hex16(s: &mut String, value: u64)
    ensures
        final(s)@ == old(s)@ + hex16_text(value),
{
    let ghost start = s@;
    let mut shift: u64 = 16;
    let mut divisor: u64 = 0x1000_0000_0000_0000;
    proof {
        reveal_with_fuel(pow16, 16);
        assert(pow16(15) == 0x1000_0000_0000_0000);
    }
    while shift > 0
        invariant
            shift <= 16,
            shift > 0 ==> divisor as nat == pow16((shift - 1) as nat),
            shift > 0 ==> divisor > 0,
            s@ == start + hex16_text(value).take(16 - shift),
        decreases shift,
    {
        let digit = (value / divisor) % 16;
        push_char(s, hex_digit_of(digit));
        proof {
            assert(hex16_text(value)[16 - shift as int] == hex_digit((value as nat / pow16((shift - 1) as nat)) % 16));
            assert(hex16_text(value).take(16 - shift + 1) =~= hex16_text(value).take(16 - shift).push(
                hex16_text(value)[16 - shift as int],
            ));
        }
        shift = shift - 1;
        if shift > 0 {
            proof {
                assert(pow16(shift as nat) == 16 * pow16((shift - 1) as nat));
                lemma_pow16_positive((shift - 1) as nat);
            }
            divisor = divisor / 16;
        }
    }
    assert(hex16_text(value).take(16) =~= hex16_text(value));
}

/// The id of a library file that could not be hashed: `path-` and the FNV-1a
/// hash of its sort key as sixteen hex digits.
pub fn fallback_id(sort_key: &str) -> (id: String)
    ensures
        id@ == "path-"@ + hex16_text(spec_fnv1a64(vstd::utf8::encode_utf8(sort_key@))),
{
    let bytes = sort_key.as_bytes();
    let mut id = String::new();
    push_str(&mut id, "path-");
    push_hex16(&mut id, fnv1a64(bytes));
    id
}


/// What the cartridge parser reports of a supported image.
#[derive(Clone, Copy, Debug, PartialEq, Eq, Structural)]
pub struct CartridgeMetadata {
    pub mapper: u16,
    pub prg_rom_len: usize,
    pub chr_rom_len: usize,
    pub chr_is_ram: bool,
}

/// Whether a library file can be launched, and why not.
#[derive(Clone, Debug, PartialEq, Eq)]
pub enum NesRomCompatibility {
    Supported(CartridgeMetadata),
    /// The parser refused the image; its message.
    Rejected(String),
    /// The file could not be read; why.
    Unreadable(String),
    TooLarge { actual: u64, maximum: usize },
}

/// The one-line description of a compatibility verdict.
pub open spec fn summary_text(compatibility: NesRomCompatibility) -> Seq<char> {
    match compatibility {
        NesRomCompatibility::Supported(m) => {
            let chr = if m.chr_is_ram {
                "CHR RAM"@
            } else {
                decimal(m.chr_rom_len as nat / 1024) + " KiB CHR"@
            };
            "Mapper "@ + decimal(m.mapper as nat) + " · "@ + decimal(m.prg_rom_len as nat / 1024)
                + " KiB PRG · "@ + chr
        },
        NesRomCompatibility::Rejected(error) => error@,
        NesRomCompatibility::Unreadable(error) => "Could not read cartridge: "@ + error@,
        NesRomCompatibility::TooLarge { actual, maximum } => "Cartridge is "@ + decimal(
            actual as nat,
        ) + " bytes; the library limit is "@ + decimal(maximum as nat) + " bytes"@,
    }
}

impl NesRomCompatibility {
    /// The cartridge can be launched.
    pub fn is_supported(&self) -> (supported: bool)
        ensures
            supported == (*self is Supported),
    {
        match self {
            NesRomCompatibility::Supported(_) => true,
            _ => false,
        }
    }

    /// The one-line description shown in the launcher.
    pub fn summary(&self) -> (text: String)
        ensures
            text@ == summary_text(*self),
    {
        let mut text = String::new();
        match self {
            NesRomCompatibility::Supported(m) => {
                push_str(&mut text, "Mapper ");
                push_decimal(&mut text, m.mapper as u128);
                push_str(&mut text, " · ");
                push_decimal(&mut text, (m.prg_rom_len / 1024) as u128);
                push_str(&mut text, " KiB PRG · ");
                if m.chr_is_ram {
                    push_str(&mut text, "CHR RAM");
                } else {
                    push_decimal(&mut text, (m.chr_rom_len / 1024) as u128);
                    push_str(&mut text, " KiB CHR");
                }
            },
            NesRomCompatibility::Rejected(error) => push_str(&mut text, error.as_str()),
            NesRomCompatibility::Unreadable(error) => {
                push_str(&mut text, "Could not read cartridge: ");
                push_str(&mut text, error.as_str());
            },
            NesRomCompatibility::TooLarge { actual, maximum } => {
                push_str(&mut text, "Cartridge is ");
                push_decimal(&mut text, *actual as u128);
                push_str(&mut text, " bytes; the library limit is ");
                push_decimal(&mut text, *maximum as u128);
                push_str(&mut text, " bytes");
            },
        }
        text
    }
}

/// One file of the cartridge library.
#[derive(Clone, Debug, PartialEq, Eq)]
pub struct NesRomCatalogEntry {
    pub id: String,
    pub display_name: String,
    pub path: String,
    pub digest: Option<RomDigest>,
    pub byte_len: u64,
    pub compatibility: NesRomCompatibility,
}

impl NesRomCatalogEntry {
    /// The cartridge can be launched.
    pub fn is_supported(&self) -> (supported: bool)
        ensures
            supported == (self.compatibility is Supported),
    {
        self.compatibility.is_supported()
    }
}

/// The entry's digest has bytes `digest`.
pub open spec fn digest_is(entry: NesRomCatalogEntry, digest: Seq<u8>) -> bool {
    match entry.digest {
        Some(d) => d.bytes_spec() == digest,
        None => false,
    }
}

/// Both entries have digests, and they are equal.
pub open spec fn same_content(a: NesRomCatalogEntry, b: NesRomCatalogEntry) -> bool {
    match a.digest {
        Some(d) => digest_is(b, d.bytes_spec()),
        None => false,
    }
}

/// Some entry of `entries` has a digest with bytes `digest`.
pub open spec fn has_digest(entries: Seq<NesRomCatalogEntry>, digest: Seq<u8>) -> bool {
    exists|i: int| 0 <= i < entries.len() && #[trigger] digest_is(entries[i], digest)
}

/// The entries with every later copy of the same content left out; entries
/// without a digest are all kept.
pub open spec fn deduplicated(entries: Seq<NesRomCatalogEntry>) -> Seq<NesRomCatalogEntry>
    decreases entries.len(),
{
    if entries.len() == 0 {
        Seq::empty()
    } else {
        let kept = deduplicated(entries.drop_last());
        let last = entries.last();
        match last.digest {
            Some(d) => if has_digest(kept, d.bytes_spec()) {
                kept
            } else {
                kept.push(last)
            },
            None => kept.push(last),
        }
    }
}

/// Whether some entry has a digest equal to `digest`.
fn contains_digest(entries: &Vec<NesRomCatalogEntry>, digest: &RomDigest) -> (found: bool)
    ensures
        found == has_digest(entries@, digest.bytes_spec()),
{
    let mut i: usize = 0;
    while i < entries.len()
        invariant
            i <= entries@.len(),
            forall|k: int| 0 <= k < i ==> !digest_is(#[trigger] entries@[k], digest.bytes_spec()),
        decreases entries@.len() - i,
    {
        match entries[i].digest {
            Some(d) => {
                if d.same(digest) {
                    assert(digest_is(entries@[i as int], digest.bytes_spec()));
                    return true;
                }
            },
            None => {},
        }
        i = i + 1;
    }
    false
}

/// Keeps the first file of each content, in order.
pub fn deduplicate(entries: Vec<NesRomCatalogEntry>) -> (kept: Vec<NesRomCatalogEntry>)
    ensures
        kept@ == deduplicated(entries@),
{
    let ghost original = entries@;
    let mut rest = entries;
    let n = rest.len();
    let mut kept: Vec<NesRomCatalogEntry> = Vec::new();
    let mut k: usize = 0;
    while rest.len() > 0
        invariant
            original.len() == n,
            k <= original.len(),
            rest@ == original.skip(k as int),
            kept@ == deduplicated(original.take(k as int)),
        decreases rest@.len(),
    {
        let entry = rest.remove(0);
        assert(original.take(k as int + 1).drop_last() =~= original.take(k as int));
        assert(original.take(k as int + 1).last() == entry);
        let keep = match &entry.digest {
            Some(d) => !contains_digest(&kept, d),
            None => true,
        };
        if keep {
            kept.push(entry);
        }
        assert(original.skip(k as int + 1) =~= original.skip(k as int).drop_first());
        k = k + 1;
    }
    assert(original.take(k as int) =~= original);
    kept
}

/// Content never repeats after de-duplication: no two kept entries share a
/// digest.
pub proof fn lemma_deduplicated_contents_are_distinct(entries: Seq<NesRomCatalogEntry>)
    ensures
        forall|i: int, j: int|
            0 <= i < j < deduplicated(entries).len() ==> !same_content(
                #[trigger] deduplicated(entries)[i],
                #[trigger] deduplicated(entries)[j],
            ),
    decreases entries.len(),
{
    if entries.len() > 0 {
        lemma_deduplicated_contents_are_distinct(entries.drop_last());
        let kept = deduplicated(entries.drop_last());
        let last = entries.last();
        let all = kept.push(last);
        if !(last.digest matches Some(d) && has_digest(kept, d.bytes_spec())) {
            assert(deduplicated(entries) == all);
            assert forall|i: int, j: int| 0 <= i < j < all.len() implies !same_content(
                #[trigger] all[i],
                #[trigger] all[j],
            ) by {
                assert(all[i] == kept[i]);
                if j == all.len() - 1 {
                    if same_content(kept[i], last) {
                        let d = last.digest->Some_0;
                        assert(digest_is(kept[i], d.bytes_spec()));
                        assert(has_digest(kept, d.bytes_spec()));
                    }
                } else {
                    assert(all[j] == kept[j]);
                }
            }
        }
    }
}


proof fn lemma_count_at_least_two(s: Seq<NesRomCatalogEntry>, x: NesRomCatalogEntry)
    ensures
        s.to_multiset().count(x) >= 2 <==> exists|i: int, j: int|
            0 <= i < j < s.len() && #[trigger] s[i] == x && #[trigger] s[j] == x,
    decreases s.len(),
{
    broadcast use vstd::seq_lib::group_to_multiset_ensures;
    if s.len() > 0 {
        let t = s.drop_last();
        let l = s.last();
        assert(t.push(l) =~= s);
        lemma_count_at_least_two(t, x);
        if exists|i: int, j: int| 0 <= i < j < s.len() && #[trigger] s[i] == x && #[trigger] s[j] == x {
            let (i, j) = choose|i: int, j: int|
                0 <= i < j < s.len() && #[trigger] s[i] == x && #[trigger] s[j] == x;
            if j < s.len() - 1 {
                assert(t[i] == x && t[j] == x);
            } else {
                assert(t[i] == x);
                assert(t.contains(x));
            }
        }
        if s.to_multiset().count(x) >= 2 {
            if l == x {
                assert(t.to_multiset().count(x) > 0);
                assert(t.contains(x));
                let i = choose|i: int| 0 <= i < t.len() && t[i] == x;
                assert(s[i] == x && s[s.len() - 1] == x);
            } else {
                let (i, j) = choose|i: int, j: int|
                    0 <= i < j < t.len() && #[trigger] t[i] == x && #[trigger] t[j] == x;
                assert(s[i] == x && s[j] == x);
            }
        }
    }
}

/// Reordering keeps contents distinct: when `b` holds the same entries as
/// `a` and no two entries of `a` share a digest, no two entries of `b` do.
pub proof fn lemma_reordering_keeps_contents_distinct(a: Seq<NesRomCatalogEntry>, b: Seq<NesRomCatalogEntry>)
    requires
        a.to_multiset() == b.to_multiset(),
        forall|i: int, j: int| 0 <= i < j < a.len() ==> !same_content(#[trigger] a[i], #[trigger] a[j]),
    ensures
        forall|i: int, j: int| 0 <= i < j < b.len() ==> !same_content(#[trigger] b[i], #[trigger] b[j]),
{
    broadcast use vstd::seq_lib::group_to_multiset_ensures;
    assert forall|i: int, j: int| 0 <= i < j < b.len() implies !same_content(#[trigger] b[i], #[trigger] b[j]) by {
        if same_content(b[i], b[j]) {
            let x = b[i];
            let y = b[j];
            assert(b.contains(x));
            assert(b.contains(y));
            assert(a.to_multiset().count(x) > 0);
            assert(a.to_multiset().count(y) > 0);
            assert(a.contains(x));
            assert(a.contains(y));
            let p = choose|p: int| 0 <= p < a.len() && a[p] == x;
            let q = choose|q: int| 0 <= q < a.len() && a[q] == y;
            if x == y {
                lemma_count_at_least_two(b, x);
                lemma_count_at_least_two(a, x);
                let (u, v) = choose|u: int, v: int|
                    0 <= u < v < a.len() && #[trigger] a[u] == x && #[trigger] a[v] == x;
                assert(!same_content(a[u], a[v]));
            } else if p < q {
                assert(!same_content(a[p], a[q]));
            } else {
                assert(p != q);
                assert(!same_content(a[q], a[p]));
            }
        }
    }
}

/// Why a library cartridge could not be loaded.
#[derive(Debug, Clone, PartialEq, Eq)]
pub enum NesRomLoadError {
    NotFound { id: String },
    Unavailable { name: String, detail: String },
    Io { path: String, message: String },
    TooLarge { path: String, maximum: usize },
    Changed { path: String },
    Cartridge { path: String, message: String },
}

/// The message for a load error; names are spelled as `{:?}` spells them.
pub open spec fn load_error_text(error: NesRomLoadError) -> Seq<char> {
    match error {
        NesRomLoadError::NotFound { id } => "ROM "@ + crate::text::debug_quoted(id@)
            + " is no longer in the library"@,
        NesRomLoadError::Unavailable { name, detail } => "ROM "@ + crate::text::debug_quoted(name@)
            + " cannot be launched: "@ + detail@,
        NesRomLoadError::Io { path, message } => "could not read ROM "@ + path@ + ": "@ + message@,
        NesRomLoadError::TooLarge { path, maximum } => "ROM "@ + path@ + " exceeds the "@ + decimal(
            maximum as nat,
        ) + "-byte library limit"@,
        NesRomLoadError::Changed { path } => "ROM "@ + path@
            + " changed after the library was scanned; reopen the launcher"@,
        NesRomLoadError::Cartridge { path, message } => "ROM "@ + path@ + " is not supported: "@
            + message@,
    }
}

impl NesRomLoadError {
    /// The error's message.
    pub fn message(&self) -> (text: String)
        ensures
            text@ == load_error_text(*self),
    {
        let mut text = String::new();
        match self {
            NesRomLoadError::NotFound { id } => {
                push_str(&mut text, "ROM ");
                let quoted = crate::text::debug_quote(id.as_str());
                push_str(&mut text, quoted.as_str());
                push_str(&mut text, " is no longer in the library");
            },
            NesRomLoadError::Unavailable { name, detail } => {
                push_str(&mut text, "ROM ");
                let quoted = crate::text::debug_quote(name.as_str());
                push_str(&mut text, quoted.as_str());
                push_str(&mut text, " cannot be launched: ");
                push_str(&mut text, detail.as_str());
            },
            NesRomLoadError::Io { path, message } => {
                push_str(&mut text, "could not read ROM ");
                push_str(&mut text, path.as_str());
                push_str(&mut text, ": ");
                push_str(&mut text, message.as_str());
            },
            NesRomLoadError::TooLarge { path, maximum } => {
                push_str(&mut text, "ROM ");
                push_str(&mut text, path.as_str());
                push_str(&mut text, " exceeds the ");
                push_decimal(&mut text, *maximum as u128);
                push_str(&mut text, "-byte library limit");
            },
            NesRomLoadError::Changed { path } => {
                push_str(&mut text, "ROM ");
                push_str(&mut text, path.as_str());
                push_str(&mut text, " changed after the library was scanned; reopen the launcher");
            },
            NesRomLoadError::Cartridge { path, message } => {
                push_str(&mut text, "ROM ");
                push_str(&mut text, path.as_str());
                push_str(&mut text, " is not supported: ");
                push_str(&mut text, message.as_str());
            },
        }
        text
    }
}

/// The cartridge library: its directory and the files found in it.
#[derive(Debug)]
pub struct NesRomCatalog {
    directory: String,
    entries: Vec<NesRomCatalogEntry>,
}

impl NesRomCatalog {
    pub closed spec fn directory_spec(&self) -> Seq<char> {
        self.directory@
    }

    pub closed spec fn entries_spec(&self) -> Seq<NesRomCatalogEntry> {
        self.entries@
    }

    /// An empty library in the `roms` directory under `config_directory`.
    pub fn new(config_directory: &str) -> (catalog: Self)
        ensures
            catalog.directory_spec() == crate::settings::joined_path(config_directory@, ROM_DIRECTORY_NAME@),
            catalog.entries_spec().len() == 0,
    {
        NesRomCatalog {
            directory: crate::settings::join_path(config_directory, ROM_DIRECTORY_NAME),
            entries: Vec::new(),
        }
    }

    /// The library directory.
    pub fn directory(&self) -> (directory: &str)
        ensures
            directory@ == self.directory_spec(),
    {
        self.directory.as_str()
    }

    /// The files found by the last refresh.
    pub fn entries(&self) -> (entries: &[NesRomCatalogEntry])
        ensures
            entries@ == self.entries_spec(),
    {
        self.entries.as_slice()
    }

    /// Replaces the entries with `inspected`, given in the order the files
    /// were visited: the first file of each content is kept, and the entries
    /// are listed by display name ignoring case, then by path.
    pub fn replace_entries(&mut self, inspected: Vec<NesRomCatalogEntry>)
        ensures
            final(self).entries_spec().to_multiset() == deduplicated(inspected@).to_multiset(),
            listed_by_name(final(self).entries_spec()),
            forall|i: int, j: int|
                0 <= i < j < final(self).entries_spec().len() ==> !same_content(
                    #[trigger] final(self).entries_spec()[i],
                    #[trigger] final(self).entries_spec()[j],
                ),
            final(self).directory_spec() == old(self).directory_spec(),
    {
        let kept = deduplicate(inspected);
        self.entries = order_by_name(kept);
        proof {
            lemma_deduplicated_contents_are_distinct(inspected@);
            lemma_reordering_keeps_contents_distinct(kept@, self.entries@);
        }
    }

    /// Rebuilds the entries from the library files in the order they were
    /// visited, each with what reading it gave: every file becomes its
    /// inspected entry, the first file of each content is kept, and the
    /// entries are listed by display name ignoring case, then by path.
    pub fn refresh_from(&mut self, visited: Vec<(String, Inspection)>)
        ensures
            exists|inspected: Seq<NesRomCatalogEntry>|
                {
                    &&& inspected.len() == visited@.len()
                    &&& forall|i: int|
                        0 <= i < inspected.len() ==> inspected_entry_matches(
                            #[trigger] inspected[i],
                            visited@[i].0,
                            visited@[i].1,
                        )
                    &&& final(self).entries_spec().to_multiset() == deduplicated(inspected).to_multiset()
                },
            listed_by_name(final(self).entries_spec()),
            forall|i: int, j: int|
                0 <= i < j < final(self).entries_spec().len() ==> !same_content(
                    #[trigger] final(self).entries_spec()[i],
                    #[trigger] final(self).entries_spec()[j],
                ),
            final(self).directory_spec() == old(self).directory_spec(),
    {
        let ghost original = visited@;
        let n = visited.len();
        let mut rest = visited;
        let mut inspected: Vec<NesRomCatalogEntry> = Vec::new();
        let mut k: usize = 0;
        while rest.len() > 0
            invariant
                original.len() == n,
                k <= original.len(),
                rest@ == original.skip(k as int),
                inspected@.len() == k,
                forall|i: int|
                    0 <= i < k ==> inspected_entry_matches(
                        #[trigger] inspected@[i],
                        original[i].0,
                        original[i].1,
                    ),
            decreases rest@.len(),
        {
            let (path, inspection) = rest.remove(0);
            let entry = inspected_entry(path, inspection);
            inspected.push(entry);
            assert(original.skip(k as int + 1) =~= original.skip(k as int).drop_first());
            k = k + 1;
        }
        let ghost witness = inspected@;
        self.replace_entries(inspected);
        assert(witness.len() == original.len());
    }

    /// Rescans the library from the regular files `files` of its directory:
    /// the files named as cartridge images are visited in path order,
    /// `inspect` says what reading each gave, and the entries are rebuilt from
    /// those as `refresh_from` does. Whatever `inspect` reports, each entry
    /// stands for one visited file and its inspection.
    pub fn refresh_with<F: Fn(&String) -> Inspection>(&mut self, files: Vec<String>, inspect: &F)
        requires
            forall|p: &String| #[trigger] inspect.requires((p,)),
        ensures
            exists|paths: Seq<String>, inspections: Seq<Inspection>, inspected: Seq<NesRomCatalogEntry>|
                {
                    &&& paths.to_multiset() == cartridge_files(files@).to_multiset()
                    &&& listed_by_path(paths)
                    &&& inspections.len() == paths.len()
                    &&& inspected.len() == paths.len()
                    &&& forall|i: int|
                        0 <= i < paths.len() ==> inspect.ensures((&paths[i],), #[trigger] inspections[i])
                    &&& forall|i: int|
                        0 <= i < paths.len() ==> inspected_entry_matches(
                            #[trigger] inspected[i],
                            paths[i],
                            inspections[i],
                        )
                    &&& final(self).entries_spec().to_multiset() == deduplicated(inspected).to_multiset()
                },
            listed_by_name(final(self).entries_spec()),
            forall|i: int, j: int|
                0 <= i < j < final(self).entries_spec().len() ==> !same_content(
                    #[trigger] final(self).entries_spec()[i],
                    #[trigger] final(self).entries_spec()[j],
                ),
            final(self).directory_spec() == old(self).directory_spec(),
    {
        let paths = library_paths(files);
        let ghost path_seq = paths@;
        let n = paths.len();
        let mut inspections: Vec<Inspection> = Vec::new();
        let mut i: usize = 0;
        while i < n
            invariant
                n == paths@.len(),
                paths@ == path_seq,
                i <= n,
                inspections@.len() == i,
                forall|p: &String| #[trigger] inspect.requires((p,)),
                forall|k: int| 0 <= k < i ==> inspect.ensures((&paths@[k],), #[trigger] inspections@[k]),
            decreases n - i,
        {
            let inspection = inspect(&paths[i]);
            inspections.push(inspection);
            i = i + 1;
        }
        let ghost inspection_seq = inspections@;
        let mut visited: Vec<(String, Inspection)> = Vec::new();
        let mut rest_paths = paths;
        let mut rest_inspections = inspections;
        let mut k: usize = 0;
        while rest_paths.len() > 0
            invariant
                n == path_seq.len(),
                inspection_seq.len() == n,
                k <= n,
                rest_paths@ == path_seq.skip(k as int),
                rest_inspections@ == inspection_seq.skip(k as int),
                visited@.len() == k,
                forall|m: int| 0 <= m < k ==> (#[trigger] visited@[m]).0 == path_seq[m] && visited@[m].1
                    == inspection_seq[m],
            decreases rest_paths@.len(),
        {
            let path = rest_paths.remove(0);
            let inspection = rest_inspections.remove(0);
            visited.push((path, inspection));
            assert(path_seq.skip(k as int + 1) =~= path_seq.skip(k as int).drop_first());
            assert(inspection_seq.skip(k as int + 1) =~= inspection_seq.skip(k as int).drop_first());
            k = k + 1;
        }
        let ghost visited_seq = visited@;
        self.refresh_from(visited);
        proof {
            let inspected = choose|inspected: Seq<NesRomCatalogEntry>|
                {
                    &&& inspected.len() == visited_seq.len()
                    &&& forall|m: int|
                        0 <= m < inspected.len() ==> inspected_entry_matches(
                            #[trigger] inspected[m],
                            visited_seq[m].0,
                            visited_seq[m].1,
                        )
                    &&& self.entries_spec().to_multiset() == deduplicated(inspected).to_multiset()
                };
            assert forall|m: int| 0 <= m < path_seq.len() implies inspected_entry_matches(
                #[trigger] inspected[m],
                path_seq[m],
                inspection_seq[m],
            ) by {
                assert(visited_seq[m].0 == path_seq[m]);
            }
        }
    }

    /// The id of the first launchable cartridge.
    pub fn first_supported_id(&self) -> (id: Option<String>)
        ensures
            match id {
                Some(text) => exists|i: int|
                    0 <= i < self.entries_spec().len() && (#[trigger] self.entries_spec()[i]).compatibility is Supported
                        && self.entries_spec()[i].id@ == text@ && forall|k: int|
                        0 <= k < i ==> !((#[trigger] self.entries_spec()[k]).compatibility is Supported),
                None => forall|i: int|
                    0 <= i < self.entries_spec().len() ==> !((#[trigger] self.entries_spec()[i]).compatibility is Supported),
            },
    {
        let mut i: usize = 0;
        while i < self.entries.len()
            invariant
                i <= self.entries@.len(),
                forall|k: int| 0 <= k < i ==> !((#[trigger] self.entries@[k]).compatibility is Supported),
            decreases self.entries@.len() - i,
        {
            if self.entries[i].is_supported() {
                return Some(self.entries[i].id.clone());
            }
            i = i + 1;
        }
        None
    }

    /// The index of the entry with id `id`, if any.
    pub fn position(&self, id: &str) -> (index: Option<usize>)
        ensures
            match index {
                Some(i) => i < self.entries_spec().len() && self.entries_spec()[i as int].id@ == id@
                    && forall|k: int| 0 <= k < i ==> (#[trigger] self.entries_spec()[k]).id@ != id@,
                None => forall|k: int|
                    0 <= k < self.entries_spec().len() ==> (#[trigger] self.entries_spec()[k]).id@ != id@,
            },
    {
        let mut i: usize = 0;
        while i < self.entries.len()
            invariant
                i <= self.entries@.len(),
                forall|k: int| 0 <= k < i ==> (#[trigger] self.entries@[k]).id@ != id@,
            decreases self.entries@.len() - i,
        {
            if crate::text::str_equal(self.entries[i].id.as_str(), id) {
                return Some(i);
            }
            i = i + 1;
        }
        None
    }

    /// The entry with id `id`, if any.
    pub fn entry(&self, id: &str) -> (entry: Option<&NesRomCatalogEntry>)
        ensures
            match entry {
                Some(e) => exists|i: int|
                    0 <= i < self.entries_spec().len() && *e == #[trigger] self.entries_spec()[i]
                        && e.id@ == id@ && forall|k: int| 0 <= k < i ==> (#[trigger] self.entries_spec()[k]).id@ != id@,
                None => forall|k: int|
                    0 <= k < self.entries_spec().len() ==> (#[trigger] self.entries_spec()[k]).id@ != id@,
            },
    {
        match self.position(id) {
            Some(i) => Some(&self.entries[i]),
            None => None,
        }
    }

    /// The entry to load for `id`: an unknown id and an unlaunchable
    /// cartridge are refused.
    pub fn launchable(&self, id: &str) -> (r: Result<&NesRomCatalogEntry, NesRomLoadError>)
        ensures
            match r {
                Ok(e) => e.id@ == id@ && e.compatibility is Supported && exists|i: int|
                    0 <= i < self.entries_spec().len() && *e == #[trigger] self.entries_spec()[i]
                        && forall|k: int| 0 <= k < i ==> (#[trigger] self.entries_spec()[k]).id@ != id@,
                Err(NesRomLoadError::NotFound { id: missing }) => missing@ == id@ && forall|k: int|
                    0 <= k < self.entries_spec().len() ==> (#[trigger] self.entries_spec()[k]).id@ != id@,
                Err(NesRomLoadError::Unavailable { name, detail }) => exists|i: int|
                    0 <= i < self.entries_spec().len() && (#[trigger] self.entries_spec()[i]).id@ == id@
                        && (forall|k: int| 0 <= k < i ==> (#[trigger] self.entries_spec()[k]).id@ != id@)
                        && !(self.entries_spec()[i].compatibility is Supported)
                        && name@ == self.entries_spec()[i].display_name@
                        && detail@ == summary_text(self.entries_spec()[i].compatibility),
                Err(_) => false,
            },
    {
        match self.position(id) {
            None => Err(NesRomLoadError::NotFound { id: crate::text::owned(id) }),
            Some(i) => {
                let entry = &self.entries[i];
                if !entry.is_supported() {
                    Err(
                        NesRomLoadError::Unavailable {
                            name: entry.display_name.clone(),
                            detail: entry.compatibility.summary(),
                        },
                    )
                } else {
                    Ok(entry)
                }
            },
        }
    }
}

/// A cartridge image loaded from the library, with what was checked of it.
#[derive(Debug)]
pub struct NesRomAsset {
    pub display_name: String,
    pub source_path: String,
    pub digest: RomDigest,
    pub bytes: Vec<u8>,
    pub metadata: CartridgeMetadata,
}

/// What loading the library file of `entry` gives when `read` gives
/// `read_result` for its path and `parse` gives `parsed` for the bytes read:
/// a read error is passed on; an image over the size limit is refused; a
/// parser refusal is a cartridge error; an image whose digest is not the one
/// scanned has changed; anything else is the loaded image.
pub open spec fn load_result(
    entry: NesRomCatalogEntry,
    read_result: Result<Vec<u8>, NesRomLoadError>,
    parsed: Result<CartridgeMetadata, String>,
    r: Result<NesRomAsset, NesRomLoadError>,
) -> bool {
    match read_result {
        Err(e) => r == Err::<NesRomAsset, NesRomLoadError>(e),
        Ok(bytes) => if bytes.len() > MAX_ROM_BYTES {
            r matches Err(NesRomLoadError::TooLarge { path, maximum }) && path@ == entry.path@
                && maximum == MAX_ROM_BYTES
        } else {
            match parsed {
                Err(message) => r matches Err(NesRomLoadError::Cartridge { path, message: m })
                    && path@ == entry.path@ && m == message,
                Ok(metadata) => if !digest_is(entry, sha256(bytes@)) {
                    r matches Err(NesRomLoadError::Changed { path }) && path@ == entry.path@
                } else {
                    r matches Ok(asset) && asset.bytes@ == bytes@ && asset.digest.bytes_spec()
                        == sha256(bytes@) && asset.metadata == metadata && asset.source_path@
                        == entry.path@ && asset.display_name@ == display_name_text(
                        path_stem(entry.path@),
                        path_file_name(entry.path@),
                    )
                },
            }
        },
    }
}

/// What loading `entry` with the reader `read` and the parser `parse` gives,
/// whatever they report: some outcome of reading the entry's path, and of
/// parsing what was read, decides the result as `load_result` says.
pub open spec fn load_outcome<R, P>(
    entry: NesRomCatalogEntry,
    read: R,
    parse: P,
    r: Result<NesRomAsset, NesRomLoadError>,
) -> bool where
    R: Fn(&String) -> Result<Vec<u8>, NesRomLoadError>,
    P: Fn(&Vec<u8>) -> Result<CartridgeMetadata, String>,
 {
    exists|read_result: Result<Vec<u8>, NesRomLoadError>, parsed: Result<CartridgeMetadata, String>|
        {
            &&& read.ensures((&entry.path,), read_result)
            &&& match read_result {
                Ok(bytes) => bytes.len() <= MAX_ROM_BYTES ==> parse.ensures((&bytes,), parsed),
                Err(_) => true,
            }
            &&& #[trigger] load_result(entry, read_result, parsed, r)
        }
}

/// Loads the library file of `entry`: `read` reads the file at a path (no
/// more than one byte past the size limit) and `parse` checks an image.
pub fn load_entry_with<R, P>(entry: &NesRomCatalogEntry, read: &R, parse: &P) -> (r: Result<
    NesRomAsset,
    NesRomLoadError,
>) where
    R: Fn(&String) -> Result<Vec<u8>, NesRomLoadError>,
    P: Fn(&Vec<u8>) -> Result<CartridgeMetadata, String>,

    requires
        forall|p: &String| #[trigger] read.requires((p,)),
        forall|b: &Vec<u8>| #[trigger] parse.requires((b,)),
    ensures
        load_outcome(*entry, *read, *parse, r),
{
    let read_result = read(&entry.path);
    let bytes = match read_result {
        Ok(bytes) => bytes,
        Err(e) => {
            let r = Err(e);
            assert(load_result(*entry, read_result, vstd::pervasive::arbitrary(), r));
            return r;
        },
    };
    if bytes.len() > MAX_ROM_BYTES {
        let r = Err(NesRomLoadError::TooLarge { path: entry.path.clone(), maximum: MAX_ROM_BYTES });
        assert(load_result(*entry, Ok::<Vec<u8>, NesRomLoadError>(bytes), vstd::pervasive::arbitrary(), r));
        return r;
    }
    let digest = RomDigest::from_bytes(bytes.as_slice());
    let parsed = parse(&bytes);
    let metadata = match parsed {
        Ok(metadata) => metadata,
        Err(message) => {
            let r = Err(NesRomLoadError::Cartridge { path: entry.path.clone(), message });
            assert(load_result(*entry, Ok::<Vec<u8>, NesRomLoadError>(bytes), parsed, r));
            return r;
        },
    };
    match check_unchanged(entry, &digest) {
        Err(e) => {
            let r = Err(e);
            assert(load_result(*entry, Ok::<Vec<u8>, NesRomLoadError>(bytes), parsed, r));
            return r;
        },
        Ok(()) => {},
    }
    let ghost read_bytes = bytes;
    let asset = NesRomAsset {
        display_name: display_name_for_path(entry.path.as_str()),
        source_path: entry.path.clone(),
        digest,
        bytes,
        metadata,
    };
    let r = Ok(asset);
    assert(load_result(*entry, Ok::<Vec<u8>, NesRomLoadError>(read_bytes), parsed, r));
    r
}

impl NesRomCatalog {
    /// Loads the launchable entry `id`: an unknown id or an entry that cannot
    /// be launched is refused as `launchable` refuses it; otherwise its file
    /// is read with `read`, checked with `parse`, and refused if it changed
    /// since the scan.
    pub fn load_with<R, P>(&self, id: &str, read: &R, parse: &P) -> (r: Result<
        NesRomAsset,
        NesRomLoadError,
    >) where
        R: Fn(&String) -> Result<Vec<u8>, NesRomLoadError>,
        P: Fn(&Vec<u8>) -> Result<CartridgeMetadata, String>,

        requires
            forall|p: &String| #[trigger] read.requires((p,)),
            forall|b: &Vec<u8>| #[trigger] parse.requires((b,)),
        ensures
            (forall|k: int| 0 <= k < self.entries_spec().len() ==> (#[trigger] self.entries_spec()[k]).id@
                != id@) ==> (r matches Err(NesRomLoadError::NotFound { id: missing }) && missing@ == id@),
            forall|i: int|
                0 <= i < self.entries_spec().len() && (#[trigger] self.entries_spec()[i]).id@ == id@
                    && (forall|k: int| 0 <= k < i ==> (#[trigger] self.entries_spec()[k]).id@ != id@)
                    ==> if self.entries_spec()[i].compatibility is Supported {
                    load_outcome(self.entries_spec()[i], *read, *parse, r)
                } else {
                    r matches Err(NesRomLoadError::Unavailable { name, detail }) && name@
                        == self.entries_spec()[i].display_name@ && detail@ == summary_text(
                        self.entries_spec()[i].compatibility,
                    )
                },
    {
        let found = self.launchable(id);
        let ghost entries = self.entries_spec();
        match found {
            Err(e) => {
                proof {
                    assert forall|i: int|
                        0 <= i < entries.len() && (#[trigger] entries[i]).id@ == id@ && (forall|k: int|
                            0 <= k < i ==> (#[trigger] entries[k]).id@ != id@) implies !(
                    entries[i].compatibility is Supported) && (found matches Err(
                        NesRomLoadError::Unavailable { name, detail },
                    ) && name@ == entries[i].display_name@ && detail@ == summary_text(
                        entries[i].compatibility,
                    )) by {
                        if let Err(NesRomLoadError::Unavailable { name, detail }) = found {
                            let j = choose|j: int|
                                0 <= j < entries.len() && (#[trigger] entries[j]).id@ == id@
                                    && (forall|k: int| 0 <= k < j ==> (#[trigger] entries[k]).id@ != id@)
                                    && !(entries[j].compatibility is Supported) && name@
                                    == entries[j].display_name@ && detail@ == summary_text(
                                    entries[j].compatibility,
                                );
                            if i < j {
                                assert(entries[i].id@ != id@);
                            } else if j < i {
                                assert(entries[j].id@ != id@);
                            }
                        } else {
                            assert(entries[i].id@ != id@);
                        }
                    }
                }
                Err(e)
            },
            Ok(entry) => {
                let r = load_entry_with(entry, read, parse);
                proof {
                    let j = choose|j: int|
                        0 <= j < entries.len() && *entry == #[trigger] entries[j] && forall|k: int|
                            0 <= k < j ==> (#[trigger] entries[k]).id@ != id@;
                    assert forall|i: int|
                        0 <= i < entries.len() && (#[trigger] entries[i]).id@ == id@ && (forall|k: int|
                            0 <= k < i ==> (#[trigger] entries[k]).id@ != id@) implies i == j by {
                        if i < j {
                            assert(entries[i].id@ != id@);
                        } else if j < i {
                            assert(entries[j].id@ != id@);
                        }
                    }
                }
                r
            },
        }
    }
}

/// A loaded image belongs to `entry` only if its digest is the one scanned;
/// otherwise the file changed since the scan.
pub fn check_unchanged(entry: &NesRomCatalogEntry, loaded: &RomDigest) -> (r: Result<(), NesRomLoadError>)
    ensures
        match entry.digest {
            Some(d) => if d.bytes_spec() == loaded.bytes_spec() {
                r is Ok
            } else {
                r matches Err(NesRomLoadError::Changed { path }) && path@ == entry.path@
            },
            None => r matches Err(NesRomLoadError::Changed { path }) && path@ == entry.path@,
        },
{
    let same = match &entry.digest {
        Some(d) => d.same(loaded),
        None => false,
    };
    if same {
        Ok(())
    } else {
        Err(NesRomLoadError::Changed { path: entry.path.clone() })
    }
}

/// Whether a file extension names a cartridge image: `nes` in any ASCII case.
pub fn is_nes_extension(extension: &str) -> (is_nes: bool)
    ensures
        is_nes == (crate::text::ascii_lowercase(extension@) == "nes"@),
{
    let chars = crate::text::chars_of(extension);
    let lower = crate::text::ascii_lowercase_chars(chars.as_slice());
    let lower_text = crate::text::string_from(lower.as_slice());
    crate::text::str_equal(lower_text.as_str(), "nes")
}

/// The name shown for a cartridge file: its stem, else its file name, unless
/// that is blank; `Unnamed cartridge` otherwise.
pub open spec fn display_name_text(stem: Option<Seq<char>>, file_name: Option<Seq<char>>) -> Seq<char> {
    let name = match stem {
        Some(s) => Some(s),
        None => file_name,
    };
    match name {
        Some(n) => if crate::text::trimmed(n).len() > 0 {
            n
        } else {
            "Unnamed cartridge"@
        },
        None => "Unnamed cartridge"@,
    }
}

/// Chooses the name shown for a cartridge file from its stem and file name.
pub fn display_name(stem: Option<String>, file_name: Option<String>) -> (name: String)
    ensures
        name@ == display_name_text(
            match stem {
                Some(s) => Some(s@),
                None => None,
            },
            match file_name {
                Some(f) => Some(f@),
                None => None,
            },
        ),
{
    let candidate = match stem {
        Some(s) => Some(s),
        None => file_name,
    };
    match candidate {
        Some(n) => {
            let trimmed = crate::text::trim_str(n.as_str());
            if trimmed.len() > 0 {
                n
            } else {
                crate::text::owned("Unnamed cartridge")
            }
        },
        None => crate::text::owned("Unnamed cartridge"),
    }
}


/// `s` in lower case, as `str::to_lowercase` maps it.
pub uninterp spec fn lowercased(s: Seq<char>) -> Seq<char>;

/// `str::to_lowercase` of `s`.
#[verifier::external_body]
fn to_lowercase(s: &str) -> (lower: String)
    ensures
        lower@ == lowercased(s@),
{
    s.to_lowercase()
}

/// The name shown for the cartridge at `path`.
pub fn display_name_for_path(path: &str) -> (name: String)
    ensures
        name@ == display_name_text(path_stem(path@), path_file_name(path@)),
{
    display_name(file_stem(path), file_name(path))
}

/// Whether the file at `path` is named as a cartridge image.
pub fn has_nes_extension(path: &str) -> (is_nes: bool)
    ensures
        is_nes == (path_extension(path@) matches Some(ext) && crate::text::ascii_lowercase(ext)
            == "nes"@),
{
    match extension(path) {
        Some(ext) => is_nes_extension(ext.as_str()),
        None => false,
    }
}

/// The key by which library files are ordered: the path in lower case.
pub fn path_sort_key(path: &str) -> (key: String)
    ensures
        key@ == lowercased(path@),
{
    to_lowercase(path)
}

/// The key by which the library lists its entries: the display name in
/// lower case, then the path.
pub open spec fn entry_key(entry: NesRomCatalogEntry) -> (Seq<char>, Seq<char>) {
    (lowercased(entry.display_name@), entry.path@)
}

/// Entries listed by display name ignoring case, then by path.
pub open spec fn listed_by_name(entries: Seq<NesRomCatalogEntry>) -> bool {
    sorted_by_key(entries, |e: NesRomCatalogEntry| entry_key(e))
}

/// The listing is determined by the entries it holds: two listings by name of
/// the same entries are equal, as long as no two different entries share a
/// path.
pub proof fn lemma_listing_is_determined(a: Seq<NesRomCatalogEntry>, b: Seq<NesRomCatalogEntry>)
    requires
        listed_by_name(a),
        listed_by_name(b),
        a.to_multiset() == b.to_multiset(),
        forall|e: NesRomCatalogEntry, f: NesRomCatalogEntry|
            a.to_multiset().contains(e) && a.to_multiset().contains(f) && e.path@ == f.path@ ==> e == f,
    ensures
        a == b,
{
    let key = |e: NesRomCatalogEntry| entry_key(e);
    assert forall|e: NesRomCatalogEntry, f: NesRomCatalogEntry|
        a.to_multiset().contains(e) && a.to_multiset().contains(f) && key(e) == key(f) implies e == f by {
        assert(e.path@ == key(e).1);
        assert(f.path@ == key(f).1);
    }
    crate::ordering::lemma_listing_unique(a, b, key);
}

/// The key by which library files are visited: the path in lower case, then
/// the path itself.
pub open spec fn path_key(path: String) -> (Seq<char>, Seq<char>) {
    (lowercased(path@), path@)
}

/// Paths listed by their key.
pub open spec fn listed_by_path(paths: Seq<String>) -> bool {
    sorted_by_key(paths, |p: String| path_key(p))
}

/// The path names a cartridge image: its extension is `nes` in any case.
pub open spec fn nes_named(path: Seq<char>) -> bool {
    path_extension(path) matches Some(ext) && crate::text::ascii_lowercase(ext) == "nes"@
}

/// The files of `files` that are named as cartridge images, in order.
pub open spec fn cartridge_files(files: Seq<String>) -> Seq<String>
    decreases files.len(),
{
    if files.len() == 0 {
        Seq::empty()
    } else if nes_named(files.last()@) {
        cartridge_files(files.drop_last()).push(files.last())
    } else {
        cartridge_files(files.drop_last())
    }
}

/// The cartridge images among the regular files `files` of the library
/// directory, in the order they are visited.
pub fn library_paths(files: Vec<String>) -> (paths: Vec<String>)
    ensures
        paths@.to_multiset() == cartridge_files(files@).to_multiset(),
        listed_by_path(paths@),
{
    let ghost original = files@;
    let ghost key = |p: String| path_key(p);
    let n = files.len();
    let mut rest = files;
    let mut sorted: Vec<String> = Vec::new();
    let mut keys: Vec<(Vec<char>, Vec<char>)> = Vec::new();
    let mut k: usize = 0;
    while rest.len() > 0
        invariant
            original.len() == n,
            k <= original.len(),
            rest@ == original.skip(k as int),
            sorted@.len() == keys@.len(),
            forall|i: int| 0 <= i < keys@.len() ==> key_view(#[trigger] keys@[i]) == key(sorted@[i]),
            key == (|p: String| path_key(p)),
            sorted_by_key(sorted@, key),
            sorted@.to_multiset() == cartridge_files(original.take(k as int)).to_multiset(),
        decreases rest@.len(),
    {
        let path = rest.remove(0);
        assert(original.take(k as int + 1).drop_last() =~= original.take(k as int));
        assert(original.take(k as int + 1).last() == path);
        proof {
            broadcast use vstd::seq_lib::to_multiset_build;
        }
        if has_nes_extension(path.as_str()) {
            let lower = path_sort_key(path.as_str());
            let entry_key_chars = (crate::text::chars_of(lower.as_str()), crate::text::chars_of(path.as_str()));
            insert_by_key(&mut sorted, &mut keys, path, entry_key_chars, Ghost(key));
        }
        assert(original.skip(k as int + 1) =~= original.skip(k as int).drop_first());
        k = k + 1;
    }
    assert(original.take(k as int) =~= original);
    sorted
}

/// Lists `entries` by display name ignoring case, then by path.
pub fn order_by_name(entries: Vec<NesRomCatalogEntry>) -> (ordered: Vec<NesRomCatalogEntry>)
    ensures
        ordered@.to_multiset() == entries@.to_multiset(),
        listed_by_name(ordered@),
{
    let ghost original = entries@;
    let ghost key = |e: NesRomCatalogEntry| entry_key(e);
    let n = entries.len();
    let mut rest = entries;
    let mut sorted: Vec<NesRomCatalogEntry> = Vec::new();
    let mut keys: Vec<(Vec<char>, Vec<char>)> = Vec::new();
    let mut k: usize = 0;
    assert(original.take(0) =~= sorted@);
    while rest.len() > 0
        invariant
            original.len() == n,
            k <= original.len(),
            rest@ == original.skip(k as int),
            sorted@.len() == keys@.len(),
            forall|i: int| 0 <= i < keys@.len() ==> key_view(#[trigger] keys@[i]) == key(sorted@[i]),
            key == (|e: NesRomCatalogEntry| entry_key(e)),
            sorted_by_key(sorted@, key),
            sorted@.to_multiset() == original.take(k as int).to_multiset(),
        decreases rest@.len(),
    {
        let entry = rest.remove(0);
        assert(original.take(k as int + 1) =~= original.take(k as int).push(entry));
        proof {
            broadcast use vstd::seq_lib::to_multiset_build;
        }
        let lower = to_lowercase(entry.display_name.as_str());
        let entry_key_chars = (crate::text::chars_of(lower.as_str()), crate::text::chars_of(entry.path.as_str()));
        insert_by_key(&mut sorted, &mut keys, entry, entry_key_chars, Ghost(key));
        assert(original.skip(k as int + 1) =~= original.skip(k as int).drop_first());
        k = k + 1;
    }
    assert(original.take(k as int) =~= original);
    sorted
}

/// The id of a library file at `path` that could not be hashed.
pub fn fallback_id_for_path(path: &str) -> (id: String)
    ensures
        id@ == "path-"@ + hex16_text(spec_fnv1a64(vstd::utf8::encode_utf8(lowercased(path@)))),
{
    let key = path_sort_key(path);
    fallback_id(key.as_str())
}


/// An image read from the library is refused when it is over the size limit.
pub fn check_size(path: &str, len: usize) -> (r: Result<(), NesRomLoadError>)
    ensures
        len <= MAX_ROM_BYTES ==> r is Ok,
        len > MAX_ROM_BYTES ==> (r matches Err(NesRomLoadError::TooLarge { path: p, maximum })
            && p@ == path@ && maximum == MAX_ROM_BYTES),
{
    if len > MAX_ROM_BYTES {
        Err(NesRomLoadError::TooLarge { path: crate::text::owned(path), maximum: MAX_ROM_BYTES })
    } else {
        Ok(())
    }
}

/// What reading a library file gave.
#[derive(Debug, Clone, PartialEq, Eq)]
pub enum Inspection {
    /// The whole file was read; its digest, length and parser verdict.
    Read { digest: RomDigest, byte_len: u64, compatibility: NesRomCompatibility },
    /// The file is over the size limit; its length on disk.
    TooLarge { actual: u64 },
    /// The file could not be read; why.
    Failed(String),
}

/// `entry` is the library entry for the file at `path` that `inspection`
/// describes: a readable file is known by the hex of its digest, any other by
/// its fallback id.
pub open spec fn inspected_entry_matches(
    entry: NesRomCatalogEntry,
    path: String,
    inspection: Inspection,
) -> bool {
    &&& entry.path@ == path@
    &&& entry.display_name@ == display_name_text(path_stem(path@), path_file_name(path@))
    &&& match inspection {
        Inspection::Read { digest, byte_len, compatibility } => {
            &&& entry.id@ == hex_text(digest.bytes_spec())
            &&& entry.digest == Some(digest)
            &&& entry.byte_len == byte_len
            &&& entry.compatibility == compatibility
        },
        Inspection::TooLarge { actual } => {
            &&& entry.id@ == "path-"@ + hex16_text(spec_fnv1a64(vstd::utf8::encode_utf8(lowercased(path@))))
            &&& entry.digest is None
            &&& entry.byte_len == actual
            &&& entry.compatibility == NesRomCompatibility::TooLarge { actual, maximum: MAX_ROM_BYTES }
        },
        Inspection::Failed(reason) => {
            &&& entry.id@ == "path-"@ + hex16_text(spec_fnv1a64(vstd::utf8::encode_utf8(lowercased(path@))))
            &&& entry.digest is None
            &&& entry.byte_len == 0
            &&& entry.compatibility == NesRomCompatibility::Unreadable(reason)
        },
    }
}

/// The library entry for the file at `path`: a readable file is known by the
/// hex of its digest, any other by its fallback id.
pub fn inspected_entry(path: String, inspection: Inspection) -> (entry: NesRomCatalogEntry)
    ensures
        inspected_entry_matches(entry, path, inspection),
{
    let display_name = display_name_for_path(path.as_str());
    match inspection {
        Inspection::Read { digest, byte_len, compatibility } => NesRomCatalogEntry {
            id: digest.as_hex(),
            display_name,
            path,
            digest: Some(digest),
            byte_len,
            compatibility,
        },
        Inspection::TooLarge { actual } => NesRomCatalogEntry {
            id: fallback_id_for_path(path.as_str()),
            display_name,
            path,
            digest: None,
            byte_len: actual,
            compatibility: NesRomCompatibility::TooLarge { actual, maximum: MAX_ROM_BYTES },
        },
        Inspection::Failed(reason) => NesRomCatalogEntry {
            id: fallback_id_for_path(path.as_str()),
            display_name,
            path,
            digest: None,
            byte_len: 0,
            compatibility: NesRomCompatibility::Unreadable(reason),
        },
    }
}

} // verus!
