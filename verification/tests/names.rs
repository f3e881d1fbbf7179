use rom_unpack::category::{category_for, Category};
use rom_unpack::paths::{is_compressed_name, join, strip_compression, text_path};
use rom_unpack::signature::{classify, normalize_marker, EntryKind};
use rom_unpack::text::has_suffix;

#[test]
fn suffix_is_compared_from_the_end() {
    assert!(has_suffix("a.byml.zs", ".zs"));
    assert!(has_suffix("a.byml.zs", "a.byml.zs"));
    assert!(has_suffix("a.byml.zs", ""));
    assert!(!has_suffix(".zs", "a.zs"));
    assert!(!has_suffix("a.zsx", ".zs"));
    assert!(has_suffix("é.zs", ".zs"));
}

#[test]
fn category_follows_the_suffix() {
    assert_eq!(category_for("Field.bcett.byml.zs"), Category::MapData);
    assert_eq!(category_for("Actor.pack.zs"), Category::Pack);
    assert_eq!(category_for("Sizes.rsizetable.zs"), Category::Default);
    assert_eq!(category_for("a.byml.zs"), Category::Common);
    assert_eq!(category_for("b.sarc.zs"), Category::Common);
    assert_eq!(category_for("dir/Actor.pack.zs"), Category::Pack);
}

#[test]
fn unmatched_suffix_is_default() {
    assert_eq!(category_for("a.bgyml"), Category::Default);
    assert_eq!(category_for("raw.bin"), Category::Default);
    assert_eq!(category_for(""), Category::Default);
    assert_eq!(category_for("a.pack"), Category::Default);
}

#[test]
fn signatures_are_told_apart() {
    assert_eq!(classify(b"BY\x00\x02rest"), EntryKind::Structured);
    assert_eq!(classify(b"YB\x02\x00rest"), EntryKind::Structured);
    assert_eq!(classify(b"BY"), EntryKind::Structured);
    assert_eq!(classify(b"MsgStdBn\xff\xfe"), EntryKind::MessageTable);
    assert_eq!(classify(b"MsgStdB"), EntryKind::Opaque);
    assert_eq!(classify(b"SARC\x14\x00"), EntryKind::NestedArchive);
    assert_eq!(classify(b"SAR"), EntryKind::Opaque);
    assert_eq!(classify(b"AAMP"), EntryKind::Opaque);
    assert_eq!(classify(b"B"), EntryKind::Opaque);
    assert_eq!(classify(b""), EntryKind::Opaque);
}

#[test]
fn marker_is_set_in_either_order() {
    let mut big = b"BY\x00\x07tail".to_vec();
    normalize_marker(&mut big);
    assert_eq!(big, b"BY\x00\x04tail".to_vec());
    let mut little = b"YB\x07\x00tail".to_vec();
    normalize_marker(&mut little);
    assert_eq!(little, b"YB\x02\x00tail".to_vec());
}

#[test]
fn marker_repair_is_idempotent() {
    let mut once = b"BY\x00\x09abc".to_vec();
    normalize_marker(&mut once);
    let mut twice = once.clone();
    normalize_marker(&mut twice);
    assert_eq!(once, twice);
    let mut canonical = b"YB\x02\x00abc".to_vec();
    normalize_marker(&mut canonical);
    assert_eq!(canonical, b"YB\x02\x00abc".to_vec());
}

#[test]
fn marker_repair_leaves_other_content() {
    let mut opaque = b"XY\x00\x07tail".to_vec();
    normalize_marker(&mut opaque);
    assert_eq!(opaque, b"XY\x00\x07tail".to_vec());
    let mut short_big = b"BY\x01".to_vec();
    normalize_marker(&mut short_big);
    assert_eq!(short_big, b"BY\x01".to_vec());
    let mut short_little = b"YB".to_vec();
    normalize_marker(&mut short_little);
    assert_eq!(short_little, b"YB".to_vec());
    let mut three = b"YB\x09".to_vec();
    normalize_marker(&mut three);
    assert_eq!(three, b"YB\x02".to_vec());
    let mut empty: Vec<u8> = Vec::new();
    normalize_marker(&mut empty);
    assert!(empty.is_empty());
}

#[test]
fn compression_suffix_is_stripped() {
    assert!(is_compressed_name("a.byml.zs"));
    assert!(!is_compressed_name("a.byml"));
    assert_eq!(strip_compression("a.byml.zs"), "a.byml");
    assert_eq!(strip_compression("dir/b.pack.zs"), "dir/b.pack");
    assert_eq!(strip_compression("raw.bin"), "raw.bin");
    assert_eq!(strip_compression(".zs"), "");
}

#[test]
fn text_extension_replaces_the_last_extension() {
    assert_eq!(text_path("a.byml"), "a.yml");
    assert_eq!(text_path("dir/a.bgyml"), "dir/a.yml");
    assert_eq!(text_path("a.b.c"), "a.b.yml");
    assert_eq!(text_path("noext"), "noext.yml");
    assert_eq!(text_path("dir.v1/noext"), "dir.v1/noext.yml");
    assert_eq!(text_path(".hidden"), ".hidden.yml");
    assert_eq!(text_path("dir/.hidden"), "dir/.hidden.yml");
    assert_eq!(text_path("a."), "a.yml");
    assert_eq!(text_path(""), ".yml");
}

#[test]
fn join_puts_the_name_below_the_directory() {
    assert_eq!(join("b.pack", "inner.yml"), "b.pack/inner.yml");
    assert_eq!(join("", "raw.bin"), "raw.bin");
    assert_eq!(join("a/b", "c/d.bin"), "a/b/c/d.bin");
}
