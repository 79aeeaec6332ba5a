use ouch::extension::CompressionFormat::{Bzip, Gzip, Lzma, Tar, Zip, Zstd};
use ouch::extension::{
    extensions_from_path, known_extension_of, separate_known_extensions_from_name, try_infer, CompressionFormat,
    Extension,
};

#[test]
fn test_extensions_from_path() {
    let path = "bolovo.tar.gz";

    let extensions: Vec<Extension> = extensions_from_path(&path);
    let formats: Vec<&CompressionFormat> = extensions.iter().flat_map(Extension::iter).collect::<Vec<_>>();

    assert_eq!(formats, vec![&Tar, &Gzip]);
}

#[test]
fn separate_keeps_stem_of_file_name() {
    let (rest, exts) = separate_known_extensions_from_name("some/dir/photos.tar.xz");
    assert_eq!(rest, "photos");
    assert_eq!(exts.len(), 2);
    assert_eq!(exts[0].compression_formats, vec![Tar]);
    assert_eq!(exts[0].display_text, "tar");
    assert_eq!(exts[1].compression_formats, vec![Lzma]);
    assert_eq!(exts[1].display_text, "xz");
}

#[test]
fn separate_stops_at_unknown_extension() {
    let (rest, exts) = separate_known_extensions_from_name("dir/notes.txt.gz");
    assert_eq!(rest, "notes.txt");
    assert_eq!(exts.len(), 1);
    assert_eq!(exts[0].compression_formats, vec![Gzip]);
}

#[test]
fn separate_without_known_extension_keeps_whole_path() {
    let (rest, exts) = separate_known_extensions_from_name("dir/notes.txt");
    assert_eq!(rest, "dir/notes.txt");
    assert!(exts.is_empty());
    let (rest, exts) = separate_known_extensions_from_name(".gz");
    assert_eq!(rest, ".gz");
    assert!(exts.is_empty());
    let (rest, exts) = separate_known_extensions_from_name("");
    assert_eq!(rest, "");
    assert!(exts.is_empty());
}

#[test]
fn combined_extensions() {
    let exts = extensions_from_path("a.tgz");
    assert_eq!(exts.len(), 1);
    assert_eq!(exts[0].compression_formats, vec![Tar, Gzip]);
    assert_eq!(exts[0].display_text, "tgz");
    assert!(exts[0].is_archive());

    let exts = extensions_from_path("a.tzst");
    assert_eq!(exts[0].compression_formats, vec![Tar, Zstd]);
    assert_eq!(exts[0].as_str(), ".tzst");

    let exts = extensions_from_path("a.tbz2");
    assert_eq!(exts[0].compression_formats, vec![Tar, Bzip]);
}

#[test]
fn known_extensions_table() {
    assert_eq!(known_extension_of("zip").unwrap().compression_formats, vec![Zip]);
    assert_eq!(known_extension_of("bz").unwrap().compression_formats, vec![Bzip]);
    assert_eq!(known_extension_of("lzma").unwrap().compression_formats, vec![Lzma]);
    assert_eq!(known_extension_of("zst").unwrap().compression_formats, vec![Zstd]);
    assert_eq!(known_extension_of("tlz").unwrap().compression_formats, vec![Tar, Lzma]);
    assert!(known_extension_of("rar").is_none());
    assert!(known_extension_of("").is_none());
}

#[test]
fn archive_formats() {
    assert!(Tar.is_archive_format());
    assert!(Zip.is_archive_format());
    assert!(!Gzip.is_archive_format());
    assert!(!Zstd.is_archive_format());
    assert!(!extensions_from_path("a.gz")[0].is_archive());
    assert_eq!(Gzip.as_str(), ".gz");
    assert_eq!(Lzma.as_str(), ".lz");
}

#[test]
fn extension_new_keeps_formats_and_text() {
    let e = Extension::new(vec![Tar, Gzip], "tgz");
    assert_eq!(e.iter(), &[Tar, Gzip]);
    assert_eq!(e.as_str(), "tgz");
}

#[test]
fn infer_from_magic_bytes() {
    let mut exts = Vec::new();
    try_infer(&[0x50, 0x4B, 0x03, 0x04, 0x00], &mut exts);
    assert_eq!(exts.len(), 1);
    assert_eq!(exts[0].compression_formats, vec![Zip]);
    assert_eq!(exts[0].display_text, "zip");

    let mut header = vec![0u8; 270];
    header[257..262].copy_from_slice(b"ustar");
    try_infer(&header, &mut exts);
    assert_eq!(exts.len(), 2);
    assert_eq!(exts[1].compression_formats, vec![Tar]);

    let mut exts = Vec::new();
    try_infer(&[0x1F, 0x8B, 0x08], &mut exts);
    assert_eq!(exts[0].display_text, "gz");
    let mut exts = Vec::new();
    try_infer(b"BZh91AY", &mut exts);
    assert_eq!(exts[0].display_text, "bz2");
    let mut exts = Vec::new();
    try_infer(&[0xFD, 0x37, 0x7A, 0x58, 0x5A, 0x00], &mut exts);
    assert_eq!(exts[0].display_text, "xz");
    let mut exts = Vec::new();
    try_infer(b"LZIP", &mut exts);
    assert_eq!(exts[0].display_text, "lz");
    assert_eq!(exts[0].compression_formats, vec![Lzma]);

    let mut exts = Vec::new();
    try_infer(&[0x1F, 0x8B], &mut exts);
    try_infer(b"plain text", &mut exts);
    try_infer(&[], &mut exts);
    assert!(exts.is_empty());
}
