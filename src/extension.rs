//! The supported compression formats, and how they are read from a file name
//! or from the first bytes of a file.
use vstd::prelude::*;
use vstd::string::{StrSliceExecFns, StringExecFns};

verus! {

/// Accepted extensions for input and output
#[derive(Copy, Clone, PartialEq, Eq, Debug, Structural)]
pub enum CompressionFormat {
    /// .gz
    Gzip,
    /// .bz .bz2
    Bzip,
    /// .xz .lzma .lz
    Lzma,
    /// tar, tgz, tbz, tbz2, txz, tlz, tlzma, tzst
    Tar,
    /// .zst
    Zstd,
    /// .zip
    Zip,
}

/// Whether a format is a container of several files (tar or zip).
pub open spec fn spec_is_archive(f: CompressionFormat) -> bool {
    f == CompressionFormat::Tar || f == CompressionFormat::Zip
}

/// The text a format is shown as.
pub open spec fn format_text(f: CompressionFormat) -> Seq<char> {
    match f {
        CompressionFormat::Gzip => ".gz"@,
        CompressionFormat::Bzip => ".bz"@,
        CompressionFormat::Zstd => ".zst"@,
        CompressionFormat::Lzma => ".lz"@,
        CompressionFormat::Tar => ".tar"@,
        CompressionFormat::Zip => ".zip"@,
    }
}

impl CompressionFormat {
    /// Currently supported archive formats are .tar (and aliases to it) and .zip
    pub fn is_archive_format(&self) -> (r: bool)
        ensures
            r == spec_is_archive(*self),
    {
        match self {
            CompressionFormat::Tar | CompressionFormat::Zip => true,
            CompressionFormat::Gzip => false,
            CompressionFormat::Bzip => false,
            CompressionFormat::Lzma => false,
            CompressionFormat::Zstd => false,
        }
    }

    /// The text this format is shown as, such as `.gz`.
    pub fn as_str(&self) -> (r: &'static str)
        ensures
            r@ == format_text(*self),
    {
        match self {
            CompressionFormat::Gzip => ".gz",
            CompressionFormat::Bzip => ".bz",
            CompressionFormat::Zstd => ".zst",
            CompressionFormat::Lzma => ".lz",
            CompressionFormat::Tar => ".tar",
            CompressionFormat::Zip => ".zip",
        }
    }
}

/// A wrapper around `CompressionFormat` that allows combinations like `tgz`
#[derive(Debug, Clone, PartialEq, Eq)]
pub struct Extension {
    /// One extension like "tgz" can be made of multiple CompressionFormats ([Tar, Gz])
    pub compression_formats: Vec<CompressionFormat>,
    /// The input text for this extension, like "tgz", "tar" or "xz"
    pub display_text: String,
}

/// An extension seen as its formats and its text.
pub type ExtensionView = (Seq<CompressionFormat>, Seq<char>);

impl View for Extension {
    type V = ExtensionView;

    open spec fn view(&self) -> ExtensionView {
        (self.compression_formats@, self.display_text@)
    }
}

/// The views of a sequence of extensions.
pub open spec fn ext_views(s: Seq<Extension>) -> Seq<ExtensionView> {
    s.map_values(|e: Extension| e@)
}

impl Extension {
    /// An extension always names at least one format.
    pub open spec fn wf(&self) -> bool {
        self.compression_formats@.len() > 0
    }

    /// Builds an extension from its formats, first to last, and its text.
    pub fn new(formats: Vec<CompressionFormat>, text: &str) -> (r: Extension)
        requires
            formats@.len() > 0,
        ensures
            r@ == (formats@, text@),
            r.wf(),
    {
        Extension { compression_formats: formats, display_text: text.to_owned() }
    }

    /// Checks if the first format in `compression_formats` is an archive
    pub fn is_archive(&self) -> (r: bool)
        requires
            self.wf(),
        ensures
            r == spec_is_archive(self.compression_formats@[0]),
    {
        self.compression_formats[0].is_archive_format()
    }

    /// The inner compression formats, useful for flat_mapping
    pub fn iter(&self) -> (r: &[CompressionFormat])
        ensures
            r@ == self.compression_formats@,
    {
        self.compression_formats.as_slice()
    }

    /// The text this extension is shown as.
    pub fn as_str(&self) -> (r: &str)
        ensures
            r@ == self.display_text@,
    {
        self.display_text.as_str()
    }
}

/// Index of the last `c` in `s`, or -1 when there is none.
pub open spec fn last_index_of(s: Seq<char>, c: char) -> int
    decreases s.len(),
{
    if s.len() == 0 {
        -1
    } else if s.last() == c {
        s.len() - 1
    } else {
        last_index_of(s.drop_last(), c)
    }
}

/// The last component of a path: what follows its last `/`.
pub open spec fn file_name_of(path: Seq<char>) -> Seq<char> {
    path.subrange(last_index_of(path, '/') + 1, path.len() as int)
}

/// A file name split at its last dot into stem and extension. A name
/// without a dot, one whose only dot leads it, and `..` have no extension.
pub open spec fn split_extension(name: Seq<char>) -> Option<(Seq<char>, Seq<char>)> {
    let i = last_index_of(name, '.');
    if name == ".."@ || i <= 0 || i >= name.len() {
        None
    } else {
        Some((name.subrange(0, i), name.subrange(i + 1, name.len() as int)))
    }
}

/// The extension that a known suffix stands for.
pub open spec fn known_extension(ext: Seq<char>) -> Option<ExtensionView> {
    if ext == "tar"@ {
        Some((seq![CompressionFormat::Tar], ext))
    } else if ext == "tgz"@ {
        Some((seq![CompressionFormat::Tar, CompressionFormat::Gzip], ext))
    } else if ext == "tbz"@ || ext == "tbz2"@ {
        Some((seq![CompressionFormat::Tar, CompressionFormat::Bzip], ext))
    } else if ext == "txz"@ || ext == "tlz"@ || ext == "tlzma"@ {
        Some((seq![CompressionFormat::Tar, CompressionFormat::Lzma], ext))
    } else if ext == "tzst"@ {
        Some((seq![CompressionFormat::Tar, CompressionFormat::Zstd], ".tzst"@))
    } else if ext == "zip"@ {
        Some((seq![CompressionFormat::Zip], ext))
    } else if ext == "bz"@ || ext == "bz2"@ {
        Some((seq![CompressionFormat::Bzip], ext))
    } else if ext == "gz"@ {
        Some((seq![CompressionFormat::Gzip], ext))
    } else if ext == "xz"@ || ext == "lzma"@ || ext == "lz"@ {
        Some((seq![CompressionFormat::Lzma], ext))
    } else if ext == "zst"@ {
        Some((seq![CompressionFormat::Zstd], ext))
    } else {
        None
    }
}

/// Takes known extensions off the end of a file name while there are any:
/// what is left of the name, and the extensions from left to right.
pub open spec fn peel_extensions(name: Seq<char>) -> (Seq<char>, Seq<ExtensionView>)
    decreases name.len(),
{
    match split_extension(name) {
        Some(parts) => match known_extension(parts.1) {
            Some(e) => {
                let inner = peel_extensions(parts.0);
                (inner.0, inner.1.push(e))
            },
            None => (name, seq![]),
        },
        None => (name, seq![]),
    }
}

/// The remaining path and the known extensions of a path. When the file
/// name ends in no known extension the whole path remains.
pub open spec fn separate_spec(path: Seq<char>) -> (Seq<char>, Seq<ExtensionView>) {
    let peeled = peel_extensions(file_name_of(path));
    if peeled.1.len() == 0 {
        (path, peeled.1)
    } else {
        peeled
    }
}

fn text_eq(a: &str, b: &str) -> (r: bool)
    ensures
        r == (a@ == b@),
{
    let n = a.unicode_len();
    if n != b.unicode_len() {
        return false;
    }
    let mut i: usize = 0;
    while i < n
        invariant
            n == a@.len(),
            n == b@.len(),
            i <= n,
            forall|k: int| 0 <= k < i ==> a@[k] == b@[k],
        decreases n - i,
    {
        if a.get_char(i) != b.get_char(i) {
            return false;
        }
        i = i + 1;
    }
    assert(a@ =~= b@);
    true
}

fn last_index_of_char(s: &str, c: char) -> (r: Option<usize>)
    ensures
        match r {
            Some(i) => i as int == last_index_of(s@, c) && i < s@.len(),
            None => last_index_of(s@, c) == -1,
        },
{
    let mut i: usize = s.unicode_len();
    assert(s@.subrange(0, i as int) =~= s@);
    while i > 0
        invariant
            i <= s@.len(),
            last_index_of(s@, c) == last_index_of(s@.subrange(0, i as int), c),
        decreases i,
    {
        let ch = s.get_char(i - 1);
        assert(s@.subrange(0, i as int).drop_last() =~= s@.subrange(0, i - 1));
        if ch == c {
            return Some(i - 1);
        }
        i = i - 1;
    }
    None
}

fn file_name(path: &str) -> (r: &str)
    ensures
        r@ == file_name_of(path@),
{
    let n = path.unicode_len();
    match last_index_of_char(path, '/') {
        Some(i) => path.substring_char(i + 1, n),
        None => path.substring_char(0, n),
    }
}

fn split_at_extension(name: &str) -> (r: Option<(&str, &str)>)
    ensures
        match r {
            Some(parts) => split_extension(name@) == Some((parts.0@, parts.1@)),
            None => split_extension(name@) is None,
        },
{
    let n = name.unicode_len();
    if text_eq(name, "..") {
        return None;
    }
    match last_index_of_char(name, '.') {
        Some(i) => {
            if i == 0 {
                None
            } else {
                Some((name.substring_char(0, i), name.substring_char(i + 1, n)))
            }
        },
        None => None,
    }
}

fn one_format(f: CompressionFormat) -> (r: Vec<CompressionFormat>)
    ensures
        r@ == seq![f],
{
    let mut v: Vec<CompressionFormat> = Vec::new();
    v.push(f);
    proof {
        assert(v@ =~= seq![f]);
    }
    v
}

fn two_formats(f: CompressionFormat, g: CompressionFormat) -> (r: Vec<CompressionFormat>)
    ensures
        r@ == seq![f, g],
{
    let mut v: Vec<CompressionFormat> = Vec::new();
    v.push(f);
    v.push(g);
    proof {
        assert(v@ =~= seq![f, g]);
    }
    v
}

/// The extension that a file name suffix (without its dot) stands for.
pub fn known_extension_of(ext: &str) -> (r: Option<Extension>)
    ensures
        match r {
            Some(e) => known_extension(ext@) == Some(e@) && e.wf(),
            None => known_extension(ext@) is None,
        },
{
    if text_eq(ext, "tar") {
        Some(Extension::new(one_format(CompressionFormat::Tar), ext))
    } else if text_eq(ext, "tgz") {
        Some(Extension::new(two_formats(CompressionFormat::Tar, CompressionFormat::Gzip), ext))
    } else if text_eq(ext, "tbz") || text_eq(ext, "tbz2") {
        Some(Extension::new(two_formats(CompressionFormat::Tar, CompressionFormat::Bzip), ext))
    } else if text_eq(ext, "txz") || text_eq(ext, "tlz") || text_eq(ext, "tlzma") {
        Some(Extension::new(two_formats(CompressionFormat::Tar, CompressionFormat::Lzma), ext))
    } else if text_eq(ext, "tzst") {
        Some(Extension::new(two_formats(CompressionFormat::Tar, CompressionFormat::Zstd), ".tzst"))
    } else if text_eq(ext, "zip") {
        Some(Extension::new(one_format(CompressionFormat::Zip), ext))
    } else if text_eq(ext, "bz") || text_eq(ext, "bz2") {
        Some(Extension::new(one_format(CompressionFormat::Bzip), ext))
    } else if text_eq(ext, "gz") {
        Some(Extension::new(one_format(CompressionFormat::Gzip), ext))
    } else if text_eq(ext, "xz") || text_eq(ext, "lzma") || text_eq(ext, "lz") {
        Some(Extension::new(one_format(CompressionFormat::Lzma), ext))
    } else if text_eq(ext, "zst") {
        Some(Extension::new(one_format(CompressionFormat::Zstd), ext))
    } else {
        None
    }
}

/// Extracts extensions from a path,
/// return both the remaining path and the list of extension objects
pub fn separate_known_extensions_from_name(path: &str) -> (r: (String, Vec<Extension>))
    ensures
        (r.0@, ext_views(r.1@)) == separate_spec(path@),
        forall|k: int| 0 <= k < r.1@.len() ==> (#[trigger] r.1@[k]).wf(),
{
    let name = file_name(path);
    let mut cur: &str = name;
    let mut extensions: Vec<Extension> = Vec::new();
    loop
        invariant
            peel_extensions(name@) == (peel_extensions(cur@).0, peel_extensions(cur@).1 + ext_views(
                extensions@,
            )),
            forall|k: int| 0 <= k < extensions@.len() ==> (#[trigger] extensions@[k]).wf(),
        ensures
            peel_extensions(name@) == (cur@, ext_views(extensions@)),
            forall|k: int| 0 <= k < extensions@.len() ==> (#[trigger] extensions@[k]).wf(),
        decreases cur@.len(),
    {
        match split_at_extension(cur) {
            Some(parts) => match known_extension_of(parts.1) {
                Some(e) => {
                    let ghost prev = extensions@;
                    let ghost old_views = ext_views(extensions@);
                    extensions.insert(0, e);
                    proof {
                        assert(ext_views(extensions@) =~= seq![e@] + old_views);
                        let inner = peel_extensions(parts.0@);
                        assert(inner.1.push(e@) + old_views =~= inner.1 + (seq![e@] + old_views));
                        assert forall|k: int| 0 <= k < extensions@.len() implies (
                        #[trigger] extensions@[k]).wf() by {
                            if k > 0 {
                                assert(extensions@[k] == prev[k - 1]);
                            }
                        }
                    }
                    cur = parts.0;
                },
                None => {
                    assert(ext_views(extensions@) =~= seq![] + ext_views(extensions@));
                    break ;
                },
            },
            None => {
                assert(ext_views(extensions@) =~= seq![] + ext_views(extensions@));
                break ;
            },
        }
    }
    if extensions.len() == 0 {
        (path.to_owned(), extensions)
    } else {
        (cur.to_owned(), extensions)
    }
}

/// Extracts extensions from a path, return only the list of extension objects
pub fn extensions_from_path(path: &str) -> (r: Vec<Extension>)
    ensures
        ext_views(r@) == separate_spec(path@).1,
        forall|k: int| 0 <= k < r@.len() ==> (#[trigger] r@[k]).wf(),
{
    let (_, extensions) = separate_known_extensions_from_name(path);
    extensions
}

/// Zip local file, empty archive or spanned archive signature.
pub open spec fn is_zip(b: Seq<u8>) -> bool {
    b.len() > 3 && b[0] == 0x50 && b[1] == 0x4B && (b[2] == 0x3 || b[2] == 0x5 || b[2] == 0x7) && (
    b[3] == 0x4 || b[3] == 0x6 || b[3] == 0x8)
}

/// `ustar` at offset 257.
pub open spec fn is_tar(b: Seq<u8>) -> bool {
    b.len() > 261 && b[257] == 0x75 && b[258] == 0x73 && b[259] == 0x74 && b[260] == 0x61 && b[261]
        == 0x72
}

/// Gzip member header with the deflate method.
pub open spec fn is_gz(b: Seq<u8>) -> bool {
    b.len() > 2 && b[0] == 0x1F && b[1] == 0x8B && b[2] == 0x8
}

/// `BZh`.
pub open spec fn is_bz2(b: Seq<u8>) -> bool {
    b.len() > 2 && b[0] == 0x42 && b[1] == 0x5A && b[2] == 0x68
}

/// The xz stream header magic.
pub open spec fn is_xz(b: Seq<u8>) -> bool {
    b.len() > 5 && b[0] == 0xFD && b[1] == 0x37 && b[2] == 0x7A && b[3] == 0x58 && b[4] == 0x5A
        && b[5] == 0x00
}

/// `LZIP`.
pub open spec fn is_lz(b: Seq<u8>) -> bool {
    b.len() > 3 && b[0] == 0x4C && b[1] == 0x5A && b[2] == 0x49 && b[3] == 0x50
}

/// The extension that the first bytes of a file show, the first signature
/// that matches in the order zip, tar, gz, bz2, xz, lz.
pub open spec fn magic_extension(b: Seq<u8>) -> Option<ExtensionView> {
    if is_zip(b) {
        Some((seq![CompressionFormat::Zip], "zip"@))
    } else if is_tar(b) {
        Some((seq![CompressionFormat::Tar], "tar"@))
    } else if is_gz(b) {
        Some((seq![CompressionFormat::Gzip], "gz"@))
    } else if is_bz2(b) {
        Some((seq![CompressionFormat::Bzip], "bz2"@))
    } else if is_xz(b) {
        Some((seq![CompressionFormat::Lzma], "xz"@))
    } else if is_lz(b) {
        Some((seq![CompressionFormat::Lzma], "lz"@))
    } else {
        None
    }
}

/// Infers the extension of a file from its first bytes, looking for known
/// magic strings, and appends it when one is found.
pub fn try_infer(header: &[u8], extensions: &mut Vec<Extension>)
    ensures
        ext_views(final(extensions)@) == ext_views(old(extensions)@) + match magic_extension(header@) {
            Some(e) => seq![e],
            None => seq![],
        },
        final(extensions)@.len() >= old(extensions)@.len(),
        forall|k: int|
            old(extensions)@.len() <= k < final(extensions)@.len() ==> (
            #[trigger] final(extensions)@[k]).wf(),
        forall|k: int| 0 <= k < old(extensions)@.len() ==> #[trigger] final(extensions)@[k] == old(extensions)@[k],
{
    let b = header;
    let n = b.len();
    let found = if n > 3 && b[0] == 0x50 && b[1] == 0x4B && (b[2] == 0x3 || b[2] == 0x5 || b[2]
        == 0x7) && (b[3] == 0x4 || b[3] == 0x6 || b[3] == 0x8) {
        Some(Extension::new(one_format(CompressionFormat::Zip), "zip"))
    } else if n > 261 && b[257] == 0x75 && b[258] == 0x73 && b[259] == 0x74 && b[260] == 0x61
        && b[261] == 0x72 {
        Some(Extension::new(one_format(CompressionFormat::Tar), "tar"))
    } else if n > 2 && b[0] == 0x1F && b[1] == 0x8B && b[2] == 0x8 {
        Some(Extension::new(one_format(CompressionFormat::Gzip), "gz"))
    } else if n > 2 && b[0] == 0x42 && b[1] == 0x5A && b[2] == 0x68 {
        Some(Extension::new(one_format(CompressionFormat::Bzip), "bz2"))
    } else if n > 5 && b[0] == 0xFD && b[1] == 0x37 && b[2] == 0x7A && b[3] == 0x58 && b[4]
        == 0x5A && b[5] == 0x00 {
        Some(Extension::new(one_format(CompressionFormat::Lzma), "xz"))
    } else if n > 3 && b[0] == 0x4C && b[1] == 0x5A && b[2] == 0x49 && b[3] == 0x50 {
        Some(Extension::new(one_format(CompressionFormat::Lzma), "lz"))
    } else {
        None
    };
    let ghost before = extensions@;
    match found {
        Some(e) => {
            extensions.push(e);
            assert(ext_views(extensions@) =~= ext_views(before) + seq![e@]);
        },
        None => {
            assert(ext_views(extensions@) =~= ext_views(before) + seq![]);
        },
    }
}

} // verus!
