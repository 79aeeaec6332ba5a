//! What the tar and zip readers keep of an archive's entries.
use vstd::prelude::*;
use vstd::string::{StrSliceExecFns, StringExecFns};

pub mod tar;
pub mod zip;

verus! {

/// An entry of an archive as listed to the user.
#[derive(Debug, Clone, PartialEq, Eq)]
pub struct FileInArchive {
    /// The entry's path inside the archive
    pub path: String,
    /// Whether the entry is a directory
    pub is_dir: bool,
}

/// A listed entry seen as its path and whether it is a directory.
pub open spec fn file_view(f: FileInArchive) -> (Seq<char>, bool) {
    (f.path@, f.is_dir)
}

/// `path` as seen from `folder`: an absolute path stays as it is, a
/// relative one is put under the folder, with one `/` between the two.
pub open spec fn join_path(folder: Seq<char>, path: Seq<char>) -> Seq<char> {
    if path.len() > 0 && path[0] == '/' {
        path
    } else if folder.len() == 0 {
        path
    } else if folder.last() == '/' {
        folder + path
    } else {
        folder + "/"@ + path
    }
}

/// Joins `path` onto `folder`.
pub fn join(folder: &str, path: &str) -> (r: String)
    ensures
        r@ == join_path(folder@, path@),
{
    let absolute = path.unicode_len() > 0 && path.get_char(0) == '/';
    let n = folder.unicode_len();
    if absolute || n == 0 {
        return path.to_owned();
    }
    let mut r = folder.to_owned();
    if folder.get_char(n - 1) != '/' {
        r.append("/");
    }
    r.append(path);
    r
}

/// The status line shown while `path` is added to an archive.
pub fn compressing_message(path: &str) -> (r: String)
    ensures
        r@ == "Compressing '"@ + path@ + "'."@,
{
    let mut m = String::from_str("Compressing '");
    m.append(path);
    m.append("'.");
    m
}

} // verus!
