//! Zip-specific listing decisions.
use vstd::prelude::*;
use vstd::string::StringExecFns;

use crate::archive::{file_view, FileInArchive};

verus! {

/// The entries that have a safe path inside the archive, in order, as path
/// and directory flag.
pub open spec fn enclosed_entries(entries: Seq<(Option<String>, bool)>) -> Seq<(Seq<char>, bool)>
    decreases entries.len(),
{
    if entries.len() == 0 {
        seq![]
    } else {
        let rest = enclosed_entries(entries.drop_last());
        match entries.last().0 {
            Some(p) => rest.push((p@, entries.last().1)),
            None => rest,
        }
    }
}

/// Lists the entries of a zip archive, given as each entry's enclosed name
/// (none where the name would leave the archive's folder) and whether it is
/// a directory. Entries without an enclosed name are left out.
pub fn list_archive(entries: &Vec<(Option<String>, bool)>) -> (r: Vec<FileInArchive>)
    ensures
        r@.map_values(|f: FileInArchive| file_view(f)) == enclosed_entries(entries@),
{
    let mut files: Vec<FileInArchive> = Vec::new();
    let mut i: usize = 0;
    while i < entries.len()
        invariant
            i <= entries@.len(),
            files@.map_values(|f: FileInArchive| file_view(f)) == enclosed_entries(
                entries@.subrange(0, i as int),
            ),
        decreases entries@.len() - i,
    {
        let ghost before = files@;
        proof {
            assert(entries@.subrange(0, i + 1).drop_last() =~= entries@.subrange(0, i as int));
        }
        match &entries[i].0 {
            Some(path) => {
                files.push(FileInArchive { path: path.clone(), is_dir: entries[i].1 });
                assert(files@.map_values(|f: FileInArchive| file_view(f)) =~= before.map_values(
                    |f: FileInArchive| file_view(f),
                ).push(file_view(files@.last())));
            },
            None => {},
        }
        i = i + 1;
    }
    assert(entries@.subrange(0, i as int) =~= entries@);
    files
}

/// The note shown for a zip entry that carries a comment; none for an
/// entry without one.
pub fn check_for_comments(name: &str, comment: &str) -> (r: Option<String>)
    ensures
        r is Some <==> comment@.len() > 0,
        r matches Some(m) ==> m@ == "Found comment in "@ + name@ + ": "@ + comment@,
{
    if comment.is_empty() {
        None
    } else {
        let mut m = String::from_str("Found comment in ");
        m.append(name);
        m.append(": ");
        m.append(comment);
        Some(m)
    }
}

} // verus!
