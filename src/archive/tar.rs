//! Tar-specific listing and unpacking decisions.
use vstd::prelude::*;

use crate::archive::{file_view, join, join_path, FileInArchive};

verus! {

/// Where the entries of an archive land when unpacked into `output_folder`:
/// each entry's path joined onto the folder, in the archive's order.
pub fn unpack_archive(output_folder: &str, entry_paths: &Vec<String>) -> (r: Vec<String>)
    ensures
        r@.len() == entry_paths@.len(),
        forall|i: int|
            0 <= i < r@.len() ==> #[trigger] r@[i]@ == join_path(output_folder@, entry_paths@[i]@),
{
    let mut files_unpacked: Vec<String> = Vec::new();
    let mut i: usize = 0;
    while i < entry_paths.len()
        invariant
            i <= entry_paths@.len(),
            files_unpacked@.len() == i,
            forall|k: int|
                0 <= k < i ==> #[trigger] files_unpacked@[k]@ == join_path(
                    output_folder@,
                    entry_paths@[k]@,
                ),
        decreases entry_paths@.len() - i,
    {
        files_unpacked.push(join(output_folder, entry_paths[i].as_str()));
        i = i + 1;
    }
    files_unpacked
}

/// Lists the entries of a tar archive, given as each entry's path and
/// whether its header marks a directory, in the archive's order.
pub fn list_archive(entries: &Vec<(String, bool)>) -> (r: Vec<FileInArchive>)
    ensures
        r@.len() == entries@.len(),
        forall|i: int|
            0 <= i < r@.len() ==> #[trigger] file_view(r@[i]) == (entries@[i].0@, entries@[i].1),
{
    let mut files: Vec<FileInArchive> = Vec::new();
    let mut i: usize = 0;
    while i < entries.len()
        invariant
            i <= entries@.len(),
            files@.len() == i,
            forall|k: int|
                0 <= k < i ==> #[trigger] file_view(files@[k]) == (entries@[k].0@, entries@[k].1),
        decreases entries@.len() - i,
    {
        let path = entries[i].0.clone();
        files.push(FileInArchive { path, is_dir: entries[i].1 });
        i = i + 1;
    }
    files
}

} // verus!
