use vstd::prelude::*;
use crate::error::{ClearProcessError, ErrorKind};

verus! {

/// One top-level entry of a folder listing.
#[derive(Debug, Clone)]
pub enum ListedEntry {
    /// An entry whose metadata could not be read.
    Unreadable,
    /// A readable entry: its full path, and whether it is a regular file.
    Found { path: String, is_file: bool },
}

/// The paths of the regular files of a listing, in listing order.
pub open spec fn files_of(listing: Seq<ListedEntry>) -> Seq<Seq<char>>
    decreases listing.len(),
{
    if listing.len() == 0 {
        Seq::empty()
    } else {
        let rest = files_of(listing.drop_last());
        match listing.last() {
            ListedEntry::Found { path, is_file } => if is_file {
                rest.push(path@)
            } else {
                rest
            },
            ListedEntry::Unreadable => rest,
        }
    }
}

/// The number of entries of a listing that are not regular files
/// (subdirectories, other entries, unreadable entries).
pub open spec fn non_files_of(listing: Seq<ListedEntry>) -> nat
    decreases listing.len(),
{
    if listing.len() == 0 {
        0
    } else {
        let rest = non_files_of(listing.drop_last());
        match listing.last() {
            ListedEntry::Found { path, is_file } => if is_file {
                rest
            } else {
                rest + 1
            },
            ListedEntry::Unreadable => rest + 1,
        }
    }
}

/// The views of a sequence of strings.
pub open spec fn views(v: Seq<String>) -> Seq<Seq<char>> {
    v.map_values(|s: String| s@)
}

/// Every entry of a listing is either a regular file or not.
pub proof fn lemma_files_and_non_files(listing: Seq<ListedEntry>)
    ensures
        files_of(listing).len() + non_files_of(listing) == listing.len(),
    decreases listing.len(),
{
    if listing.len() > 0 {
        lemma_files_and_non_files(listing.drop_last());
    }
}

/// The paths of the regular files of `listing`, in listing order;
/// unreadable entries and entries that are not regular files are skipped.
pub fn collect_files(listing: &Vec<ListedEntry>) -> (r: Vec<String>)
    ensures
        views(r@) == files_of(listing@),
{
    let mut r: Vec<String> = Vec::new();
    let mut i: usize = 0;
    while i < listing.len()
        invariant
            i <= listing.len(),
            views(r@) == files_of(listing@.subrange(0, i as int)),
        decreases listing.len() - i,
    {
        proof {
            let next = listing@.subrange(0, i as int + 1);
            assert(next.drop_last() =~= listing@.subrange(0, i as int));
            assert(next.last() == listing@[i as int]);
        }
        match &listing[i] {
            ListedEntry::Found { path, is_file } => {
                if *is_file {
                    let ghost before = r@;
                    let p = path.clone();
                    r.push(p);
                    assert(views(r@) =~= views(before).push(p@));
                }
            },
            ListedEntry::Unreadable => {},
        }
        i = i + 1;
    }
    assert(listing@.subrange(0, listing.len() as int) =~= listing@);
    r
}

/// The number of regular files in a listing; a folder that could not be
/// listed counts none.
pub fn count_file_in_folder(listing: &Option<Vec<ListedEntry>>) -> (r: usize)
    ensures
        r == match listing {
            Some(l) => files_of(l@).len(),
            None => 0,
        },
{
    match listing {
        Some(l) => collect_files(l).len(),
        None => 0,
    }
}

/// The regular files of a folder, from its listing; `None` stands for a
/// folder that could not be listed.
pub fn scan_folder(listing: Option<Vec<ListedEntry>>) -> (r: Result<Vec<String>, ClearProcessError>)
    ensures
        match listing {
            Some(l) => r matches Ok(files) && views(files@) == files_of(l@),
            None => r == Err::<Vec<String>, ClearProcessError>(
                ClearProcessError { kind: ErrorKind::ScanFolderError },
            ),
        },
{
    match listing {
        Some(l) => Ok(collect_files(&l)),
        None => Err(ClearProcessError::new(ErrorKind::ScanFolderError)),
    }
}

} // verus!
