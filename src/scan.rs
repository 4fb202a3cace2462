//! Turning the entries of a walk of one user's folder (two levels deep) into
//! drafts for the catalog.

use vstd::prelude::*;
use vstd::string::*;
use crate::datetime::DateTime;
use crate::names::{extension, extension_of};
use crate::photo::{PhotoBody, PhotoBodyView, drafts_view, opt_view};

verus! {

/// The deepest level of a user's folder that a scan reads: files in the
/// folder itself (level 1) and in its direct sub-folders (level 2).
pub const MAX_SCAN_DEPTH: usize = 2;

/// One entry of the walk of a user's folder, with what was learnt of it.
pub struct ScanEntry {
    /// The entry's file name.
    pub file_name: String,
    /// 1 for an entry of the user's folder, 2 for one in a sub-folder.
    pub depth: usize,
    pub is_dir: bool,
    /// The name of the folder that holds the entry, where it has one.
    pub parent_name: Option<String>,
    /// The file's length in bytes, where its metadata could be read.
    pub file_len: Option<u64>,
    /// When the photo was taken, where that could be told.
    pub timestamp: Option<DateTime>,
}

/// Companion JSON files and folders are no photos.
pub open spec fn is_candidate_spec(e: ScanEntry) -> bool {
    !e.is_dir && extension_of(e.file_name@) != Some("json"@)
}

/// The draft made of a photo entry: owned by `user`, named as the file, in
/// the folder that holds it when it lies one level down, with its length (0
/// where unknown); none where no time is known or the holding folder has no
/// name.
pub open spec fn draft_of(user: Seq<char>, e: ScanEntry) -> Option<PhotoBodyView> {
    match e.timestamp {
        Some(t) => {
            if e.depth == 2 && e.parent_name is None {
                None
            } else {
                Some(
                    PhotoBodyView {
                        user_name: user,
                        name: e.file_name@,
                        created_at: t,
                        file_size: match e.file_len {
                            Some(l) => l as i64,
                            None => 0,
                        },
                        folder: if e.depth == 2 {
                            opt_view(e.parent_name)
                        } else {
                            None
                        },
                    },
                )
            }
        },
        None => None,
    }
}

/// The drafts made of the photo entries among `es`, in walk order.
pub open spec fn drafts_of(user: Seq<char>, es: Seq<ScanEntry>) -> Seq<PhotoBodyView>
    decreases es.len(),
{
    if es.len() == 0 {
        seq![]
    } else {
        let prev = drafts_of(user, es.drop_last());
        let e = es.last();
        if is_candidate_spec(e) {
            match draft_of(user, e) {
                Some(d) => prev.push(d),
                None => prev,
            }
        } else {
            prev
        }
    }
}

/// Whether the entry may be a photo: no folder and no companion JSON file.
pub fn is_candidate(e: &ScanEntry) -> (r: bool)
    ensures
        r == is_candidate_spec(*e),
{
    if e.is_dir {
        return false;
    }
    match extension(e.file_name.as_str()) {
        Some(x) => {
            let json = String::from_str("json");
            proof {
                reveal_strlit("json");
            }
            !(x == json)
        },
        None => true,
    }
}

/// The draft made of a photo entry of `user_name`'s folder.
pub fn parse_image(user_name: &String, e: &ScanEntry) -> (r: Option<PhotoBody>)
    ensures
        match r {
            Some(p) => draft_of(user_name@, *e) == Some(p@),
            None => draft_of(user_name@, *e) is None,
        },
{
    match e.timestamp {
        Some(t) => {
            let folder = if e.depth == 2 {
                match &e.parent_name {
                    Some(n) => Some(n.clone()),
                    None => {
                        return None;
                    },
                }
            } else {
                None
            };
            let file_size: i64 = match e.file_len {
                Some(l) => l as i64,
                None => 0,
            };
            Some(PhotoBody::new(user_name.clone(), e.file_name.clone(), t, file_size, folder))
        },
        None => None,
    }
}

/// The drafts of `user_name`'s photos among the entries of a walk of their
/// folder, in walk order.
pub fn scan_user_photos(user_name: &String, entries: &Vec<ScanEntry>) -> (r: Vec<PhotoBody>)
    ensures
        drafts_view(r@) == drafts_of(user_name@, entries@),
{
    let mut out: Vec<PhotoBody> = Vec::new();
    let mut i: usize = 0;
    while i < entries.len()
        invariant
            i <= entries.len(),
            drafts_view(out@) == drafts_of(user_name@, entries@.subrange(0, i as int)),
        decreases entries.len() - i,
    {
        let e = &entries[i];
        proof {
            let s = entries@.subrange(0, i + 1);
            assert(s.drop_last() =~= entries@.subrange(0, i as int));
        }
        if is_candidate(e) {
            match parse_image(user_name, e) {
                Some(p) => {
                    out.push(p);
                    assert(drafts_view(out@) =~= drafts_of(user_name@, entries@.subrange(0, i as int)).push(
                        p@,
                    ));
                },
                None => {},
            }
        }
        i = i + 1;
    }
    assert(entries@.subrange(0, entries.len() as int) =~= entries@);
    out
}

} // verus!
