//! Where photos and their derivatives lie on disk.

use vstd::prelude::*;
use vstd::string::*;

verus! {

/// `rel` resolved against `base`, as `Path::join` does on Unix: an absolute
/// `rel` stands alone; otherwise a `/` goes between the two unless `base` is
/// empty or already ends in one.
pub open spec fn join_spec(base: Seq<char>, rel: Seq<char>) -> Seq<char> {
    if rel.len() > 0 && rel[0] == '/' {
        rel
    } else if base.len() == 0 || base[base.len() - 1] == '/' {
        base + rel
    } else {
        base + seq!['/'] + rel
    }
}

/// Joins a relative path to a base folder.
pub fn join_path(base: &String, rel: &str) -> (r: String)
    ensures
        r@ == join_spec(base@, rel@),
{
    let rn = rel.unicode_len();
    if rn > 0 && rel.get_char(0) == '/' {
        return String::from_str(rel);
    }
    let b = base.as_str();
    let bn = b.unicode_len();
    let mut s = base.clone();
    if bn == 0 || b.get_char(bn - 1) == '/' {
        s.append(rel);
    } else {
        proof {
            reveal_strlit("/");
        }
        s.append("/");
        s.append(rel);
    }
    s
}

/// The storage folder, which holds a folder per user, and the folder of
/// previews.
pub struct StorageResolver {
    pub storage_folder: String,
    pub preview_folder: String,
}

impl StorageResolver {
    /// Both folders are expected to exist, or to be made by the caller.
    pub fn new(storage_folder: String, preview_folder: String) -> (r: StorageResolver)
        ensures
            r.storage_folder == storage_folder,
            r.preview_folder == preview_folder,
    {
        StorageResolver { storage_folder, preview_folder }
    }

    /// The absolute path of a photo given by its path inside the storage
    /// folder.
    pub fn resolve_photo(&self, relative: &str) -> (r: String)
        ensures
            r@ == join_spec(self.storage_folder@, relative@),
    {
        join_path(&self.storage_folder, relative)
    }

    /// The absolute path of a preview given by its path inside the preview
    /// folder.
    pub fn resolve_preview(&self, relative: &str) -> (r: String)
        ensures
            r@ == join_spec(self.preview_folder@, relative@),
    {
        join_path(&self.preview_folder, relative)
    }
}

/// The storage folder and the folder of previews, which by default lies in
/// the storage folder as `.preview`.
pub struct FileStorage {
    pub storage_folder: String,
    pub preview_folder: String,
}

impl FileStorage {
    pub fn new(storage_path: String, preview_path: Option<String>) -> (r: FileStorage)
        ensures
            r.storage_folder == storage_path,
            match preview_path {
                Some(p) => r.preview_folder == p,
                None => r.preview_folder@ == join_spec(storage_path@, ".preview"@),
            },
    {
        let preview_folder = match preview_path {
            Some(p) => p,
            None => join_path(&storage_path, ".preview"),
        };
        FileStorage { storage_folder: storage_path, preview_folder }
    }

    pub fn resolve_photo(&self, relative: &str) -> (r: String)
        ensures
            r@ == join_spec(self.storage_folder@, relative@),
    {
        join_path(&self.storage_folder, relative)
    }

    pub fn resolve_preview(&self, relative: &str) -> (r: String)
        ensures
            r@ == join_spec(self.preview_folder@, relative@),
    {
        join_path(&self.preview_folder, relative)
    }
}

} // verus!
