//! Trusted interface to the `walkdir` crate.
//!
//! The scanner and the size estimator both enumerate a directory tree.  What
//! a walk yields depends on the state of the filesystem, so the wrappers here
//! promise nothing of their results; the callers state what holds of whatever
//! comes back.

use vstd::prelude::*;

verus! {

#[verifier::external_type_specification]
#[verifier::external_body]
pub struct ExWalkDirIntoIter(walkdir::IntoIter);

#[verifier::external_type_specification]
#[verifier::external_body]
pub struct ExWalkDirError(walkdir::Error);

#[verifier::external_type_specification]
#[verifier::external_body]
pub struct ExWalkDirDirEntry(walkdir::DirEntry);

/// One filesystem entry yielded by a directory walk.
pub struct WalkEntry {
    /// The components of the entry's path.
    pub path: Vec<String>,
    /// Whether the entry is a directory; a symbolic link to one is not.
    pub is_dir: bool,
    /// Whether the entry is a regular file; a symbolic link to one is not.
    pub is_file: bool,
    /// The entry's length in bytes, if its metadata could be read.
    pub len: Option<u64>,
}

/// Relies on walkdir::WalkDir::new, follow_links and into_iter: starts a
/// recursive walk of the tree rooted at the path with the given components,
/// without following symbolic links.
#[verifier::external_body]
pub(crate) fn walk_new(root: &Vec<String>) -> (r: walkdir::IntoIter) {
    let p: std::path::PathBuf = root.iter().collect();
    walkdir::WalkDir::new(p).follow_links(false).into_iter()
}

/// Relies on walkdir::IntoIter::next and the DirEntry accessors path,
/// file_type and metadata: yields the next entry of the walk, an error where
/// part of the tree could not be read, or nothing once the walk is over.
#[verifier::external_body]
pub(crate) fn walk_next(it: &mut walkdir::IntoIter) -> (r: Option<
    Result<WalkEntry, walkdir::Error>,
>) {
    it.next().map(|res| res.map(|e| WalkEntry {
        path: e.path().components().map(|c| c.as_os_str().to_string_lossy().into_owned()).collect(),
        is_dir: e.file_type().is_dir(),
        is_file: e.file_type().is_file(),
        len: e.metadata().ok().map(|m| m.len()),
    }))
}

/// One name directly inside a directory, with whether it names a regular
/// file.
pub struct NamedEntry {
    /// The entry's own name, without the directory's path.
    pub name: String,
    /// Whether the entry is a regular file; a directory or a symbolic link
    /// is not.
    pub is_file: bool,
}

/// Relies on walkdir::WalkDir::new with min_depth(1) and max_depth(1), and
/// the DirEntry accessors file_name and file_type: the entries directly
/// inside the directory with the given components, each with its name and
/// whether it is a regular file, in no promised order; entries that cannot
/// be read are left out.
#[verifier::external_body]
pub(crate) fn list_dir_entries(dir: &Vec<String>) -> (r: Vec<NamedEntry>) {
    let p: std::path::PathBuf = dir.iter().collect();
    walkdir::WalkDir::new(p)
        .min_depth(1)
        .max_depth(1)
        .follow_links(false)
        .into_iter()
        .filter_map(|res| res.ok().map(|e| NamedEntry {
            name: e.file_name().to_string_lossy().into_owned(),
            is_file: e.file_type().is_file(),
        }))
        .collect()
}

} // verus!
