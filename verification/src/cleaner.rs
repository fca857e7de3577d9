//! Removal of discovered candidates.

use crate::types::ArtifactCandidate;
use crate::types::Size;
use vstd::prelude::*;

verus! {

/// The outcome of one removal attempt.
#[derive(Debug, PartialEq, Eq, Clone, Copy)]
pub enum CleanupResult {
    /// The candidate was removed; `size` is the candidate's size as recorded
    /// before the removal, since afterwards the path can no longer be
    /// measured.
    Successful { size: Size },
    /// The path was already gone, which is not an error.
    DoesNotExists,
    /// The removal failed, for example for lack of permissions.
    Unsuccessful,
}

#[verifier::external_type_specification]
#[verifier::external_body]
pub struct ExFsExtraError(fs_extra::error::Error);

/// Relies on std::path::Path::exists: whether the path with the given
/// components refers to something on disk.  The answer depends on the
/// filesystem, so nothing is promised of it.
#[verifier::external_body]
fn path_exists(path: &Vec<String>) -> bool {
    let p: std::path::PathBuf = path.iter().collect();
    p.exists()
}

/// Relies on fs_extra::dir::remove: removes the directory tree at the path
/// with the given components.  Whether the removal succeeds depends on the
/// filesystem, so nothing is promised of it.
#[verifier::external_body]
fn remove_dir_tree(path: &Vec<String>) -> Result<(), fs_extra::error::Error> {
    let p: std::path::PathBuf = path.iter().collect();
    fs_extra::dir::remove(p)
}

/// The report for one removal attempt, decided from whether the path
/// existed and whether the removal succeeded: a path that was already gone
/// is not an error, a successful removal carries the size recorded before
/// it, and a failed removal is reported plainly.
pub open spec fn cleanup_outcome(existed: bool, removed: bool, size: Size) -> CleanupResult {
    if !existed {
        CleanupResult::DoesNotExists
    } else if removed {
        CleanupResult::Successful { size }
    } else {
        CleanupResult::Unsuccessful
    }
}

/// Decides the report for one removal attempt from the two filesystem
/// outcomes and the size recorded before the removal.
pub fn decide_cleanup(existed: bool, removed: bool, size: Size) -> (r: CleanupResult)
    ensures
        r == cleanup_outcome(existed, removed, size),
{
    if !existed {
        CleanupResult::DoesNotExists
    } else if removed {
        CleanupResult::Successful { size }
    } else {
        CleanupResult::Unsuccessful
    }
}

/// Removes the candidate's directory tree.
///
/// A path that is already gone is reported as [`CleanupResult::DoesNotExists`]
/// rather than as an error, so a candidate removed between discovery and
/// cleaning is tolerated.  Otherwise exactly one removal is attempted:
/// success reports the candidate's size as it was recorded before the
/// removal, and failure reports [`CleanupResult::Unsuccessful`] with no
/// further detail.  The report is [`cleanup_outcome`] of the existence check
/// and the removal's outcome.
pub fn clean(artifact: &ArtifactCandidate) -> (r: CleanupResult)
    ensures
        (r matches CleanupResult::Successful { size } ==> size == artifact.size),
        exists|existed: bool, removed: bool|
            r == #[trigger] cleanup_outcome(existed, removed, artifact.size),
{
    let existed = path_exists(&artifact.path);
    if !existed {
        decide_cleanup(false, false, artifact.size)
    } else {
        let removed = match remove_dir_tree(&artifact.path) {
            Ok(_) => true,
            Err(_) => false,
        };
        decide_cleanup(true, removed, artifact.size)
    }
}

} // verus!
