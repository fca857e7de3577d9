//! The entities the pipeline passes around: sizes and artifact candidates.

use crate::artifact_type::ArtifactType;
use vstd::prelude::*;

verus! {

/// Disk usage of a candidate: measured in bytes, or not determined.
#[derive(Debug, PartialEq, Eq, Clone, Copy, PartialOrd, Ord)]
pub enum Size {
    UnknownSize,
    KnownSize(u64),
}

/// A directory believed to be disposable build output.
///
/// `path` holds the components of the directory's path.  `size` starts out
/// unknown and is filled in by the estimator; `art_type` is assigned once at
/// discovery and never changed afterwards.  The derived ordering compares the
/// component sequences of the paths first, which callers use to sort scan
/// results deterministically.
#[derive(Debug, PartialEq, Eq, Clone, PartialOrd, Ord)]
pub struct ArtifactCandidate {
    pub path: Vec<String>,
    pub size: Size,
    pub art_type: Option<ArtifactType>,
}

impl ArtifactCandidate {
    /// A candidate at `path` whose size is not yet measured and whose type is
    /// not yet detected.
    pub fn new(path: Vec<String>) -> (r: ArtifactCandidate)
        ensures
            r.path == path,
            r.size == Size::UnknownSize,
            r.art_type is None,
    {
        ArtifactCandidate { path, size: Size::UnknownSize, art_type: None }
    }

    /// Starts building a candidate at `path`.
    pub fn builder(path: Vec<String>) -> (r: ArtifactCandidateBuilder)
        ensures
            r.path == path,
            r.size == Size::UnknownSize,
            r.art_type is None,
    {
        ArtifactCandidateBuilder::new(path)
    }
}

/// Accumulates the fields of an [`ArtifactCandidate`] before it is built.
pub struct ArtifactCandidateBuilder {
    pub path: Vec<String>,
    pub size: Size,
    pub art_type: Option<ArtifactType>,
}

impl ArtifactCandidateBuilder {
    /// A builder for a candidate at `path`, with the size unknown and no type
    /// until set otherwise.
    pub fn new(path: Vec<String>) -> (r: ArtifactCandidateBuilder)
        ensures
            r.path == path,
            r.size == Size::UnknownSize,
            r.art_type is None,
    {
        ArtifactCandidateBuilder { path, size: Size::UnknownSize, art_type: None }
    }

    /// Sets the detected artifact type.
    pub fn art_type(self, art_type: Option<ArtifactType>) -> (r: ArtifactCandidateBuilder)
        ensures
            r.path == self.path,
            r.size == self.size,
            r.art_type == art_type,
    {
        ArtifactCandidateBuilder { path: self.path, size: self.size, art_type }
    }

    /// Finishes the candidate.
    pub fn build(self) -> (r: ArtifactCandidate)
        ensures
            r.path == self.path,
            r.size == self.size,
            r.art_type == self.art_type,
    {
        ArtifactCandidate { path: self.path, size: self.size, art_type: self.art_type }
    }
}

} // verus!
