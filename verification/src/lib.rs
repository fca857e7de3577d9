//! Discovery and removal of disposable build-output directories.
//!
//! The crate walks a project tree, matches directories against the glob
//! patterns of a registry of artifact types, confirms each match through
//! marker files in its parent directory, measures the disk usage of the
//! candidates it found, and removes them on request.

pub mod artifact_type;
pub mod cleaner;
pub mod cli;
pub mod estimator;
pub mod fetcher;
pub mod globs;
mod paths;
pub mod types;
pub mod walk;
