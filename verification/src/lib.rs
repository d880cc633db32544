//! Version-resolution and build-fallback orchestration for batch generation of
//! machine-readable documentation snapshots.
//!
//! Given a package's repository and a published version string, the library
//! decides which git tag corresponds to that version, and drives a
//! documentation build through an ordered cascade of fallback invocation
//! strategies until one succeeds or all are exhausted. All decision logic is
//! verified; the surrounding process invocation and file I/O is left to the
//! embedding program, which executes the actions this library emits.

pub mod orchestrator;
pub mod paths;
pub mod report;
pub mod strategy;
pub mod tags;
pub mod text;
