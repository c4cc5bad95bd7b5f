//! Batch video normalization: selection of video files from a directory tree
//! and the decision logic that drives an external transcoding pipeline.
//!
//! The library owns everything that can be decided from plain values: file
//! name classification by extension, probe-output interpretation, recursive
//! selection over an in-memory picture of a directory tree, the step-by-step
//! transcode state machine, and the per-run plan. A thin front end performs
//! the actual filesystem reads and tool invocations and feeds their results
//! back in as values.

pub mod fstree;
pub mod names;
pub mod probe;
pub mod run;
pub mod transcode;
pub mod walk;

pub use names::NameClass;
