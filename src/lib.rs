//! Privacy-preserving activity profiles of a source-control repository.
//!
//! The library holds the export's logic: which fields are hashed, how a
//! commit's diff is summarised, which commits are emitted and in which order
//! the records of a run reach the output stream.

pub mod anonymize;
pub mod error;
pub mod paths;
pub mod language;
pub mod diff;
pub mod record;
pub mod export;
pub mod options;
