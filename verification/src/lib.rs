//! A bounded filesystem scan-and-aggregate engine.
//!
//! The library walks configured directory trees under depth and entry-count
//! caps, filters entries per category, reduces them in parallel into either
//! record lists or (total size, file count) summaries, ranks list results by
//! descending size, and shapes the outcome into a response envelope.  All of
//! the engine's logic is verified; the filesystem, clock and worker pool are
//! reached only through narrow trusted wrappers.

pub mod catalog;
pub mod cleaner;
pub mod command;
pub mod dashboard;
pub mod envelope;
pub mod model;
pub mod parse;
pub mod platform;
pub mod preview;
pub mod rank;
pub mod reduce;
pub mod summary;
pub mod system;
pub mod text;
pub mod walker;
