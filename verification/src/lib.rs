//! Judges whether a restored backup faithfully holds a live directory tree.
//!
//! The crate decides, file by file, whether a live file is correctly backed
//! up, missing from the backup or corrupt in it, from modification times,
//! content digests and the time at which the backup was made.
pub mod digest;
pub mod exclude;
pub mod excludes_file;
pub mod path;
pub mod run_result;
pub mod snapshot;
pub mod timestamp;
pub mod verdict;
pub mod run;

pub use timestamp::Timestamp;
