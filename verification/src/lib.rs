//! Partial checksums for large file trees.
//!
//! Instead of hashing a file's entire contents, the library samples a
//! fixed-size byte window from the start, the middle and the end of the file,
//! folds the windows together with the file size (and optionally the
//! modification time) into one SHA-256 digest, and uses that digest for fast
//! integrity comparison between two points in time or two locations.
//!
//! Paths and record lines are handled as raw bytes (`Vec<u8>`), exactly as
//! they appear on disk; callers that hold `String`s convert at the boundary.

pub mod codec;
pub mod digest;
pub mod errors;
pub mod parallel;
pub mod remap;
pub mod retry;
pub mod sample;
pub mod workflow;

pub use errors::HashError;
pub use errors::Stage;
pub use sample::FileSample;
