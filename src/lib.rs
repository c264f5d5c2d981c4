//! Resolves one user-supplied path argument into a lazy sequence of paths.
//!
//! The argument may name a regular file, a directory to walk recursively, or a
//! glob pattern to expand. Which of the three applies is decided once, from
//! what the filesystem says of the argument, before any item is produced.

pub mod outside;
pub mod resolve;

pub use resolve::{classify, extract_paths, Mode, PathError, PathIter};
