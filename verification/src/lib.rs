//! Tools for routinely cleaning folders.
//!
//! The library couples three small pieces: a pattern that selects directory
//! entries by their path, an idempotent removal operation that treats an
//! already absent target as success, and a routine that ties a directory, a
//! pattern and a repetition interval together and plans one scan-and-delete
//! pass at a time.
//!
//! The library itself touches no file system: the operating-system calls a
//! runner makes are handed in as plain values (the outcome of a removal
//! attempt, the entries a directory listing yielded), and the library's
//! verified functions decide what follows from them.

pub mod fs_utils;
pub mod routine;
