//! Tools for interacting with the file system.
//!
//! This module provides the pieces a cleanup pass is made of: a pattern for
//! selecting entries, the idempotent removal operation, and the error values
//! the removal logic distinguishes.

pub mod error;
pub mod op;
pub mod pattern;

pub use op::remove;
pub use op::remove_with;
pub use op::RemoveStep;
pub use pattern::FilePattern;
pub use pattern::has_extension;
