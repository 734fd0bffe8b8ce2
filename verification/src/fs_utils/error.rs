//! Tools for handling file system errors.
//!
//! The removal logic tells a handful of operating-system failures apart.
//! They are modelled here as plain data, so that every decision taken over
//! them can be verified; a runner converts the errors the operating system
//! actually returns into these values.

use vstd::prelude::*;

verus! {

/// The classes of operating-system failure that the removal logic
/// distinguishes by name.
#[derive(Clone, Copy, Debug, PartialEq, Eq)]
pub enum OsErrorKind {
    /// The path does not exist.
    NotFound,
    /// Any other failure.
    Other,
}

/// A plain-data stand-in for an operating-system I/O error: its class, and
/// the raw error code where the system gave one.
#[derive(Clone, Copy, Debug, PartialEq, Eq)]
pub struct OsError {
    pub kind: OsErrorKind,
    pub code: Option<i32>,
}

/// Does an error signal that a path wasn't found?
pub open spec fn spec_not_found(e: &OsError) -> bool {
    e.kind is NotFound
}

/// Does an error signal that a path wasn't found?
#[verifier::when_used_as_spec(spec_not_found)]
pub fn not_found(e: &OsError) -> (r: bool)
    ensures
        r == spec_not_found(e),
{
    match e.kind {
        OsErrorKind::NotFound => true,
        OsErrorKind::Other => false,
    }
}

/// Does an error signal that a path was unexpectedly not a directory?
///
/// The test goes by the raw code the operating system reported; 267 is the
/// code Windows returns when a directory operation reaches a plain file.
pub open spec fn spec_not_a_directory(e: &OsError) -> bool {
    e.code matches Some(c) && c == 267
}

/// Does an error signal that a path was unexpectedly not a directory?
#[verifier::when_used_as_spec(spec_not_a_directory)]
pub fn not_a_directory(e: &OsError) -> (r: bool)
    ensures
        r == spec_not_a_directory(e),
{
    match e.code {
        Some(c) => c == 267,
        None => false,
    }
}

/// Represents errors that occur when trying to remove files or directories.
///
/// Contains the underlying error reported by the operating system as well
/// as the path to the file or directory that couldn't be removed because of
/// the error.
#[derive(Clone, Debug, PartialEq, Eq)]
pub struct FailedToRemove {
    pub path: String,
    pub source: OsError,
}

impl FailedToRemove {
    /// Creates a new error from a path and an operating-system error.
    pub fn new(path: &str, source: OsError) -> (r: Self)
        ensures
            r.path@ == path@,
            r.source == source,
    {
        FailedToRemove { path: path.to_owned(), source }
    }

    /// The path to the file or directory that couldn't be removed.
    pub fn path(&self) -> (r: &str)
        ensures
            r@ == self.path@,
    {
        self.path.as_str()
    }

    /// The lower-level source of this error.
    pub fn io_source(&self) -> (r: &OsError)
        ensures
            *r == self.source,
    {
        &self.source
    }
}

} // verus!
