//! The idempotent removal operation.
//!
//! Removing a path means making sure nothing exists there, whatever it is:
//! a runner first attempts a recursive directory removal, falls back to a
//! plain file removal when the system reports that the path is not a
//! directory, and treats an absent target as success throughout. The
//! decisions of that protocol stand here, verified; the runner only makes
//! the system calls and hands their outcomes in.

use vstd::prelude::*;

use crate::fs_utils::error::{not_a_directory, not_found, FailedToRemove, OsError};

verus! {

/// What a removal should do next, given the outcome of the attempt made
/// so far.
#[derive(Debug, PartialEq, Eq)]
pub enum RemoveStep {
    /// The removal is finished, with this result.
    Done(Result<(), FailedToRemove>),
    /// The path exists but is not a directory: attempt a plain file
    /// removal, and give its outcome to [`remove_with`].
    RetryAsFile,
}

/// Settles one removal attempt from the outcome the operating system
/// reported for it.
///
/// Success, and a failure that only says the path wasn't there, are both
/// success: the caller wanted the path gone either way. Every other failure
/// is returned as a [`FailedToRemove`] carrying the path and the cause.
pub fn remove_with(path: &str, attempt: Result<(), OsError>) -> (r: Result<(), FailedToRemove>)
    ensures
        (match attempt {
            Ok(_) => r is Ok,
            Err(e) => {
                if not_found(&e) {
                    r is Ok
                } else {
                    r matches Err(f) && f.path@ == path@ && f.source == e
                }
            },
        }),
{
    match attempt {
        Ok(_) => Ok(()),
        Err(e) => {
            // we want to remove the path anyway, so it not existing is OK
            if not_found(&e) {
                Ok(())
            } else {
                Err(FailedToRemove::new(path, e))
            }
        },
    }
}

/// Removes a file or directory: the decision half.
///
/// The removal begins with a recursive directory removal attempt at `path`;
/// `directory_attempt` is the outcome the operating system reported for it.
/// The result says whether the removal is already settled — succeeded,
/// target already absent, or failed for good — or whether the path turned
/// out to be a plain file, so that the caller should attempt a file removal
/// and settle its outcome with [`remove_with`].
pub fn remove(path: &str, directory_attempt: Result<(), OsError>) -> (r: RemoveStep)
    ensures
        (match directory_attempt {
            Ok(_) => r matches RemoveStep::Done(res) && res is Ok,
            Err(e) => {
                if not_found(&e) {
                    r matches RemoveStep::Done(res) && res is Ok
                } else if not_a_directory(&e) {
                    r is RetryAsFile
                } else {
                    r matches RemoveStep::Done(res) && res matches Err(f) && f.path@ == path@
                        && f.source == e
                }
            },
        }),
{
    let first = remove_with(path, directory_attempt);
    match first {
        // if path isn't a directory, it must be a file
        Err(e) => {
            if not_a_directory(e.io_source()) {
                RemoveStep::RetryAsFile
            } else {
                RemoveStep::Done(Err(e))
            }
        },
        Ok(u) => RemoveStep::Done(Ok(u)),
    }
}

} // verus!
