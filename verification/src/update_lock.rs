//! The lock under macOS that keeps two updates from running at the same time.

use crate::error::{ErrorView, UpdateError};
use crate::os_path;
use vstd::prelude::*;
use vstd::string::*;
use vstd::utf8::*;

verus! {

/// The name of the file that is locked, in the directory for temporary files.
pub const UPDATE_LOCK_FILE: &'static str = "rezed-auto-update.lock";

/// Where the file is that is locked.
pub fn update_lock_path(temp_dir: &[u8]) -> (path: Vec<u8>)
    ensures
        path@ == os_path::joined(temp_dir@, encode_utf8(UPDATE_LOCK_FILE@)),
{
    os_path::join_text(temp_dir, UPDATE_LOCK_FILE)
}

/// What came of locking the file.
#[derive(Debug)]
pub enum LockAttempt {
    /// The file is locked.
    Acquired,
    /// The file could not be opened.
    NotOpened { cause: String },
    /// Somebody else has locked the file.
    WouldBlock,
    /// The file could not be locked.
    Failed { cause: String },
}

/// Whether an update may run, by what came of locking the file at `path`.
pub fn acquire_macos_update_lock_at(path: &[u8], attempt: LockAttempt) -> (result: Result<
    (),
    UpdateError,
>)
    ensures
        match attempt {
            LockAttempt::Acquired => result is Ok,
            LockAttempt::NotOpened { cause } => result is Err && result->Err_0@ == (
            ErrorView::LockNotOpened { path: path@, cause: cause@ }),
            LockAttempt::WouldBlock => result is Err && result->Err_0@ == ErrorView::LockHeld,
            LockAttempt::Failed { cause } => result is Err && result->Err_0@ == (
            ErrorView::LockNotAcquired { cause: cause@ }),
        },
{
    match attempt {
        LockAttempt::Acquired => Ok(()),
        LockAttempt::NotOpened { cause } => Err(
            UpdateError::LockNotOpened { path: vstd::slice::slice_to_vec(path), cause },
        ),
        LockAttempt::WouldBlock => Err(UpdateError::LockHeld),
        LockAttempt::Failed { cause } => Err(UpdateError::LockNotAcquired { cause }),
    }
}

} // verus!
