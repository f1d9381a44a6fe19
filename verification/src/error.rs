//! Why a change to the configuration store did not go through.

use crate::text::joined;
use vstd::prelude::*;

verus! {

/// The failures of the mutation subsystem. Each aborts the one change that
/// met it and touches no other.
#[derive(Debug, Clone, PartialEq, Eq)]
pub enum MutationError {
    /// The caller does not hold elevated rights; nothing was changed.
    PrivilegeRequired,
    /// The store denied access to the key.
    AccessDenied,
    /// The store has no such key.
    KeyNotFound,
    /// The backup could not be put into durable storage; the write was not
    /// attempted.
    BackupPersistFailed,
    /// The store did not take the new value. A backup that was taken before
    /// is still there.
    WriteFailed,
    /// The named backup file holds no valid record.
    BackupCorrupt { file: String },
}

/// A `MutationError` as contracts see it, with texts as sequences of characters.
pub enum MutationErrorView {
    PrivilegeRequired,
    AccessDenied,
    KeyNotFound,
    BackupPersistFailed,
    WriteFailed,
    BackupCorrupt { file: Seq<char> },
}

impl View for MutationError {
    type V = MutationErrorView;

    open spec fn view(&self) -> MutationErrorView {
        match *self {
            MutationError::PrivilegeRequired => MutationErrorView::PrivilegeRequired,
            MutationError::AccessDenied => MutationErrorView::AccessDenied,
            MutationError::KeyNotFound => MutationErrorView::KeyNotFound,
            MutationError::BackupPersistFailed => MutationErrorView::BackupPersistFailed,
            MutationError::WriteFailed => MutationErrorView::WriteFailed,
            MutationError::BackupCorrupt { file } => MutationErrorView::BackupCorrupt {
                file: file@,
            },
        }
    }
}

impl DeepView for MutationError {
    type V = MutationErrorView;

    open spec fn deep_view(&self) -> MutationErrorView {
        self@
    }
}

/// What is said where elevated rights are missing.
pub const PRIVILEGE_REQUIRED: &'static str =
    "Administrator privileges required. Please run as administrator.";

/// What is said where the store denied access.
pub const ACCESS_DENIED: &'static str = "Access to the registry key was denied";

/// What is said where the store has no such key.
pub const KEY_NOT_FOUND: &'static str = "The registry key does not exist";

/// What is said where the backup did not reach durable storage.
pub const BACKUP_PERSIST_FAILED: &'static str =
    "The backup could not be saved; nothing was changed";

/// What is said where the store did not take the value.
pub const WRITE_FAILED: &'static str = "Failed to write registry value";

/// What is said, before the name of the file, where a backup file holds no
/// valid record.
pub const BACKUP_CORRUPT: &'static str = "Not a valid backup file: ";

/// The one line that tells the user what went wrong.
pub open spec fn error_message(e: MutationErrorView) -> Seq<char> {
    match e {
        MutationErrorView::PrivilegeRequired => PRIVILEGE_REQUIRED@,
        MutationErrorView::AccessDenied => ACCESS_DENIED@,
        MutationErrorView::KeyNotFound => KEY_NOT_FOUND@,
        MutationErrorView::BackupPersistFailed => BACKUP_PERSIST_FAILED@,
        MutationErrorView::WriteFailed => WRITE_FAILED@,
        MutationErrorView::BackupCorrupt { file } => BACKUP_CORRUPT@ + file,
    }
}

impl MutationError {
    /// A copy of this failure.
    pub fn copy(&self) -> (e: MutationError)
        ensures
            e@ == self@,
    {
        match self {
            MutationError::PrivilegeRequired => MutationError::PrivilegeRequired,
            MutationError::AccessDenied => MutationError::AccessDenied,
            MutationError::KeyNotFound => MutationError::KeyNotFound,
            MutationError::BackupPersistFailed => MutationError::BackupPersistFailed,
            MutationError::WriteFailed => MutationError::WriteFailed,
            MutationError::BackupCorrupt { file } => MutationError::BackupCorrupt {
                file: file.clone(),
            },
        }
    }

    /// The one line that tells the user what went wrong.
    pub fn message(&self) -> (text: String)
        ensures
            text@ == error_message(self@),
    {
        match self {
            MutationError::PrivilegeRequired => PRIVILEGE_REQUIRED.to_owned(),
            MutationError::AccessDenied => ACCESS_DENIED.to_owned(),
            MutationError::KeyNotFound => KEY_NOT_FOUND.to_owned(),
            MutationError::BackupPersistFailed => BACKUP_PERSIST_FAILED.to_owned(),
            MutationError::WriteFailed => WRITE_FAILED.to_owned(),
            MutationError::BackupCorrupt { file } => joined(BACKUP_CORRUPT, file.as_str()),
        }
    }
}

} // verus!
