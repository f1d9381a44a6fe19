//! The mutation subsystem: a change to the configuration store is backed up,
//! written and, where asked for, rolled back.
//!
//! The subsystem decides and the caller acts. A change is a value that says
//! which request the caller has to carry out next; the caller hands back what
//! came of it and gets the next state. No request but the first is issued
//! before the privilege gate has let the caller through, and the write is
//! not asked for before the backup is in durable storage. A backup is a
//! file of its own: no request replaces, alters or removes a record that
//! is there, and a change whose file is taken ends before it writes.
//!
//! A key is a path in the one store that the caller serves. Neither a
//! change nor its record names a hive, so that a rollback writes where the
//! change wrote; a caller that serves the machine hive cannot change a
//! value of the user hive through this subsystem.

pub mod backup;
pub mod model;
pub mod power;
pub mod registry;
pub mod services;

use crate::error::{MutationError, MutationErrorView};
use crate::fixes::backup::{BackupRecord, BackupRecordView};
use vstd::prelude::*;

verus! {

/// Why the store did not take a value.
#[derive(Debug, Clone, Copy, PartialEq, Eq, Structural)]
pub enum WriteFault {
    AccessDenied,
    KeyNotFound,
    Failed,
}

/// The failure that a fault of the store is reported as.
pub open spec fn fault_error(fault: WriteFault) -> MutationErrorView {
    match fault {
        WriteFault::AccessDenied => MutationErrorView::AccessDenied,
        WriteFault::KeyNotFound => MutationErrorView::KeyNotFound,
        WriteFault::Failed => MutationErrorView::WriteFailed,
    }
}

impl WriteFault {
    /// The failure that this fault is reported as.
    pub fn error(self) -> (e: MutationError)
        ensures
            e@ == fault_error(self),
    {
        match self {
            WriteFault::AccessDenied => MutationError::AccessDenied,
            WriteFault::KeyNotFound => MutationError::KeyNotFound,
            WriteFault::Failed => MutationError::WriteFailed,
        }
    }
}

/// What the caller has to do next.
#[derive(Debug, Clone)]
pub enum Request {
    /// Ask the platform whether the user is an administrator.
    CheckPrivilege,
    /// Read the value from the store.
    ReadValue { key: String, value_name: String },
    /// Put the record into durable storage under the given file. The file
    /// is created anew: where a file of that name is there already, it is
    /// left as it is and the backup counts as not persisted.
    PersistBackup { file: String, record: BackupRecord },
    /// Load the record that the given file holds.
    LoadBackup { file: String },
    /// Write the value to the store.
    WriteValue { key: String, value_name: String, data: u32 },
    /// Nothing: the change has ended.
    Done,
}

/// A `Request` as contracts see it, with texts as sequences of characters.
pub enum RequestView {
    CheckPrivilege,
    ReadValue { key: Seq<char>, value_name: Seq<char> },
    PersistBackup { file: Seq<char>, record: BackupRecordView },
    LoadBackup { file: Seq<char> },
    WriteValue { key: Seq<char>, value_name: Seq<char>, data: u32 },
    Done,
}

impl View for Request {
    type V = RequestView;

    open spec fn view(&self) -> RequestView {
        match *self {
            Request::CheckPrivilege => RequestView::CheckPrivilege,
            Request::ReadValue { key, value_name } => RequestView::ReadValue {
                key: key@,
                value_name: value_name@,
            },
            Request::PersistBackup { file, record } => RequestView::PersistBackup {
                file: file@,
                record: record@,
            },
            Request::LoadBackup { file } => RequestView::LoadBackup { file: file@ },
            Request::WriteValue { key, value_name, data } => RequestView::WriteValue {
                key: key@,
                value_name: value_name@,
                data,
            },
            Request::Done => RequestView::Done,
        }
    }
}

/// What came of a request.
#[derive(Debug)]
pub enum Reply {
    /// The platform's answer to the question of privilege: the number it
    /// gave, or nothing where it knows no such question.
    Privilege(Option<i32>),
    /// The value that the store holds, or nothing where it could not be read.
    ValueRead(Option<u32>),
    /// Whether the backup is in durable storage, in a file that was not
    /// there before.
    BackupPersisted(bool),
    /// The record that the file holds, or nothing where it holds none.
    BackupLoaded(Option<BackupRecord>),
    /// Whether the store took the value, and why not.
    ValueWritten(Result<(), WriteFault>),
}

/// A `Reply` as contracts see it, with texts as sequences of characters.
pub enum ReplyView {
    Privilege(Option<i32>),
    ValueRead(Option<u32>),
    BackupPersisted(bool),
    BackupLoaded(Option<BackupRecordView>),
    ValueWritten(Result<(), WriteFault>),
}

impl View for Reply {
    type V = ReplyView;

    open spec fn view(&self) -> ReplyView {
        match *self {
            Reply::Privilege(answer) => ReplyView::Privilege(answer),
            Reply::ValueRead(value) => ReplyView::ValueRead(value),
            Reply::BackupPersisted(done) => ReplyView::BackupPersisted(done),
            Reply::BackupLoaded(record) => ReplyView::BackupLoaded(
                match record {
                    Some(r) => Some(r@),
                    None => None,
                },
            ),
            Reply::ValueWritten(result) => ReplyView::ValueWritten(result),
        }
    }
}

} // verus!
