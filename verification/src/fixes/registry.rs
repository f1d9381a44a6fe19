//! The change of one value of the configuration store: privilege gate,
//! backup of the value that is there, write of the new one.

use crate::error::{MutationError, MutationErrorView};
use crate::fixes::backup::{record_path, timestamp_now, BackupRecord, BackupRecordView};
use crate::fixes::{fault_error, Reply, ReplyView, Request, RequestView};
use crate::utils::privileges::{elevated, is_admin};
use vstd::prelude::*;

verus! {

/// Where a change stands.
pub enum ApplyView {
    /// Nothing has been asked yet but whether the caller may change the
    /// store.
    AwaitingPrivilege { key: Seq<char>, value_name: Seq<char>, data: u32 },
    /// The caller holds elevated rights; the value that is there is being read.
    AwaitingRead { key: Seq<char>, value_name: Seq<char>, data: u32 },
    /// The value that is there has been read; its record is being put
    /// into durable storage.
    AwaitingBackup { data: u32, record: BackupRecordView },
    /// The backup is in durable storage, in the file named, or there was
    /// no value to back up; the new value is being written.
    AwaitingWrite {
        key: Seq<char>,
        value_name: Seq<char>,
        data: u32,
        backup_file: Option<Seq<char>>,
    },
    /// The key holds the new value. The file named keeps the value it held
    /// before; where none is named, it held none that could be read.
    Applied {
        key: Seq<char>,
        value_name: Seq<char>,
        data: u32,
        backup_file: Option<Seq<char>>,
    },
    /// The change broke off.
    Failed(MutationErrorView),
}

/// Where a change stands, with what it holds at that point.
#[derive(Debug)]
enum ApplyPhase {
    AwaitingPrivilege { key: String, value_name: String, data: u32 },
    AwaitingRead { key: String, value_name: String, data: u32 },
    AwaitingBackup { data: u32, record: BackupRecord },
    AwaitingWrite { key: String, value_name: String, data: u32, backup_file: Option<String> },
    Applied { key: String, value_name: String, data: u32, backup_file: Option<String> },
    Failed(MutationError),
}

/// The change of one value. It starts at the privilege gate and can only
/// be moved on by `step`.
#[derive(Debug)]
pub struct Apply {
    phase: ApplyPhase,
}

/// What a change that went through has done.
#[derive(Debug, Clone)]
pub struct Applied {
    pub key: String,
    pub value_name: String,
    pub data: u32,
    /// The file that keeps the value from before the change; `None` where
    /// there was no value that could be read, so that there is nothing to
    /// restore.
    pub backup_file: Option<String>,
}

/// An `Applied` as contracts see it, with texts as sequences of characters.
pub struct AppliedView {
    pub key: Seq<char>,
    pub value_name: Seq<char>,
    pub data: u32,
    pub backup_file: Option<Seq<char>>,
}

impl View for Applied {
    type V = AppliedView;

    open spec fn view(&self) -> AppliedView {
        AppliedView {
            key: self.key@,
            value_name: self.value_name@,
            data: self.data,
            backup_file: match self.backup_file {
                Some(file) => Some(file@),
                None => None,
            },
        }
    }
}

impl View for Apply {
    type V = ApplyView;

    closed spec fn view(&self) -> ApplyView {
        match self.phase {
            ApplyPhase::AwaitingPrivilege {
                key,
                value_name,
                data,
            } => ApplyView::AwaitingPrivilege { key: key@, value_name: value_name@, data },
            ApplyPhase::AwaitingRead { key, value_name, data } => ApplyView::AwaitingRead {
                key: key@,
                value_name: value_name@,
                data,
            },
            ApplyPhase::AwaitingBackup { data, record } => ApplyView::AwaitingBackup {
                data,
                record: record@,
            },
            ApplyPhase::AwaitingWrite {
                key,
                value_name,
                data,
                backup_file,
            } => ApplyView::AwaitingWrite {
                key: key@,
                value_name: value_name@,
                data,
                backup_file: match backup_file {
                    Some(file) => Some(file@),
                    None => None,
                },
            },
            ApplyPhase::Applied { key, value_name, data, backup_file } => ApplyView::Applied {
                key: key@,
                value_name: value_name@,
                data,
                backup_file: match backup_file {
                    Some(file) => Some(file@),
                    None => None,
                },
            },
            ApplyPhase::Failed(e) => ApplyView::Failed(e@),
        }
    }
}

/// The request that a change in state `s` waits on.
pub open spec fn apply_request(s: ApplyView) -> RequestView {
    match s {
        ApplyView::AwaitingPrivilege { .. } => RequestView::CheckPrivilege,
        ApplyView::AwaitingRead { key, value_name, .. } => RequestView::ReadValue {
            key,
            value_name,
        },
        ApplyView::AwaitingBackup { record, .. } => RequestView::PersistBackup {
            file: record_path(record),
            record,
        },
        ApplyView::AwaitingWrite { key, value_name, data, .. } => RequestView::WriteValue {
            key,
            value_name,
            data,
        },
        ApplyView::Applied { .. } => RequestView::Done,
        ApplyView::Failed(_) => RequestView::Done,
    }
}

/// The state after `reply` came in state `s`. The record of a value that
/// was read is stamped with `timestamp`. A reply to a request that the
/// state does not wait on leaves the state as it is.
pub open spec fn apply_next(s: ApplyView, reply: ReplyView, timestamp: Seq<char>) -> ApplyView {
    match s {
        ApplyView::AwaitingPrivilege { key, value_name, data } => match reply {
            ReplyView::Privilege(answer) => if elevated(answer) {
                ApplyView::AwaitingRead { key, value_name, data }
            } else {
                ApplyView::Failed(MutationErrorView::PrivilegeRequired)
            },
            _ => s,
        },
        ApplyView::AwaitingRead { key, value_name, data } => match reply {
            ReplyView::ValueRead(Some(previous)) => ApplyView::AwaitingBackup {
                data,
                record: BackupRecordView {
                    timestamp,
                    target_key: key,
                    target_value_name: value_name,
                    previous_data: previous,
                },
            },
            ReplyView::ValueRead(None) => ApplyView::AwaitingWrite {
                key,
                value_name,
                data,
                backup_file: None,
            },
            _ => s,
        },
        ApplyView::AwaitingBackup { data, record } => match reply {
            ReplyView::BackupPersisted(true) => ApplyView::AwaitingWrite {
                key: record.target_key,
                value_name: record.target_value_name,
                data,
                backup_file: Some(record_path(record)),
            },
            ReplyView::BackupPersisted(false) => ApplyView::Failed(
                MutationErrorView::BackupPersistFailed,
            ),
            _ => s,
        },
        ApplyView::AwaitingWrite { key, value_name, data, backup_file } => match reply {
            ReplyView::ValueWritten(Ok(_)) => ApplyView::Applied {
                key,
                value_name,
                data,
                backup_file,
            },
            ReplyView::ValueWritten(Err(fault)) => ApplyView::Failed(fault_error(fault)),
            _ => s,
        },
        ApplyView::Applied { .. } => s,
        ApplyView::Failed(_) => s,
    }
}

/// Whether the step from `s` on `reply` stamps a record, so that the time
/// of the step matters.
pub open spec fn stamps_record(s: ApplyView, reply: ReplyView) -> bool {
    s is AwaitingRead && reply matches ReplyView::ValueRead(Some(_))
}

/// Starts the change of `value` under `subkey` to `data`. Nothing is read
/// or written before the privilege gate has let the caller through.
/// `subkey` is a path in the one store that the caller serves: the change
/// names no hive, and its record names none.
pub fn write_dword_with_backup(subkey: &str, value: &str, data: u32) -> (change: Apply)
    ensures
        change@ == (ApplyView::AwaitingPrivilege { key: subkey@, value_name: value@, data }),
{
    Apply {
        phase: ApplyPhase::AwaitingPrivilege {
            key: subkey.to_owned(),
            value_name: value.to_owned(),
            data,
        },
    }
}

/// A copy of the name of the backup file, where there is one.
fn copy_of_file(file: &Option<String>) -> (r: Option<String>)
    ensures
        match *file {
            Some(f) => r matches Some(g) && g@ == f@,
            None => r is None,
        },
{
    match file {
        Some(f) => Some(f.clone()),
        None => None,
    }
}

impl Apply {
    /// What the caller has to do next.
    pub fn request(&self) -> (request: Request)
        ensures
            request@ == apply_request(self@),
    {
        match &self.phase {
            ApplyPhase::AwaitingPrivilege { .. } => Request::CheckPrivilege,
            ApplyPhase::AwaitingRead { key, value_name, .. } => Request::ReadValue {
                key: key.clone(),
                value_name: value_name.clone(),
            },
            ApplyPhase::AwaitingBackup { record, .. } => Request::PersistBackup {
                file: record.path(),
                record: record.copy(),
            },
            ApplyPhase::AwaitingWrite { key, value_name, data, .. } => Request::WriteValue {
                key: key.clone(),
                value_name: value_name.clone(),
                data: *data,
            },
            ApplyPhase::Applied { .. } => Request::Done,
            ApplyPhase::Failed(_) => Request::Done,
        }
    }

    /// Moves on by what came of the request, with `timestamp` as the time
    /// of the step.
    pub fn step_at(self, reply: Reply, timestamp: String) -> (next: Apply)
        ensures
            next@ == apply_next(self@, reply@, timestamp@),
    {
        let phase = match self.phase {
            ApplyPhase::AwaitingPrivilege { key, value_name, data } => match reply {
                Reply::Privilege(answer) => if is_admin(answer) {
                    ApplyPhase::AwaitingRead { key, value_name, data }
                } else {
                    ApplyPhase::Failed(MutationError::PrivilegeRequired)
                },
                _ => ApplyPhase::AwaitingPrivilege { key, value_name, data },
            },
            ApplyPhase::AwaitingRead { key, value_name, data } => match reply {
                Reply::ValueRead(Some(previous)) => ApplyPhase::AwaitingBackup {
                    data,
                    record: BackupRecord {
                        timestamp,
                        target_key: key,
                        target_value_name: value_name,
                        previous_data: previous,
                    },
                },
                Reply::ValueRead(None) => ApplyPhase::AwaitingWrite {
                    key,
                    value_name,
                    data,
                    backup_file: None,
                },
                _ => ApplyPhase::AwaitingRead { key, value_name, data },
            },
            ApplyPhase::AwaitingBackup { data, record } => match reply {
                Reply::BackupPersisted(true) => {
                    let file = record.path();
                    ApplyPhase::AwaitingWrite {
                        key: record.target_key,
                        value_name: record.target_value_name,
                        data,
                        backup_file: Some(file),
                    }
                },
                Reply::BackupPersisted(false) => ApplyPhase::Failed(
                    MutationError::BackupPersistFailed,
                ),
                _ => ApplyPhase::AwaitingBackup { data, record },
            },
            ApplyPhase::AwaitingWrite { key, value_name, data, backup_file } => match reply {
                Reply::ValueWritten(Ok(_)) => ApplyPhase::Applied {
                    key,
                    value_name,
                    data,
                    backup_file,
                },
                Reply::ValueWritten(Err(fault)) => ApplyPhase::Failed(fault.error()),
                _ => ApplyPhase::AwaitingWrite { key, value_name, data, backup_file },
            },
            ApplyPhase::Applied { key, value_name, data, backup_file } => ApplyPhase::Applied {
                key,
                value_name,
                data,
                backup_file,
            },
            ApplyPhase::Failed(e) => ApplyPhase::Failed(e),
        };
        Apply { phase }
    }

    /// Moves on by what came of the request. Where the step stamps a
    /// record, the stamp is the local time of the call; every other step
    /// is the same at any time.
    pub fn step(self, reply: Reply) -> (next: Apply)
        ensures
            exists|timestamp: Seq<char>| next@ == #[trigger] apply_next(self@, reply@, timestamp),
            !stamps_record(self@, reply@) ==> next@ == apply_next(
                self@,
                reply@,
                Seq::<char>::empty(),
            ),
    {
        let stamps = match (&self.phase, &reply) {
            (ApplyPhase::AwaitingRead { .. }, Reply::ValueRead(Some(_))) => true,
            _ => false,
        };
        let timestamp = if stamps {
            timestamp_now()
        } else {
            String::new()
        };
        let next = self.step_at(reply, timestamp);
        next
    }

    /// How the change ended: nothing while it is under way, what was done,
    /// or the failure.
    pub fn outcome(&self) -> (r: Option<Result<Applied, MutationError>>)
        ensures
            match self@ {
                ApplyView::Applied { key, value_name, data, backup_file } => {
                    &&& r matches Some(Ok(done))
                    &&& done@ == (AppliedView { key, value_name, data, backup_file })
                },
                ApplyView::Failed(e) => r matches Some(Err(failure)) && failure@ == e,
                _ => r is None,
            },
    {
        match &self.phase {
            ApplyPhase::Applied { key, value_name, data, backup_file } => Some(
                Ok(
                    Applied {
                        key: key.clone(),
                        value_name: value_name.clone(),
                        data: *data,
                        backup_file: copy_of_file(backup_file),
                    },
                ),
            ),
            ApplyPhase::Failed(e) => Some(Err(e.copy())),
            _ => None,
        }
    }
}

} // verus!
