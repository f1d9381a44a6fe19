//! Backup records, the files they are kept in, and the rollback of a change
//! from its record.

use crate::error::{MutationError, MutationErrorView};
use crate::fixes::{fault_error, Reply, ReplyView, Request, RequestView};
use crate::text::{replace_char, replaced};
use crate::utils::privileges::{elevated, is_admin};
use vstd::prelude::*;
use vstd::string::StringExecFns;

verus! {

/// The value that a key held before it was changed. A record is made once,
/// before the change, and is never altered afterwards.
#[derive(Debug, Clone)]
pub struct BackupRecord {
    pub timestamp: String,
    pub target_key: String,
    pub target_value_name: String,
    pub previous_data: u32,
}

/// A `BackupRecord` as contracts see it, with texts as sequences of characters.
pub struct BackupRecordView {
    pub timestamp: Seq<char>,
    pub target_key: Seq<char>,
    pub target_value_name: Seq<char>,
    pub previous_data: u32,
}

impl View for BackupRecord {
    type V = BackupRecordView;

    open spec fn view(&self) -> BackupRecordView {
        BackupRecordView {
            timestamp: self.timestamp@,
            target_key: self.target_key@,
            target_value_name: self.target_value_name@,
            previous_data: self.previous_data,
        }
    }
}

impl DeepView for BackupRecord {
    type V = BackupRecordView;

    open spec fn deep_view(&self) -> BackupRecordView {
        self@
    }
}

/// The name of the file that keeps the backup of `value_name` taken at
/// `timestamp`: both are in the name, with every backslash of the value
/// name written as an underscore. The key is not in the name: two backups
/// of one value name with one stamp share the name, and the second of them
/// is not taken.
pub open spec fn backup_file_name(timestamp: Seq<char>, value_name: Seq<char>) -> Seq<char> {
    "backup_"@ + timestamp + "_"@ + replaced(value_name, '\\', "_"@) + ".json"@
}

/// The file that keeps the backup, in the directory of all backups.
pub open spec fn backup_path(timestamp: Seq<char>, value_name: Seq<char>) -> Seq<char> {
    "backups/"@ + backup_file_name(timestamp, value_name)
}

/// The file that keeps `record`.
pub open spec fn record_path(record: BackupRecordView) -> Seq<char> {
    backup_path(record.timestamp, record.target_value_name)
}

/// Backups taken at different times, or of values with different names,
/// are kept in different files: where two stamps are of one length and the
/// files are the same, the stamps are the same, and so are the value names
/// as the file name writes them.
pub proof fn same_file_means_same_backup(
    first_stamp: Seq<char>,
    first_value: Seq<char>,
    second_stamp: Seq<char>,
    second_value: Seq<char>,
)
    requires
        first_stamp.len() == second_stamp.len(),
        backup_path(first_stamp, first_value) == backup_path(second_stamp, second_value),
    ensures
        first_stamp == second_stamp,
        replaced(first_value, '\\', "_"@) == replaced(second_value, '\\', "_"@),
{
    reveal_strlit("backups/");
    reveal_strlit("backup_");
    reveal_strlit("_");
    reveal_strlit(".json");
    let first = backup_path(first_stamp, first_value);
    let second = backup_path(second_stamp, second_value);
    let first_name = replaced(first_value, '\\', "_"@);
    let second_name = replaced(second_value, '\\', "_"@);
    let stamp_at = 15int;
    let name_at = 16 + first_stamp.len();
    assert(first.len() == 21 + first_stamp.len() + first_name.len());
    assert(second.len() == 21 + second_stamp.len() + second_name.len());
    assert forall|i: int| 0 <= i < first_stamp.len() implies first_stamp[i] == second_stamp[i] by {
        assert(first[stamp_at + i] == first_stamp[i]);
        assert(second[stamp_at + i] == second_stamp[i]);
    }
    assert(first_stamp =~= second_stamp);
    assert forall|i: int| 0 <= i < first_name.len() implies first_name[i] == second_name[i] by {
        assert(first[name_at + i] == first_name[i]);
        assert(second[name_at + i] == second_name[i]);
    }
    assert(first_name =~= second_name);
}

/// The pattern in which the time of a backup is written: year, month, day,
/// an underscore, hour, minute, second.
pub const TIMESTAMP_PATTERN: &'static str = "%Y%m%d_%H%M%S";

/// `chrono`'s `Local::now`, `format` and `to_string`: the local time at the
/// moment of the call, written after `pattern`. The text depends on the
/// clock and the time zone, so nothing is claimed of it. `pattern` is the
/// one pattern of backup stamps, which `chrono` can write; with a pattern
/// that it cannot write, or with a clock that stands before 1970, `chrono`
/// stops the program.
#[verifier::external_body]
fn local_time_text(pattern: &str) -> (text: String)
    requires
        pattern@ == TIMESTAMP_PATTERN@,
{
    chrono::Local::now().format(pattern).to_string()
}

/// The local time of the call, written after the pattern of backup stamps.
pub(crate) fn timestamp_now() -> (text: String) {
    local_time_text(TIMESTAMP_PATTERN)
}

/// The record with the given parts.
pub fn backup_record(
    subkey: &str,
    value: &str,
    data: u32,
    timestamp: String,
) -> (record: BackupRecord)
    ensures
        record@ == (BackupRecordView {
            timestamp: timestamp@,
            target_key: subkey@,
            target_value_name: value@,
            previous_data: data,
        }),
{
    BackupRecord {
        timestamp,
        target_key: subkey.to_owned(),
        target_value_name: value.to_owned(),
        previous_data: data,
    }
}

/// Makes the record of the value `data` that `value` under `subkey` holds
/// now, stamped with the local time. The caller puts it into durable
/// storage under `record.path()`, in a file that it creates anew, before
/// it changes the value. Nothing here touches a record that is there.
pub fn backup_registry_value(subkey: &str, value: &str, data: u32) -> (record: BackupRecord)
    ensures
        record@.target_key == subkey@,
        record@.target_value_name == value@,
        record@.previous_data == data,
{
    let timestamp = timestamp_now();
    backup_record(subkey, value, data, timestamp)
}

impl BackupRecord {
    /// The name of the file that keeps this record.
    pub fn file_name(&self) -> (name: String)
        ensures
            name@ == backup_file_name(self@.timestamp, self@.target_value_name),
    {
        let mut name = String::from_str("backup_");
        name.append(self.timestamp.as_str());
        name.append("_");
        let value = replace_char(self.target_value_name.as_str(), '\\', "_");
        name.append(value.as_str());
        name.append(".json");
        name
    }

    /// The file that keeps this record, in the directory of all backups.
    pub fn path(&self) -> (path: String)
        ensures
            path@ == record_path(self@),
    {
        let mut path = String::from_str("backups/");
        let name = self.file_name();
        path.append(name.as_str());
        path
    }

    /// A copy of this record.
    pub fn copy(&self) -> (r: BackupRecord)
        ensures
            r@ == self@,
    {
        BackupRecord {
            timestamp: self.timestamp.clone(),
            target_key: self.target_key.clone(),
            target_value_name: self.target_value_name.clone(),
            previous_data: self.previous_data,
        }
    }
}

/// Where a rollback stands.
pub enum RollbackView {
    /// Nothing has been asked yet but whether the caller may change the
    /// store.
    AwaitingPrivilege { file: Seq<char> },
    /// The caller holds elevated rights; the record is being loaded.
    AwaitingBackup { file: Seq<char> },
    /// The record is here; its value is being written back.
    AwaitingWrite { record: BackupRecordView },
    /// The key holds the value of the record again.
    RolledBack { record: BackupRecordView },
    /// The rollback broke off.
    Failed(MutationErrorView),
}

/// Where a rollback stands, with what it holds at that point.
#[derive(Debug)]
enum RollbackPhase {
    AwaitingPrivilege { file: String },
    AwaitingBackup { file: String },
    AwaitingWrite { record: BackupRecord },
    RolledBack { record: BackupRecord },
    Failed(MutationError),
}

/// The rollback of one change from its backup file. It starts at the
/// privilege gate and can only be moved on by `step`.
#[derive(Debug)]
pub struct Rollback {
    phase: RollbackPhase,
}

impl View for Rollback {
    type V = RollbackView;

    closed spec fn view(&self) -> RollbackView {
        match self.phase {
            RollbackPhase::AwaitingPrivilege { file } => RollbackView::AwaitingPrivilege {
                file: file@,
            },
            RollbackPhase::AwaitingBackup { file } => RollbackView::AwaitingBackup { file: file@ },
            RollbackPhase::AwaitingWrite { record } => RollbackView::AwaitingWrite {
                record: record@,
            },
            RollbackPhase::RolledBack { record } => RollbackView::RolledBack { record: record@ },
            RollbackPhase::Failed(e) => RollbackView::Failed(e@),
        }
    }
}

/// The request that a rollback in state `s` waits on.
pub open spec fn rollback_request(s: RollbackView) -> RequestView {
    match s {
        RollbackView::AwaitingPrivilege { .. } => RequestView::CheckPrivilege,
        RollbackView::AwaitingBackup { file } => RequestView::LoadBackup { file },
        RollbackView::AwaitingWrite { record } => RequestView::WriteValue {
            key: record.target_key,
            value_name: record.target_value_name,
            data: record.previous_data,
        },
        RollbackView::RolledBack { .. } => RequestView::Done,
        RollbackView::Failed(_) => RequestView::Done,
    }
}

/// The state after `reply` came in state `s`. A reply to a request that
/// the state does not wait on leaves the state as it is.
pub open spec fn rollback_next(s: RollbackView, reply: ReplyView) -> RollbackView {
    match s {
        RollbackView::AwaitingPrivilege { file } => match reply {
            ReplyView::Privilege(answer) => if elevated(answer) {
                RollbackView::AwaitingBackup { file }
            } else {
                RollbackView::Failed(MutationErrorView::PrivilegeRequired)
            },
            _ => s,
        },
        RollbackView::AwaitingBackup { file } => match reply {
            ReplyView::BackupLoaded(Some(record)) => RollbackView::AwaitingWrite { record },
            ReplyView::BackupLoaded(None) => RollbackView::Failed(
                MutationErrorView::BackupCorrupt { file },
            ),
            _ => s,
        },
        RollbackView::AwaitingWrite { record } => match reply {
            ReplyView::ValueWritten(Ok(_)) => RollbackView::RolledBack { record },
            ReplyView::ValueWritten(Err(fault)) => RollbackView::Failed(fault_error(fault)),
            _ => s,
        },
        RollbackView::RolledBack { .. } => s,
        RollbackView::Failed(_) => s,
    }
}

/// Starts the rollback of the change whose backup `backup_file` keeps.
/// Nothing is read or written before the privilege gate has let the caller
/// through.
pub fn rollback_from_file(backup_file: &str) -> (rollback: Rollback)
    ensures
        rollback@ == (RollbackView::AwaitingPrivilege { file: backup_file@ }),
{
    Rollback { phase: RollbackPhase::AwaitingPrivilege { file: backup_file.to_owned() } }
}

impl Rollback {
    /// What the caller has to do next.
    pub fn request(&self) -> (request: Request)
        ensures
            request@ == rollback_request(self@),
    {
        match &self.phase {
            RollbackPhase::AwaitingPrivilege { .. } => Request::CheckPrivilege,
            RollbackPhase::AwaitingBackup { file } => Request::LoadBackup { file: file.clone() },
            RollbackPhase::AwaitingWrite { record } => Request::WriteValue {
                key: record.target_key.clone(),
                value_name: record.target_value_name.clone(),
                data: record.previous_data,
            },
            RollbackPhase::RolledBack { .. } => Request::Done,
            RollbackPhase::Failed(_) => Request::Done,
        }
    }

    /// Moves on by what came of the request.
    pub fn step(self, reply: Reply) -> (next: Rollback)
        ensures
            next@ == rollback_next(self@, reply@),
    {
        let phase = match self.phase {
            RollbackPhase::AwaitingPrivilege { file } => match reply {
                Reply::Privilege(answer) => if is_admin(answer) {
                    RollbackPhase::AwaitingBackup { file }
                } else {
                    RollbackPhase::Failed(MutationError::PrivilegeRequired)
                },
                _ => RollbackPhase::AwaitingPrivilege { file },
            },
            RollbackPhase::AwaitingBackup { file } => match reply {
                Reply::BackupLoaded(Some(record)) => RollbackPhase::AwaitingWrite { record },
                Reply::BackupLoaded(None) => RollbackPhase::Failed(
                    MutationError::BackupCorrupt { file },
                ),
                _ => RollbackPhase::AwaitingBackup { file },
            },
            RollbackPhase::AwaitingWrite { record } => match reply {
                Reply::ValueWritten(Ok(_)) => RollbackPhase::RolledBack { record },
                Reply::ValueWritten(Err(fault)) => RollbackPhase::Failed(fault.error()),
                _ => RollbackPhase::AwaitingWrite { record },
            },
            RollbackPhase::RolledBack { record } => RollbackPhase::RolledBack { record },
            RollbackPhase::Failed(e) => RollbackPhase::Failed(e),
        };
        Rollback { phase }
    }

    /// How the rollback ended: nothing while it is under way, the record
    /// that was restored, or the failure.
    pub fn outcome(&self) -> (r: Option<Result<BackupRecord, MutationError>>)
        ensures
            match self@ {
                RollbackView::RolledBack { record } => r matches Some(Ok(restored)) && restored@
                    == record,
                RollbackView::Failed(e) => r matches Some(Err(failure)) && failure@ == e,
                _ => r is None,
            },
    {
        match &self.phase {
            RollbackPhase::RolledBack { record } => Some(Ok(record.copy())),
            RollbackPhase::Failed(e) => Some(Err(e.copy())),
            _ => None,
        }
    }
}

} // verus!
