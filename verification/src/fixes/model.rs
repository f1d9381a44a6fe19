//! What the protocol achieves: a model of the platform that carries out
//! the requests, and the laws of backup and rollback over it.

use crate::error::MutationErrorView;
use crate::fixes::backup::{
    backup_path, record_path, rollback_next, rollback_request, BackupRecordView, RollbackView,
};
use crate::fixes::registry::{apply_next, apply_request, ApplyView};
use crate::fixes::{fault_error, ReplyView, RequestView, WriteFault};
use crate::utils::privileges::elevated;
use vstd::prelude::*;

verus! {

/// A platform: the answer it gives to the question of privilege, the values
/// of its configuration store by key and value name, the records in its
/// durable storage by file, and what goes wrong on it: whether its storage
/// takes backups, and the fault with which its store refuses writes. Its
/// storage only ever grows: a record that is there is never replaced.
pub struct Platform {
    pub privilege: Option<i32>,
    pub values: Map<(Seq<char>, Seq<char>), u32>,
    pub backups: Map<Seq<char>, BackupRecordView>,
    pub takes_backups: bool,
    pub write_fault: Option<WriteFault>,
}

impl Platform {
    /// Nothing goes wrong on this platform.
    pub open spec fn sound(self) -> bool {
        self.takes_backups && self.write_fault is None
    }
}

/// What a platform makes of `request`: its state afterwards and its reply.
/// Reading, loading and the question of privilege change nothing. A backup
/// is kept under its file where the file is not there yet, and a value
/// under its key and name. Where the file is there already, or where the
/// platform is one on which the request goes wrong, nothing changes and
/// the reply says so.
pub open spec fn respond(platform: Platform, request: RequestView) -> (Platform, ReplyView) {
    match request {
        RequestView::CheckPrivilege => (platform, ReplyView::Privilege(platform.privilege)),
        RequestView::ReadValue { key, value_name } => (
            platform,
            ReplyView::ValueRead(
                if platform.values.contains_key((key, value_name)) {
                    Some(platform.values[(key, value_name)])
                } else {
                    None
                },
            ),
        ),
        RequestView::PersistBackup {
            file,
            record,
        } => if platform.takes_backups && !platform.backups.contains_key(file) {
            (
                Platform { backups: platform.backups.insert(file, record), ..platform },
                ReplyView::BackupPersisted(true),
            )
        } else {
            (platform, ReplyView::BackupPersisted(false))
        },
        RequestView::LoadBackup { file } => (
            platform,
            ReplyView::BackupLoaded(
                if platform.backups.contains_key(file) {
                    Some(platform.backups[file])
                } else {
                    None
                },
            ),
        ),
        RequestView::WriteValue { key, value_name, data } => match platform.write_fault {
            None => (
                Platform { values: platform.values.insert((key, value_name), data), ..platform },
                ReplyView::ValueWritten(Ok(())),
            ),
            Some(fault) => (platform, ReplyView::ValueWritten(Err(fault))),
        },
        RequestView::Done => (platform, ReplyView::BackupPersisted(true)),
    }
}

/// The platform and the change after at most `steps` requests were carried
/// out on the platform, with `timestamp` as the time of every step.
pub open spec fn run_apply(
    platform: Platform,
    change: ApplyView,
    timestamp: Seq<char>,
    steps: nat,
) -> (Platform, ApplyView)
    decreases steps,
{
    if steps == 0 || apply_request(change) is Done {
        (platform, change)
    } else {
        let (after, reply) = respond(platform, apply_request(change));
        run_apply(after, apply_next(change, reply, timestamp), timestamp, (steps - 1) as nat)
    }
}

/// The platform and the rollback after at most `steps` requests were
/// carried out on the platform.
pub open spec fn run_rollback(platform: Platform, rollback: RollbackView, steps: nat) -> (
    Platform,
    RollbackView,
)
    decreases steps,
{
    if steps == 0 || rollback_request(rollback) is Done {
        (platform, rollback)
    } else {
        let (after, reply) = respond(platform, rollback_request(rollback));
        run_rollback(after, rollback_next(rollback, reply), (steps - 1) as nat)
    }
}

/// The change of `value_name` under `key` to `data`, before anything was
/// asked.
pub open spec fn apply_start(key: Seq<char>, value_name: Seq<char>, data: u32) -> ApplyView {
    ApplyView::AwaitingPrivilege { key, value_name, data }
}

/// The rollback from `file`, before anything was asked.
pub open spec fn rollback_start(file: Seq<char>) -> RollbackView {
    RollbackView::AwaitingPrivilege { file }
}

/// A change gets through in four requests: the value that was there is in
/// a record under the file that the change names, and the key holds the new
/// value. The file is new: the storage holds what it held before and the
/// one record more.
pub proof fn apply_backs_up_then_writes(
    platform: Platform,
    key: Seq<char>,
    value_name: Seq<char>,
    data: u32,
    timestamp: Seq<char>,
)
    requires
        platform.sound(),
        elevated(platform.privilege),
        platform.values.contains_key((key, value_name)),
        !platform.backups.contains_key(backup_path(timestamp, value_name)),
    ensures
        ({
            let previous = platform.values[(key, value_name)];
            let record = BackupRecordView {
                timestamp,
                target_key: key,
                target_value_name: value_name,
                previous_data: previous,
            };
            let (after, change) = run_apply(
                platform,
                apply_start(key, value_name, data),
                timestamp,
                4,
            );
            &&& change == (ApplyView::Applied {
                key,
                value_name,
                data,
                backup_file: Some(record_path(record)),
            })
            &&& after.values == platform.values.insert((key, value_name), data)
            &&& after.backups == platform.backups.insert(record_path(record), record)
            &&& after.privilege == platform.privilege
            &&& after.sound()
        }),
{
    reveal_with_fuel(run_apply, 5);
}

/// Where the key holds no value that can be read, the change writes
/// without a backup and says so: it names no file.
pub proof fn apply_without_previous_value(
    platform: Platform,
    key: Seq<char>,
    value_name: Seq<char>,
    data: u32,
    timestamp: Seq<char>,
)
    requires
        platform.sound(),
        elevated(platform.privilege),
        !platform.values.contains_key((key, value_name)),
    ensures
        ({
            let (after, change) = run_apply(
                platform,
                apply_start(key, value_name, data),
                timestamp,
                4,
            );
            &&& change == (ApplyView::Applied { key, value_name, data, backup_file: None })
            &&& after.values == platform.values.insert((key, value_name), data)
            &&& after.backups == platform.backups
        }),
{
    reveal_with_fuel(run_apply, 5);
}

/// Backup and rollback: where a key holds a value and the file of its
/// backup is not taken, a change of it followed by the rollback from the
/// file that the change named leaves the store as it was before the change.
/// A second rollback from the same file changes nothing.
pub proof fn rollback_restores_what_apply_changed(
    platform: Platform,
    key: Seq<char>,
    value_name: Seq<char>,
    data: u32,
    timestamp: Seq<char>,
)
    requires
        platform.sound(),
        elevated(platform.privilege),
        platform.values.contains_key((key, value_name)),
        !platform.backups.contains_key(backup_path(timestamp, value_name)),
    ensures
        ({
            let previous = platform.values[(key, value_name)];
            let (changed, change) = run_apply(
                platform,
                apply_start(key, value_name, data),
                timestamp,
                4,
            );
            let file = change->Applied_backup_file->0;
            let (restored, first) = run_rollback(changed, rollback_start(file), 3);
            let (again, second) = run_rollback(restored, rollback_start(file), 3);
            &&& change is Applied
            &&& change->Applied_backup_file is Some
            &&& changed.values[(key, value_name)] == data
            &&& changed.backups[file].previous_data == previous
            &&& first is RolledBack
            &&& restored.values[(key, value_name)] == previous
            &&& restored.values == platform.values
            &&& second is RolledBack
            &&& again == restored
        }),
{
    apply_backs_up_then_writes(platform, key, value_name, data, timestamp);
    reveal_with_fuel(run_rollback, 4);
    let previous = platform.values[(key, value_name)];
    assert(platform.values.insert((key, value_name), data).insert((key, value_name), previous)
        =~= platform.values);
    let (changed, change) = run_apply(platform, apply_start(key, value_name, data), timestamp, 4);
    let file = change->Applied_backup_file->0;
    let (restored, first) = run_rollback(changed, rollback_start(file), 3);
    assert(restored.values =~= platform.values);
    assert(restored.values.insert((key, value_name), previous) =~= restored.values);
}

/// Without privilege nothing happens: a change and a rollback both end
/// with `PrivilegeRequired` after the one question, and the platform is as
/// it was.
pub proof fn nothing_changes_without_privilege(
    platform: Platform,
    key: Seq<char>,
    value_name: Seq<char>,
    data: u32,
    timestamp: Seq<char>,
    file: Seq<char>,
    steps: nat,
)
    requires
        !elevated(platform.privilege),
        steps >= 1,
    ensures
        run_apply(platform, apply_start(key, value_name, data), timestamp, steps) == (
            platform,
            ApplyView::Failed(MutationErrorView::PrivilegeRequired),
        ),
        run_rollback(platform, rollback_start(file), steps) == (
            platform,
            RollbackView::Failed(MutationErrorView::PrivilegeRequired),
        ),
{
    reveal_with_fuel(run_apply, 3);
    reveal_with_fuel(run_rollback, 3);
}

/// The write is asked for only after the backup: a step of a change leads
/// to the request to write only from a backup that is in durable storage,
/// from a value that could not be read, or from a state that waited on the
/// write already.
pub proof fn write_follows_backup(s: ApplyView, reply: ReplyView, timestamp: Seq<char>)
    requires
        apply_request(apply_next(s, reply, timestamp)) is WriteValue,
    ensures
        ({
            ||| s is AwaitingBackup && reply == ReplyView::BackupPersisted(true)
            ||| s is AwaitingRead && reply == ReplyView::ValueRead(None)
            ||| s is AwaitingWrite
        }),
        s is AwaitingBackup ==> apply_next(s, reply, timestamp)->AwaitingWrite_backup_file == Some(
            record_path(s->AwaitingBackup_record),
        ),
{
}

/// The change after the replies came in, one after the other, whatever was
/// asked for.
pub open spec fn apply_after(
    change: ApplyView,
    replies: Seq<ReplyView>,
    timestamp: Seq<char>,
) -> ApplyView
    decreases replies.len(),
{
    if replies.len() == 0 {
        change
    } else {
        apply_next(apply_after(change, replies.drop_last(), timestamp), replies.last(), timestamp)
    }
}

/// The rollback after the replies came in, one after the other, whatever
/// was asked for.
pub open spec fn rollback_after(rollback: RollbackView, replies: Seq<ReplyView>) -> RollbackView
    decreases replies.len(),
{
    if replies.len() == 0 {
        rollback
    } else {
        rollback_next(rollback_after(rollback, replies.drop_last()), replies.last())
    }
}

/// The reply says that the caller holds elevated rights.
pub open spec fn lets_through(reply: ReplyView) -> bool {
    reply matches ReplyView::Privilege(answer) && elevated(answer)
}

/// Privilege comes first, whatever the caller does: as long as no reply
/// says that the caller holds elevated rights, a change and a rollback ask
/// for nothing but the answer to the question of privilege, or for nothing
/// at all.
pub proof fn nothing_is_asked_before_the_gate(
    key: Seq<char>,
    value_name: Seq<char>,
    data: u32,
    file: Seq<char>,
    replies: Seq<ReplyView>,
    timestamp: Seq<char>,
)
    requires
        forall|i: int| 0 <= i < replies.len() ==> !lets_through(#[trigger] replies[i]),
    ensures
        ({
            let change = apply_after(apply_start(key, value_name, data), replies, timestamp);
            change == apply_start(key, value_name, data) || change == ApplyView::Failed(
                MutationErrorView::PrivilegeRequired,
            )
        }),
        ({
            let rollback = rollback_after(rollback_start(file), replies);
            rollback == rollback_start(file) || rollback == RollbackView::Failed(
                MutationErrorView::PrivilegeRequired,
            )
        }),
        ({
            let asked = apply_request(
                apply_after(apply_start(key, value_name, data), replies, timestamp),
            );
            asked is CheckPrivilege || asked is Done
        }),
        ({
            let asked = rollback_request(rollback_after(rollback_start(file), replies));
            asked is CheckPrivilege || asked is Done
        }),
    decreases replies.len(),
{
    if replies.len() > 0 {
        let front = replies.drop_last();
        assert forall|i: int| 0 <= i < front.len() implies !lets_through(#[trigger] front[i]) by {
            assert(front[i] == replies[i]);
        }
        nothing_is_asked_before_the_gate(key, value_name, data, file, front, timestamp);
        assert(!lets_through(replies[replies.len() - 1]));
    }
}

/// The write is never asked for without a backup, whatever the caller
/// does: where a change asks for the write after any replies at all, one
/// of the replies said that the backup is in durable storage, or that
/// there was no value to back up. And one said that the caller holds
/// elevated rights.
pub proof fn write_is_asked_only_after_backup(
    key: Seq<char>,
    value_name: Seq<char>,
    data: u32,
    replies: Seq<ReplyView>,
    timestamp: Seq<char>,
)
    requires
        apply_request(apply_after(apply_start(key, value_name, data), replies, timestamp))
            is WriteValue,
    ensures
        exists|i: int|
            0 <= i < replies.len() && (#[trigger] replies[i] == ReplyView::BackupPersisted(true)
                || replies[i] == ReplyView::ValueRead(None)),
        exists|i: int| 0 <= i < replies.len() && lets_through(#[trigger] replies[i]),
    decreases replies.len(),
{
    let start = apply_start(key, value_name, data);
    let front = replies.drop_last();
    let before = apply_after(start, front, timestamp);
    let last = replies.last();
    if !(exists|i: int| 0 <= i < replies.len() && lets_through(#[trigger] replies[i])) {
        nothing_is_asked_before_the_gate(key, value_name, data, Seq::empty(), replies, timestamp);
    }
    if apply_request(before) is WriteValue {
        write_is_asked_only_after_backup(key, value_name, data, front, timestamp);
        let i = choose|i: int|
            0 <= i < front.len() && (#[trigger] front[i] == ReplyView::BackupPersisted(true)
                || front[i] == ReplyView::ValueRead(None));
        assert(replies[i] == front[i]);
    } else {
        write_follows_backup(before, last, timestamp);
        assert(replies[replies.len() - 1] == last);
    }
}

/// A backup that did not reach durable storage ends the change before the
/// write, and a change that has ended asks for nothing more, whatever
/// reply comes.
pub proof fn failed_backup_stops_the_change(s: ApplyView, timestamp: Seq<char>)
    requires
        s is AwaitingBackup,
    ensures
        apply_next(s, ReplyView::BackupPersisted(false), timestamp) == ApplyView::Failed(
            MutationErrorView::BackupPersistFailed,
        ),
        forall|ended: ApplyView, reply: ReplyView|
            apply_request(ended) is Done ==> #[trigger] apply_next(ended, reply, timestamp)
                == ended,
{
}

/// A write that the store refuses changes no value: the change ends with
/// the failure that stands for the fault, and the backup that was taken
/// before, in a file of its own, stays where it is.
pub proof fn refused_write_changes_no_value(
    platform: Platform,
    key: Seq<char>,
    value_name: Seq<char>,
    data: u32,
    timestamp: Seq<char>,
)
    requires
        elevated(platform.privilege),
        platform.takes_backups,
        platform.write_fault is Some,
        platform.values.contains_key((key, value_name)),
        !platform.backups.contains_key(backup_path(timestamp, value_name)),
    ensures
        ({
            let record = BackupRecordView {
                timestamp,
                target_key: key,
                target_value_name: value_name,
                previous_data: platform.values[(key, value_name)],
            };
            let (after, change) = run_apply(
                platform,
                apply_start(key, value_name, data),
                timestamp,
                4,
            );
            &&& change == ApplyView::Failed(fault_error(platform.write_fault->0))
            &&& after.values == platform.values
            &&& after.backups == platform.backups.insert(record_path(record), record)
        }),
{
    reveal_with_fuel(run_apply, 5);
}

/// No request replaces or removes a record: what the storage held before
/// a request, it holds afterwards, file by file.
pub proof fn respond_keeps_every_record(platform: Platform, request: RequestView, file: Seq<char>)
    requires
        platform.backups.contains_key(file),
    ensures
        respond(platform, request).0.backups.contains_key(file),
        respond(platform, request).0.backups[file] == platform.backups[file],
{
}

/// Records are never replaced, altered or removed: whatever a change or a
/// rollback is at, and however many requests of it are carried out, every
/// record that the storage held before is still there afterwards, under
/// the same file and the same in every part.
pub proof fn earlier_backups_stay(
    platform: Platform,
    change: ApplyView,
    rollback: RollbackView,
    timestamp: Seq<char>,
    steps: nat,
    file: Seq<char>,
)
    requires
        platform.backups.contains_key(file),
    ensures
        run_apply(platform, change, timestamp, steps).0.backups.contains_key(file),
        run_apply(platform, change, timestamp, steps).0.backups[file] == platform.backups[file],
        run_rollback(platform, rollback, steps).0.backups.contains_key(file),
        run_rollback(platform, rollback, steps).0.backups[file] == platform.backups[file],
    decreases steps,
{
    if steps > 0 {
        let (after_apply, reply_apply) = respond(platform, apply_request(change));
        let (after_rollback, reply_rollback) = respond(platform, rollback_request(rollback));
        respond_keeps_every_record(platform, apply_request(change), file);
        respond_keeps_every_record(platform, rollback_request(rollback), file);
        earlier_backups_stay(
            after_apply,
            apply_next(change, reply_apply, timestamp),
            rollback_next(rollback, reply_rollback),
            timestamp,
            (steps - 1) as nat,
            file,
        );
        earlier_backups_stay(
            after_rollback,
            apply_next(change, reply_apply, timestamp),
            rollback_next(rollback, reply_rollback),
            timestamp,
            (steps - 1) as nat,
            file,
        );
    }
}

/// A change whose backup file is taken ends with `BackupPersistFailed`
/// before the write is asked for: the record that holds the file stays, no
/// value changes, and the platform is as it was.
pub proof fn taken_file_stops_the_change(
    platform: Platform,
    key: Seq<char>,
    value_name: Seq<char>,
    data: u32,
    timestamp: Seq<char>,
    steps: nat,
)
    requires
        elevated(platform.privilege),
        platform.values.contains_key((key, value_name)),
        platform.backups.contains_key(backup_path(timestamp, value_name)),
        steps >= 3,
    ensures
        run_apply(platform, apply_start(key, value_name, data), timestamp, steps) == (
            platform,
            ApplyView::Failed(MutationErrorView::BackupPersistFailed),
        ),
{
    reveal_with_fuel(run_apply, 5);
}

/// A backup that does not reach durable storage ends the change before
/// anything is written: the platform is as it was.
pub proof fn lost_backup_changes_nothing(
    platform: Platform,
    key: Seq<char>,
    value_name: Seq<char>,
    data: u32,
    timestamp: Seq<char>,
    steps: nat,
)
    requires
        elevated(platform.privilege),
        !platform.takes_backups,
        platform.values.contains_key((key, value_name)),
        steps >= 3,
    ensures
        run_apply(platform, apply_start(key, value_name, data), timestamp, steps) == (
            platform,
            ApplyView::Failed(MutationErrorView::BackupPersistFailed),
        ),
{
    reveal_with_fuel(run_apply, 5);
}

/// A rollback from a file that holds no record ends with `BackupCorrupt`
/// and names the file; the platform is as it was.
pub proof fn rollback_without_record_changes_nothing(
    platform: Platform,
    file: Seq<char>,
    steps: nat,
)
    requires
        elevated(platform.privilege),
        !platform.backups.contains_key(file),
        steps >= 2,
    ensures
        run_rollback(platform, rollback_start(file), steps) == (
            platform,
            RollbackView::Failed(MutationErrorView::BackupCorrupt { file }),
        ),
{
    reveal_with_fuel(run_rollback, 4);
}

} // verus!
