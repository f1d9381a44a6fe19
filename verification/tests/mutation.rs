use apex::error::MutationError;
use apex::fixes::backup::{
    backup_record, backup_registry_value, rollback_from_file, BackupRecord, Rollback,
};
use apex::fixes::registry::{write_dword_with_backup, Applied, Apply};
use apex::fixes::{Reply, Request, WriteFault};
use std::collections::HashMap;

const KEY: &str = "HKLM\\SYSTEM\\CurrentControlSet\\Control\\GraphicsDrivers";
const STAMP: &str = "20240131_235959";

/// A platform in memory that does as it is asked, unless told to fail.
struct Platform {
    privilege: Option<i32>,
    values: HashMap<(String, String), u32>,
    backups: HashMap<String, BackupRecord>,
    backup_fails: bool,
    write_fault: Option<WriteFault>,
    requests: Vec<String>,
}

impl Platform {
    fn new(privilege: Option<i32>) -> Platform {
        Platform {
            privilege,
            values: HashMap::new(),
            backups: HashMap::new(),
            backup_fails: false,
            write_fault: None,
            requests: Vec::new(),
        }
    }

    fn with_value(mut self, key: &str, name: &str, data: u32) -> Platform {
        self.values.insert((key.to_string(), name.to_string()), data);
        self
    }

    fn value(&self, key: &str, name: &str) -> Option<u32> {
        self.values.get(&(key.to_string(), name.to_string())).copied()
    }

    fn perform(&mut self, request: Request) -> Reply {
        match request {
            Request::CheckPrivilege => {
                self.requests.push("privilege".to_string());
                Reply::Privilege(self.privilege)
            }
            Request::ReadValue { key, value_name } => {
                self.requests.push("read".to_string());
                Reply::ValueRead(self.values.get(&(key, value_name)).copied())
            }
            Request::PersistBackup { file, record } => {
                self.requests.push("backup".to_string());
                if self.backup_fails || self.backups.contains_key(&file) {
                    Reply::BackupPersisted(false)
                } else {
                    self.backups.insert(file, record);
                    Reply::BackupPersisted(true)
                }
            }
            Request::LoadBackup { file } => {
                self.requests.push("load".to_string());
                Reply::BackupLoaded(self.backups.get(&file).cloned())
            }
            Request::WriteValue { key, value_name, data } => {
                self.requests.push("write".to_string());
                match self.write_fault {
                    Some(fault) => Reply::ValueWritten(Err(fault)),
                    None => {
                        self.values.insert((key, value_name), data);
                        Reply::ValueWritten(Ok(()))
                    }
                }
            }
            Request::Done => unreachable!(),
        }
    }
}

fn run_apply(platform: &mut Platform, mut change: Apply) -> Result<Applied, MutationError> {
    for _ in 0..10 {
        let request = change.request();
        if matches!(request, Request::Done) {
            break;
        }
        let reply = platform.perform(request);
        change = change.step_at(reply, STAMP.to_string());
    }
    change.outcome().expect("the change has ended")
}

fn run_rollback(platform: &mut Platform, mut rollback: Rollback) -> Result<BackupRecord, MutationError> {
    for _ in 0..10 {
        let request = rollback.request();
        if matches!(request, Request::Done) {
            break;
        }
        let reply = platform.perform(request);
        rollback = rollback.step(reply);
    }
    rollback.outcome().expect("the rollback has ended")
}

#[test]
fn apply_backs_up_the_previous_value_then_writes() {
    let mut platform = Platform::new(Some(1)).with_value(KEY, "HwSchMode", 1);
    let done = run_apply(&mut platform, write_dword_with_backup(KEY, "HwSchMode", 2)).unwrap();
    assert_eq!(platform.requests, vec!["privilege", "read", "backup", "write"]);
    assert_eq!(platform.value(KEY, "HwSchMode"), Some(2));
    assert_eq!(done.key, KEY);
    assert_eq!(done.value_name, "HwSchMode");
    assert_eq!(done.data, 2);
    let file = done.backup_file.expect("a backup was taken");
    assert_eq!(file, "backups/backup_20240131_235959_HwSchMode.json");
    let record = &platform.backups[&file];
    assert_eq!(record.previous_data, 1);
    assert_eq!(record.target_key, KEY);
    assert_eq!(record.target_value_name, "HwSchMode");
    assert_eq!(record.timestamp, STAMP);
}

#[test]
fn rollback_restores_the_previous_value_and_is_idempotent() {
    let mut platform = Platform::new(Some(1)).with_value(KEY, "HwSchMode", 1);
    let done = run_apply(&mut platform, write_dword_with_backup(KEY, "HwSchMode", 2)).unwrap();
    let file = done.backup_file.unwrap();
    assert_eq!(platform.value(KEY, "HwSchMode"), Some(2));

    platform.requests.clear();
    let restored = run_rollback(&mut platform, rollback_from_file(&file)).unwrap();
    assert_eq!(platform.requests, vec!["privilege", "load", "write"]);
    assert_eq!(restored.previous_data, 1);
    assert_eq!(platform.value(KEY, "HwSchMode"), Some(1));
    assert_eq!(platform.backups.len(), 1);

    let values_after_first = platform.values.clone();
    let again = run_rollback(&mut platform, rollback_from_file(&file)).unwrap();
    assert_eq!(again.previous_data, 1);
    assert_eq!(platform.values, values_after_first);
    assert_eq!(platform.backups.len(), 1);
}

#[test]
fn rollback_restores_any_previous_value() {
    for (previous, new) in [(0u32, 1u32), (7, 7), (u32::MAX, 0), (38, 2)] {
        let mut platform = Platform::new(Some(1))
            .with_value("Other\\Key", "Untouched", 99)
            .with_value("Some\\Key", "Value", previous);
        let before = platform.values.clone();
        let done = run_apply(&mut platform, write_dword_with_backup("Some\\Key", "Value", new));
        let file = done.unwrap().backup_file.unwrap();
        assert_eq!(platform.value("Some\\Key", "Value"), Some(new));
        run_rollback(&mut platform, rollback_from_file(&file)).unwrap();
        assert_eq!(platform.values, before);
    }
}

#[test]
fn apply_without_privilege_changes_nothing() {
    for answer in [None, Some(0), Some(2), Some(-1)] {
        let mut platform = Platform::new(answer).with_value(KEY, "HwSchMode", 1);
        let result = run_apply(&mut platform, write_dword_with_backup(KEY, "HwSchMode", 2));
        assert_eq!(result.unwrap_err(), MutationError::PrivilegeRequired);
        assert_eq!(platform.requests, vec!["privilege"]);
        assert_eq!(platform.value(KEY, "HwSchMode"), Some(1));
        assert!(platform.backups.is_empty());
    }
}

#[test]
fn rollback_without_privilege_changes_nothing() {
    let mut platform = Platform::new(Some(1)).with_value(KEY, "HwSchMode", 1);
    let done = run_apply(&mut platform, write_dword_with_backup(KEY, "HwSchMode", 2)).unwrap();
    let file = done.backup_file.unwrap();
    platform.privilege = Some(0);
    platform.requests.clear();
    let result = run_rollback(&mut platform, rollback_from_file(&file));
    assert_eq!(result.unwrap_err(), MutationError::PrivilegeRequired);
    assert_eq!(platform.requests, vec!["privilege"]);
    assert_eq!(platform.value(KEY, "HwSchMode"), Some(2));
    assert_eq!(platform.backups.len(), 1);
}

#[test]
fn apply_without_previous_value_writes_without_backup() {
    let mut platform = Platform::new(Some(1));
    let done = run_apply(&mut platform, write_dword_with_backup(KEY, "TdrDelay", 8)).unwrap();
    assert_eq!(platform.requests, vec!["privilege", "read", "write"]);
    assert_eq!(done.backup_file, None);
    assert_eq!(platform.value(KEY, "TdrDelay"), Some(8));
    assert!(platform.backups.is_empty());
}

#[test]
fn failed_backup_aborts_before_the_write() {
    let mut platform = Platform::new(Some(1)).with_value(KEY, "HwSchMode", 1);
    platform.backup_fails = true;
    let result = run_apply(&mut platform, write_dword_with_backup(KEY, "HwSchMode", 2));
    assert_eq!(result.unwrap_err(), MutationError::BackupPersistFailed);
    assert_eq!(platform.requests, vec!["privilege", "read", "backup"]);
    assert_eq!(platform.value(KEY, "HwSchMode"), Some(1));
}

#[test]
fn failed_write_is_reported_and_the_backup_stays() {
    for (fault, error) in [
        (WriteFault::AccessDenied, MutationError::AccessDenied),
        (WriteFault::KeyNotFound, MutationError::KeyNotFound),
        (WriteFault::Failed, MutationError::WriteFailed),
    ] {
        let mut platform = Platform::new(Some(1)).with_value(KEY, "HwSchMode", 1);
        platform.write_fault = Some(fault);
        let result = run_apply(&mut platform, write_dword_with_backup(KEY, "HwSchMode", 2));
        assert_eq!(result.unwrap_err(), error);
        assert_eq!(platform.requests, vec!["privilege", "read", "backup", "write"]);
        assert_eq!(platform.value(KEY, "HwSchMode"), Some(1));
        assert_eq!(platform.backups.len(), 1);
        assert_eq!(fault.error(), error);
    }
}

#[test]
fn rollback_from_a_missing_or_invalid_file_is_backup_corrupt() {
    let mut platform = Platform::new(Some(1)).with_value(KEY, "HwSchMode", 2);
    let result = run_rollback(&mut platform, rollback_from_file("backups/none.json"));
    assert_eq!(
        result.unwrap_err(),
        MutationError::BackupCorrupt { file: "backups/none.json".to_string() }
    );
    assert_eq!(platform.requests, vec!["privilege", "load"]);
    assert_eq!(platform.value(KEY, "HwSchMode"), Some(2));
}

#[test]
fn rollback_reports_a_failed_write() {
    let mut platform = Platform::new(Some(1)).with_value(KEY, "HwSchMode", 1);
    let done = run_apply(&mut platform, write_dword_with_backup(KEY, "HwSchMode", 2)).unwrap();
    platform.write_fault = Some(WriteFault::AccessDenied);
    let result = run_rollback(&mut platform, rollback_from_file(&done.backup_file.unwrap()));
    assert_eq!(result.unwrap_err(), MutationError::AccessDenied);
    assert_eq!(platform.value(KEY, "HwSchMode"), Some(2));
}

#[test]
fn unexpected_replies_leave_the_state_waiting() {
    let change = write_dword_with_backup(KEY, "HwSchMode", 2);
    let change = change.step_at(Reply::ValueWritten(Ok(())), STAMP.to_string());
    assert!(matches!(change.request(), Request::CheckPrivilege));
    assert!(change.outcome().is_none());
    let change = change.step_at(Reply::BackupPersisted(true), STAMP.to_string());
    assert!(matches!(change.request(), Request::CheckPrivilege));
    let change = change.step_at(Reply::Privilege(Some(1)), STAMP.to_string());
    assert!(matches!(change.request(), Request::ReadValue { .. }));
    let change = change.step_at(Reply::ValueWritten(Ok(())), STAMP.to_string());
    assert!(matches!(change.request(), Request::ReadValue { .. }));
    let change = change.step_at(Reply::ValueRead(Some(5)), STAMP.to_string());
    let change = change.step_at(Reply::ValueWritten(Ok(())), STAMP.to_string());
    assert!(matches!(change.request(), Request::PersistBackup { .. }));

    let rollback = rollback_from_file("backups/x.json");
    let rollback = rollback.step(Reply::BackupLoaded(Some(backup_record("k", "v", 1, "t".to_string()))));
    assert!(matches!(rollback.request(), Request::CheckPrivilege));
    assert!(rollback.outcome().is_none());
}

#[test]
fn a_change_that_has_ended_asks_for_nothing_more() {
    let change = write_dword_with_backup(KEY, "HwSchMode", 2)
        .step_at(Reply::Privilege(None), STAMP.to_string());
    assert!(matches!(change.request(), Request::Done));
    let change = change.step_at(Reply::Privilege(Some(1)), STAMP.to_string());
    assert!(matches!(change.request(), Request::Done));
    assert_eq!(change.outcome().unwrap().unwrap_err(), MutationError::PrivilegeRequired);
}

#[test]
fn backup_file_name_holds_timestamp_and_value_name() {
    let record = backup_record("Some\\Key", "Dir\\Value\\Name", 3, "20200102_030405".to_string());
    assert_eq!(record.file_name(), "backup_20200102_030405_Dir_Value_Name.json");
    assert_eq!(record.path(), "backups/backup_20200102_030405_Dir_Value_Name.json");
    let plain = backup_record("k", "HwSchMode", 3, String::new());
    assert_eq!(plain.file_name(), "backup__HwSchMode.json");
    let copy = record.copy();
    assert_eq!(copy.timestamp, record.timestamp);
    assert_eq!(copy.target_key, "Some\\Key");
    assert_eq!(copy.target_value_name, "Dir\\Value\\Name");
    assert_eq!(copy.previous_data, 3);
}

#[test]
fn backup_registry_value_stamps_the_record_with_the_local_time() {
    let record = backup_registry_value("Some\\Key", "HwSchMode", 1);
    assert_eq!(record.target_key, "Some\\Key");
    assert_eq!(record.target_value_name, "HwSchMode");
    assert_eq!(record.previous_data, 1);
    assert_ne!(record.timestamp, "%Y%m%d_%H%M%S");
    let stamp: Vec<char> = record.timestamp.chars().collect();
    assert_eq!(stamp.len(), 15);
    assert_eq!(stamp[8], '_');
    assert!(stamp.iter().enumerate().all(|(i, c)| i == 8 || c.is_ascii_digit()));
}

#[test]
fn step_stamps_the_backup_with_the_local_time() {
    let change = write_dword_with_backup(KEY, "HwSchMode", 2)
        .step(Reply::Privilege(Some(1)))
        .step(Reply::ValueRead(Some(1)));
    match change.request() {
        Request::PersistBackup { file, record } => {
            assert_eq!(record.previous_data, 1);
            assert_eq!(record.timestamp.chars().count(), 15);
            assert_eq!(file, format!("backups/backup_{}_HwSchMode.json", record.timestamp));
            assert_eq!(file, record.path());
        }
        other => panic!("unexpected request {:?}", other),
    }
    let change = change.step(Reply::BackupPersisted(true)).step(Reply::ValueWritten(Ok(())));
    let done = change.outcome().unwrap().unwrap();
    assert_eq!(done.data, 2);
    assert!(done.backup_file.unwrap().starts_with("backups/backup_"));
}

#[test]
fn each_failure_has_its_message() {
    assert_eq!(
        MutationError::PrivilegeRequired.message(),
        "Administrator privileges required. Please run as administrator."
    );
    assert_eq!(MutationError::AccessDenied.message(), "Access to the registry key was denied");
    assert_eq!(MutationError::KeyNotFound.message(), "The registry key does not exist");
    assert_eq!(
        MutationError::BackupPersistFailed.message(),
        "The backup could not be saved; nothing was changed"
    );
    assert_eq!(MutationError::WriteFailed.message(), "Failed to write registry value");
    let corrupt = MutationError::BackupCorrupt { file: "backups/b.json".to_string() };
    assert_eq!(corrupt.message(), "Not a valid backup file: backups/b.json");
    assert_eq!(corrupt.copy(), corrupt);
}

#[test]
fn a_backup_never_replaces_an_earlier_record() {
    let first_key = "SYSTEM\\First";
    let second_key = "SYSTEM\\Second";
    let mut platform = Platform::new(Some(1))
        .with_value(first_key, "Enabled", 1)
        .with_value(second_key, "Enabled", 7);
    let first = run_apply(&mut platform, write_dword_with_backup(first_key, "Enabled", 0));
    let file = first.unwrap().backup_file.unwrap();
    assert_eq!(file, "backups/backup_20240131_235959_Enabled.json");
    assert_eq!(platform.backups.len(), 1);
    assert_eq!(platform.backups[&file].target_key, first_key);
    assert_eq!(platform.backups[&file].previous_data, 1);

    platform.requests.clear();
    let second = run_apply(&mut platform, write_dword_with_backup(second_key, "Enabled", 0));
    assert_eq!(second.unwrap_err(), MutationError::BackupPersistFailed);
    assert_eq!(platform.requests, vec!["privilege", "read", "backup"]);
    assert_eq!(platform.value(second_key, "Enabled"), Some(7));
    assert_eq!(platform.value(first_key, "Enabled"), Some(0));
    assert_eq!(platform.backups.len(), 1);
    assert_eq!(platform.backups[&file].target_key, first_key);
    assert_eq!(platform.backups[&file].previous_data, 1);
    assert_eq!(platform.backups[&file].timestamp, STAMP);

    run_rollback(&mut platform, rollback_from_file(&file)).unwrap();
    assert_eq!(platform.value(first_key, "Enabled"), Some(1));
    assert_eq!(platform.value(second_key, "Enabled"), Some(7));
}

#[test]
fn a_second_change_of_one_value_under_one_stamp_keeps_the_first_backup() {
    let mut platform = Platform::new(Some(1)).with_value(KEY, "HwSchMode", 1);
    let first = run_apply(&mut platform, write_dword_with_backup(KEY, "HwSchMode", 2)).unwrap();
    let file = first.backup_file.unwrap();
    let second = run_apply(&mut platform, write_dword_with_backup(KEY, "HwSchMode", 3));
    assert_eq!(second.unwrap_err(), MutationError::BackupPersistFailed);
    assert_eq!(platform.value(KEY, "HwSchMode"), Some(2));
    assert_eq!(platform.backups.len(), 1);
    assert_eq!(platform.backups[&file].previous_data, 1);
    run_rollback(&mut platform, rollback_from_file(&file)).unwrap();
    assert_eq!(platform.value(KEY, "HwSchMode"), Some(1));
}

#[test]
fn changes_under_different_stamps_keep_both_backups() {
    let mut platform = Platform::new(Some(1)).with_value(KEY, "HwSchMode", 1);
    let mut change = write_dword_with_backup(KEY, "HwSchMode", 2);
    for stamp in ["20240101_000000", "unused", "unused", "unused"] {
        let reply = platform.perform(change.request());
        change = change.step_at(reply, stamp.to_string());
    }
    let first = change.outcome().unwrap().unwrap().backup_file.unwrap();
    let second = run_apply(&mut platform, write_dword_with_backup(KEY, "HwSchMode", 3))
        .unwrap()
        .backup_file
        .unwrap();
    assert_ne!(first, second);
    assert_eq!(platform.backups.len(), 2);
    assert_eq!(platform.backups[&first].previous_data, 1);
    assert_eq!(platform.backups[&second].previous_data, 2);
    assert_eq!(platform.value(KEY, "HwSchMode"), Some(3));
}
