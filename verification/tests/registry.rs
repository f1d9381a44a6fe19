use apex::checks::Reading;
use apex::fixes::WriteFault;
use apex::utils::privileges::{is_admin, require_admin};
use apex::utils::registry::{
    read_dword, read_string, reading_of, string_buffer_len, write_dword, DwordQuery, DwordWrite,
    RegistryError, RegistryStep, StringQuery, ERROR_ACCESS_DENIED, ERROR_FILE_NOT_FOUND,
    ERROR_SUCCESS,
};
use apex::error::MutationError;

fn utf16(s: &str) -> Vec<u16> {
    s.encode_utf16().collect()
}

#[test]
fn only_the_answer_one_is_an_administrator() {
    assert!(is_admin(Some(1)));
    assert!(!is_admin(Some(0)));
    assert!(!is_admin(Some(2)));
    assert!(!is_admin(Some(-1)));
    assert!(!is_admin(None));
}

#[test]
fn require_admin_stops_everyone_else() {
    assert_eq!(require_admin(Some(1)), Ok(()));
    assert_eq!(require_admin(Some(0)), Err(MutationError::PrivilegeRequired));
    assert_eq!(require_admin(None), Err(MutationError::PrivilegeRequired));
    assert_eq!(require_admin(Some(1)), Ok(()));
    assert_eq!(
        require_admin(None).unwrap_err().message(),
        "Administrator privileges required. Please run as administrator."
    );
}

#[test]
fn read_dword_gives_the_data_of_a_successful_query() {
    let ok = read_dword("Key", "Value", DwordQuery::Queried { status: ERROR_SUCCESS, data: 38 });
    assert_eq!(ok.unwrap(), 38);
    let e = read_dword("Key", "Value", DwordQuery::NotOpened { status: 2 }).unwrap_err();
    assert_eq!((e.step, e.name.as_str(), e.status), (RegistryStep::OpenForReading, "Key", 2));
    assert_eq!(e.message(), "Failed to open registry key: Key");
    let e = read_dword("Key", "Value", DwordQuery::Queried { status: 5, data: 38 }).unwrap_err();
    assert_eq!((e.step, e.name.as_str(), e.status), (RegistryStep::QueryValue, "Value", 5));
    assert_eq!(e.message(), "Failed to read registry value: Value");
}

#[test]
fn write_dword_reports_the_call_that_failed() {
    assert!(write_dword("Key", "Value", DwordWrite::Written { status: 0 }).is_ok());
    let e = write_dword("Key", "Value", DwordWrite::NotOpened { status: 5 }).unwrap_err();
    assert_eq!((e.step, e.name.as_str(), e.status), (RegistryStep::OpenForWriting, "Key", 5));
    assert_eq!(e.message(), "Failed to open registry key for writing: Key");
    assert_eq!(e.fault(), WriteFault::AccessDenied);
    let e = write_dword("Key", "Value", DwordWrite::Written { status: 1 }).unwrap_err();
    assert_eq!((e.step, e.name.as_str(), e.status), (RegistryStep::SetValue, "Value", 1));
    assert_eq!(e.message(), "Failed to write registry value: Value");
    assert_eq!(e.fault(), WriteFault::Failed);
}

#[test]
fn faults_go_by_the_status() {
    let with = |status: u32| RegistryError {
        step: RegistryStep::OpenForWriting,
        name: "Key".to_string(),
        status,
    };
    assert_eq!(with(ERROR_ACCESS_DENIED).fault(), WriteFault::AccessDenied);
    assert_eq!(with(ERROR_FILE_NOT_FOUND).fault(), WriteFault::KeyNotFound);
    assert_eq!(with(87).fault(), WriteFault::Failed);
    assert_eq!(ERROR_SUCCESS, 0);
    assert_eq!(ERROR_FILE_NOT_FOUND, 2);
    assert_eq!(ERROR_ACCESS_DENIED, 5);
}

#[test]
fn read_string_decodes_and_trims_the_buffer() {
    let mut buffer = utf16("NVIDIA GeForce");
    buffer.extend([0u16, 0u16]);
    let text = read_string("Key", "Value", StringQuery::Queried { status: 0, buffer });
    assert_eq!(text.unwrap(), "NVIDIA GeForce");
    let text = read_string("Key", "Value", StringQuery::Queried { status: 0, buffer: utf16("Grüße 🎮") });
    assert_eq!(text.unwrap(), "Grüße 🎮");
    let lone = read_string("Key", "Value", StringQuery::Queried { status: 0, buffer: vec![0x61, 0xD800, 0x62, 0] });
    assert_eq!(lone.unwrap(), "a\u{FFFD}b");
    let empty = read_string("Key", "Value", StringQuery::Queried { status: 0, buffer: vec![] });
    assert_eq!(empty.unwrap(), "");
}

#[test]
fn read_string_reports_the_call_that_failed() {
    let e = read_string("Key", "Value", StringQuery::NotOpened { status: 2 }).unwrap_err();
    assert_eq!(e.message(), "Failed to open registry key: Key");
    assert_eq!(e.step, RegistryStep::OpenForReading);
    let e = read_string("Key", "Value", StringQuery::NoSize { status: 2 }).unwrap_err();
    assert_eq!(e.message(), "Failed to query registry value size: Value");
    assert_eq!(e.step, RegistryStep::QuerySize);
    let e = read_string("Key", "Value", StringQuery::Queried { status: 234, buffer: utf16("x") })
        .unwrap_err();
    assert_eq!(e.message(), "Failed to read registry string value: Value");
    assert_eq!((e.step, e.status), (RegistryStep::QueryString, 234));
}

#[test]
fn string_buffer_holds_half_as_many_units_as_bytes() {
    assert_eq!(string_buffer_len(0), 0);
    assert_eq!(string_buffer_len(1), 0);
    assert_eq!(string_buffer_len(30), 15);
    assert_eq!(string_buffer_len(31), 15);
    assert_eq!(string_buffer_len(u32::MAX), 2147483647);
}

#[test]
fn a_probe_is_told_the_value_or_that_it_is_missing() {
    let ok = read_dword("Key", "Value", DwordQuery::Queried { status: 0, data: 2 });
    assert_eq!(reading_of(&ok), Reading::Value(2));
    let failed = read_dword("Key", "Value", DwordQuery::NotOpened { status: 2 });
    assert_eq!(reading_of(&failed), Reading::Missing);
}
