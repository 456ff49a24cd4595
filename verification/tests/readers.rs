use nfc_monitor::device::DeviceError;
use nfc_monitor::readers::{check_reader_connection, ReaderListing, ReaderStatus};

fn listing(names: &[&str]) -> ReaderListing {
    ReaderListing::Readers(names.iter().map(|name| name.to_string()).collect())
}

#[test]
fn status_names_the_first_reader() {
    let status = check_reader_connection(&listing(&["ReaderA", "ReaderB"]));
    assert_eq!(
        status,
        Ok(ReaderStatus { connected: true, name: Some("ReaderA".to_string()) })
    );
}

#[test]
fn status_without_readers_is_disconnected() {
    let status = check_reader_connection(&listing(&[]));
    assert_eq!(status, Ok(ReaderStatus { connected: false, name: None }));
}

#[test]
fn status_reports_a_failed_context() {
    let status = check_reader_connection(&ReaderListing::ContextFailed(DeviceError::NoService));
    assert_eq!(status, Err("Failed to establish PCSC context: 服务不可用".to_string()));
}

#[test]
fn status_reports_a_failed_listing() {
    let status = check_reader_connection(&ReaderListing::ListFailed(DeviceError::Timeout));
    assert_eq!(status, Err("Failed to list readers: 操作超时".to_string()));
    let status = check_reader_connection(&ReaderListing::ListFailed(DeviceError::Other(
        "InsufficientBuffer".to_string(),
    )));
    assert_eq!(status, Err("Failed to list readers: PCSC错误: InsufficientBuffer".to_string()));
}

#[test]
fn listing_knows_whether_a_reader_is_attached() {
    assert!(listing(&["ReaderA"]).has_reader());
    assert!(!listing(&[]).has_reader());
    assert!(!ReaderListing::ContextFailed(DeviceError::NoService).has_reader());
    assert!(!ReaderListing::ListFailed(DeviceError::NoReadersAvailable).has_reader());
}

#[test]
fn first_reader_is_the_primary_one() {
    assert_eq!(listing(&["ReaderA", "ReaderB"]).first_reader(), Some(&"ReaderA".to_string()));
    assert_eq!(listing(&[]).first_reader(), None);
    assert_eq!(ReaderListing::ListFailed(DeviceError::Timeout).first_reader(), None);
}
