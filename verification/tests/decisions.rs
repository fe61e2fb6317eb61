use file_transfer::commands::direct::{decimal_string, direct_target, has_colon, received_file_status};
use file_transfer::commands::transfers::sent_file_status;
use file_transfer::engine::hashing::digests_equal;
use file_transfer::error::{AppError, IoErrorKind, IoFailure};
use file_transfer::models::{ErrorKind, ItemStatus};
use file_transfer::net::direct_link::{is_link_local, select_link_local, IpAddress};

fn io(kind: IoErrorKind, description: &str) -> AppError {
    AppError::Io(IoFailure { kind, description: description.to_string() })
}

#[test]
fn user_messages_per_kind() {
    assert_eq!(io(IoErrorKind::StorageFull, "no space left on device").user_message(), "Disk full");
    assert_eq!(io(IoErrorKind::PermissionDenied, "denied").user_message(), "Permission denied");
    assert_eq!(
        io(IoErrorKind::Other, "entity not found").user_message(),
        "File error: entity not found"
    );
    assert_eq!(AppError::Other("peer went away".to_string()).user_message(), "peer went away");
}

#[test]
fn sent_file_statuses() {
    assert_eq!(sent_file_status(&Ok(true)), ItemStatus::Done);
    assert_eq!(
        sent_file_status(&Ok(false)),
        ItemStatus::Error {
            kind: ErrorKind::HashMismatch,
            message: "receiver reported a hash mismatch".to_string()
        }
    );
    assert_eq!(
        sent_file_status(&Err(io(IoErrorKind::StorageFull, "x"))),
        ItemStatus::Error { kind: ErrorKind::Other, message: "Disk full".to_string() }
    );
}

#[test]
fn received_file_statuses() {
    assert_eq!(received_file_status(true), ItemStatus::Done);
    assert_eq!(
        received_file_status(false),
        ItemStatus::Error {
            kind: ErrorKind::HashMismatch,
            message: "received file did not match the sender's hash".to_string()
        }
    );
}

#[test]
fn target_gets_the_default_port_only_without_colon() {
    assert_eq!(direct_target("192.168.1.5", 47821), "192.168.1.5:47821");
    assert_eq!(direct_target("192.168.1.5:9000", 47821), "192.168.1.5:9000");
    assert_eq!(direct_target("fe80::1", 47821), "fe80::1");
    assert_eq!(direct_target("host", 0), "host:0");
}

#[test]
fn decimal_rendering() {
    assert_eq!(decimal_string(0), "0");
    assert_eq!(decimal_string(7), "7");
    assert_eq!(decimal_string(10), "10");
    assert_eq!(decimal_string(65535), "65535");
    assert!(has_colon("a:b"));
    assert!(!has_colon("ab"));
    assert!(!has_colon(""));
}

#[test]
fn link_local_addresses() {
    assert!(is_link_local(IpAddress::V4([169, 254, 3, 4])));
    assert!(!is_link_local(IpAddress::V4([169, 253, 3, 4])));
    assert!(!is_link_local(IpAddress::V4([192, 168, 0, 1])));
    assert!(is_link_local(IpAddress::V6([0xfe80, 0, 0, 0, 0, 0, 0, 1])));
    assert!(is_link_local(IpAddress::V6([0xfebf, 0, 0, 0, 0, 0, 0, 1])));
    assert!(!is_link_local(IpAddress::V6([0xfec0, 0, 0, 0, 0, 0, 0, 1])));
    assert!(!is_link_local(IpAddress::V6([0, 0, 0, 0, 0, 0, 0, 1])));
    let addrs = vec![
        IpAddress::V4([127, 0, 0, 1]),
        IpAddress::V6([0xfe80, 0, 0, 0, 1, 2, 3, 4]),
        IpAddress::V4([169, 254, 9, 9]),
    ];
    assert_eq!(
        select_link_local(&addrs),
        vec![IpAddress::V6([0xfe80, 0, 0, 0, 1, 2, 3, 4]), IpAddress::V4([169, 254, 9, 9])]
    );
    assert_eq!(select_link_local(&vec![]), vec![]);
}

#[test]
fn digest_comparison() {
    let a = [3u8; 32];
    let mut b = [3u8; 32];
    assert!(digests_equal(&a, &b));
    b[31] = 4;
    assert!(!digests_equal(&a, &b));
}
