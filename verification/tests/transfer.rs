use file_transfer::engine::hashing::ContentHasher;
use file_transfer::engine::receiver::{
    manifest_ack, stored_file_name_of, on_message_before_manifest, ChunkStep, ManifestStep, ReceiveSession,
};
use file_transfer::engine::sender::{
    check_manifest_reply, completion_result, manifest_file_name, manifest_message, SendSession,
};
use file_transfer::engine::CHUNK_SIZE;
use file_transfer::error::AppError;
use file_transfer::net::protocol::{
    ChunkDataMsg, ErrorMsg, HelloMsg, ManifestAckMsg, ManifestMsg, Message,
};

fn digest_of(data: &[u8]) -> [u8; 32] {
    let mut h = ContentHasher::new();
    for chunk in data.chunks(CHUNK_SIZE) {
        h.update(chunk);
    }
    h.finalize()
}

/// Drives the sender and receiver sessions against each other, handing each
/// message across directly, for a payload of several chunks.
#[test]
fn sends_and_receives_a_file_between_sessions() {
    let payload: Vec<u8> = (0..3_500_000u32).map(|i| (i % 251) as u8).collect();
    let size = payload.len() as u64;
    let transfer_id: u128 = 0x0123_4567_89ab_cdef_0011_2233_4455_6677;

    let file_name = manifest_file_name(Some("payload.bin".to_string()));
    let manifest = manifest_message(transfer_id, file_name, size, digest_of(&payload));

    let accepted = match on_message_before_manifest(Some(manifest)) {
        ManifestStep::Start(m) => m,
        other => panic!("unexpected step {:?}", other),
    };
    assert_eq!(accepted.file_name, "payload.bin");
    let mut receiver = ReceiveSession::start(&accepted);
    check_manifest_reply(transfer_id, Some(manifest_ack(&accepted))).unwrap();

    let mut sender = SendSession::new(transfer_id, size);
    let mut last_progress = (0u64, 0u64);
    let mut received: Vec<u8> = Vec::new();
    let mut offsets = Vec::new();
    while let Some((offset, len)) = sender.next_chunk() {
        let data = payload[offset as usize..offset as usize + len].to_vec();
        let msg = sender.chunk_message(data);
        last_progress = (sender.bytes_sent(), size);
        if let Message::ChunkData(c) = &msg {
            offsets.push(c.offset);
        }
        assert!(receiver.wants_more());
        match receiver.on_message(Some(msg)) {
            ChunkStep::Write(bytes) => received.extend_from_slice(&bytes),
            ChunkStep::Stop => panic!("receiver stopped early"),
        }
    }
    assert!(!receiver.wants_more());
    let success = receiver.succeeded();
    let reply = receiver.completion_message(success);
    let confirmed = completion_result(transfer_id, Some(reply)).unwrap();

    assert!(confirmed, "sender should observe the receiver confirming the hash matched");
    assert_eq!(last_progress, (payload.len() as u64, payload.len() as u64));
    assert_eq!(receiver.transfer_id(), transfer_id);
    assert!(success, "receiver should report a hash match");
    assert_eq!(received, payload);
    assert_eq!(offsets, vec![0, CHUNK_SIZE as u64, 2 * CHUNK_SIZE as u64, 3 * CHUNK_SIZE as u64]);
    assert_eq!(receiver.progress(), (size, size));
}

#[test]
fn empty_file_sends_no_chunk_and_succeeds() {
    let manifest = ManifestMsg { transfer_id: 9, file_name: "e".to_string(), size: 0, hash: digest_of(&[]) };
    let receiver = ReceiveSession::start(&manifest);
    let sender = SendSession::new(9, 0);
    assert_eq!(sender.next_chunk(), None);
    assert_eq!(sender.bytes_sent(), 0);
    assert!(!receiver.wants_more());
    assert!(receiver.succeeded());
}

#[test]
fn corrupted_chunk_fails_the_hash_check() {
    let payload = vec![7u8; 1000];
    let manifest = ManifestMsg { transfer_id: 1, file_name: "f".to_string(), size: 1000, hash: digest_of(&payload) };
    let mut receiver = ReceiveSession::start(&manifest);
    let mut bad = payload.clone();
    bad[500] = 8;
    let step = receiver.on_message(Some(Message::ChunkData(ChunkDataMsg { transfer_id: 1, offset: 0, data: bad })));
    assert!(matches!(step, ChunkStep::Write(ref d) if d.len() == 1000));
    assert!(!receiver.wants_more());
    assert!(!receiver.succeeded());
    match receiver.completion_message(false) {
        Message::Error(e) => assert_eq!(e.message, "hash mismatch or incomplete transfer"),
        other => panic!("unexpected {:?}", other),
    }
}

#[test]
fn incomplete_transfer_fails() {
    let payload = vec![1u8; 10];
    let manifest = ManifestMsg { transfer_id: 1, file_name: "f".to_string(), size: 10, hash: digest_of(&payload) };
    let mut receiver = ReceiveSession::start(&manifest);
    let step = receiver.on_message(Some(Message::ChunkData(ChunkDataMsg { transfer_id: 1, offset: 0, data: vec![1u8; 4] })));
    assert!(matches!(step, ChunkStep::Write(_)));
    assert_eq!(receiver.progress(), (4, 10));
    assert!(matches!(receiver.on_message(None), ChunkStep::Stop));
    assert!(!receiver.succeeded());
}

#[test]
fn chunk_of_another_transfer_stops_receiving() {
    let manifest = ManifestMsg { transfer_id: 1, file_name: "f".to_string(), size: 10, hash: [0u8; 32] };
    let mut receiver = ReceiveSession::start(&manifest);
    let step = receiver.on_message(Some(Message::ChunkData(ChunkDataMsg { transfer_id: 2, offset: 0, data: vec![1u8; 4] })));
    assert!(matches!(step, ChunkStep::Stop));
    assert_eq!(receiver.progress(), (0, 10));
    let step = receiver.on_message(Some(Message::Hello(HelloMsg { app_version: "1".to_string(), device_name: "d".to_string() })));
    assert!(matches!(step, ChunkStep::Stop));
}

#[test]
fn completion_message_on_success() {
    let manifest = ManifestMsg { transfer_id: 42, file_name: "f".to_string(), size: 0, hash: [0u8; 32] };
    let receiver = ReceiveSession::start(&manifest);
    assert!(matches!(
        receiver.completion_message(true),
        Message::TransferComplete { transfer_id: 42, success: true }
    ));
}

#[test]
fn messages_before_the_manifest() {
    assert!(matches!(
        on_message_before_manifest(Some(Message::Hello(HelloMsg { app_version: "1".to_string(), device_name: "d".to_string() }))),
        ManifestStep::Skip
    ));
    assert!(matches!(on_message_before_manifest(None), ManifestStep::Stop));
    assert!(matches!(
        on_message_before_manifest(Some(Message::ManifestAck(ManifestAckMsg { transfer_id: 1, ready: true }))),
        ManifestStep::Stop
    ));
}

#[test]
fn manifest_ack_accepts() {
    let manifest = ManifestMsg { transfer_id: 77, file_name: "f".to_string(), size: 3, hash: [0u8; 32] };
    assert!(matches!(manifest_ack(&manifest), Message::ManifestAck(ManifestAckMsg { transfer_id: 77, ready: true })));
}

fn other_message(r: Result<(), AppError>) -> String {
    match r {
        Err(AppError::Other(m)) => m,
        other => panic!("unexpected {:?}", other),
    }
}

#[test]
fn manifest_reply_decisions() {
    assert!(check_manifest_reply(5, Some(Message::ManifestAck(ManifestAckMsg { transfer_id: 5, ready: true }))).is_ok());
    assert_eq!(
        other_message(check_manifest_reply(5, Some(Message::ManifestAck(ManifestAckMsg { transfer_id: 5, ready: false })))),
        "peer did not accept the transfer"
    );
    assert_eq!(
        other_message(check_manifest_reply(5, Some(Message::ManifestAck(ManifestAckMsg { transfer_id: 6, ready: true })))),
        "peer did not accept the transfer"
    );
    assert_eq!(
        other_message(check_manifest_reply(5, Some(Message::Error(ErrorMsg { message: "disk full".to_string() })))),
        "disk full"
    );
    assert_eq!(other_message(check_manifest_reply(5, None)), "peer did not accept the transfer");
}

#[test]
fn completion_reply_decisions() {
    assert_eq!(
        completion_result(5, Some(Message::TransferComplete { transfer_id: 5, success: false })).unwrap(),
        false
    );
    match completion_result(5, Some(Message::TransferComplete { transfer_id: 6, success: true })) {
        Err(AppError::Other(m)) => assert_eq!(m, "connection closed before transfer completed"),
        other => panic!("unexpected {:?}", other),
    }
    match completion_result(5, Some(Message::Error(ErrorMsg { message: "boom".to_string() }))) {
        Err(AppError::Other(m)) => assert_eq!(m, "boom"),
        other => panic!("unexpected {:?}", other),
    }
    match completion_result(5, None) {
        Err(AppError::Other(m)) => assert_eq!(m, "connection closed before transfer completed"),
        other => panic!("unexpected {:?}", other),
    }
}

#[test]
fn file_name_falls_back_to_file() {
    assert_eq!(manifest_file_name(None), "file");
    assert_eq!(manifest_file_name(Some("a.txt".to_string())), "a.txt");
}

#[test]
fn incremental_hash_matches_one_shot_hash() {
    let data: Vec<u8> = (0..5000u32).map(|i| (i * 7 % 256) as u8).collect();
    let mut h = ContentHasher::new();
    h.update(&data[..1234]);
    h.update(&data[1234..]);
    assert_eq!(h.finalize(), *blake3::hash(&data).as_bytes());
    assert_ne!(h.finalize(), [0u8; 32]);
}

#[test]
fn hash_of_empty_input_is_the_known_digest() {
    let h = ContentHasher::new();
    let expected: [u8; 32] = [
        0xaf, 0x13, 0x49, 0xb9, 0xf5, 0xf9, 0xa1, 0xa6, 0xa0, 0x40, 0x4d, 0xea, 0x36, 0xdc, 0xc9, 0x49,
        0x9b, 0xcb, 0x25, 0xc9, 0xad, 0xc1, 0x12, 0xb7, 0xcc, 0x9a, 0x93, 0xca, 0xe4, 0x1f, 0x32, 0x62,
    ];
    assert_eq!(h.finalize(), expected);
}

#[test]
fn stored_name_is_a_single_component() {
    assert_eq!(stored_file_name_of("payload.bin"), "payload.bin");
    assert_eq!(stored_file_name_of("a:b"), "a:b");
    assert_eq!(stored_file_name_of("C:evil"), "C:evil");
    assert_eq!(stored_file_name_of("../../etc/passwd"), "passwd");
    assert_eq!(stored_file_name_of("/abs/path/x.txt"), "x.txt");
    assert_eq!(stored_file_name_of("dir\\win.txt"), "win.txt");
    assert_eq!(stored_file_name_of(".."), "..");
    assert_eq!(stored_file_name_of("a/.."), "..");
    assert_eq!(stored_file_name_of(""), "");
    assert_eq!(stored_file_name_of("dir/"), "");
    assert_eq!(stored_file_name_of("ünïcode.txt"), "ünïcode.txt");
}
