//! Messages exchanged between the two peers. Transfer ids are UUIDs held as their
//! 128-bit value.

use vstd::prelude::*;

verus! {

#[derive(Debug)]
pub struct HelloMsg {
    pub app_version: String,
    pub device_name: String,
}

/// Announces a file: its name, size and BLAKE3 digest, sent ahead of the chunks.
#[derive(Debug)]
pub struct ManifestMsg {
    pub transfer_id: u128,
    pub file_name: String,
    pub size: u64,
    pub hash: [u8; 32],
}

#[derive(Debug)]
pub struct ManifestAckMsg {
    pub transfer_id: u128,
    pub ready: bool,
}

#[derive(Debug)]
pub struct ChunkDataMsg {
    pub transfer_id: u128,
    pub offset: u64,
    pub data: Vec<u8>,
}

#[derive(Debug)]
pub struct ErrorMsg {
    pub message: String,
}

/// Wire message shape shared by Direct and Network modes.
#[derive(Debug)]
pub enum Message {
    Hello(HelloMsg),
    Manifest(ManifestMsg),
    ManifestAck(ManifestAckMsg),
    ChunkData(ChunkDataMsg),
    TransferComplete { transfer_id: u128, success: bool },
    Error(ErrorMsg),
}

} // verus!
