//! Data model shared by the engine and the user interface.

use vstd::prelude::*;

verus! {

/// How this machine reaches its peer.
#[derive(Clone, Copy, Debug, PartialEq, Eq, Structural)]
pub enum ConnectionMode {
    Direct,
    Network,
    Ssh,
}

/// Why a transfer failed.
#[derive(Clone, Copy, Debug, PartialEq, Eq, Structural)]
pub enum ErrorKind {
    DiskFull,
    PermissionDenied,
    HashMismatch,
    ConnectionLost,
    PeerRejected,
    PairingFailed,
    AuthFailed,
    HostKeyMismatch,
    Other,
}

/// Whether this machine sends or receives the transfer.
#[derive(Clone, Copy, Debug, PartialEq, Eq, Structural)]
pub enum Direction {
    Send,
    Receive,
}

/// Life-cycle state of a transfer or of one of its files.
#[derive(Debug, PartialEq, Eq)]
pub enum ItemStatus {
    Queued,
    Active,
    Paused,
    Reconnecting,
    Error { kind: ErrorKind, message: String },
    Done,
}

impl Clone for ItemStatus {
    fn clone(&self) -> (res: Self)
        ensures
            res == *self,
    {
        match self {
            ItemStatus::Queued => ItemStatus::Queued,
            ItemStatus::Active => ItemStatus::Active,
            ItemStatus::Paused => ItemStatus::Paused,
            ItemStatus::Reconnecting => ItemStatus::Reconnecting,
            ItemStatus::Error { kind, message } => ItemStatus::Error {
                kind: *kind,
                message: message.clone(),
            },
            ItemStatus::Done => ItemStatus::Done,
        }
    }
}

/// Progress of one file of a transfer; ids are UUIDs held as their 128-bit value.
#[derive(Debug)]
pub struct FileProgress {
    pub file_id: u128,
    pub relative_path: String,
    pub size: u64,
    pub bytes_done: u64,
    pub status: ItemStatus,
}

impl Clone for FileProgress {
    fn clone(&self) -> (res: Self)
        ensures
            res == *self,
    {
        FileProgress {
            file_id: self.file_id,
            relative_path: self.relative_path.clone(),
            size: self.size,
            bytes_done: self.bytes_done,
            status: self.status.clone(),
        }
    }
}

/// One entry of the transfer queue; its id is a UUID held as its 128-bit value.
#[derive(Debug)]
pub struct TransferItem {
    pub id: u128,
    pub priority_order: i64,
    pub direction: Direction,
    pub files: Vec<FileProgress>,
    pub status: ItemStatus,
    pub bytes_total: u64,
    pub bytes_done: u64,
}

/// The value of a `TransferItem`, with its files as a sequence.
pub struct TransferItemView {
    pub id: u128,
    pub priority_order: i64,
    pub direction: Direction,
    pub files: Seq<FileProgress>,
    pub status: ItemStatus,
    pub bytes_total: u64,
    pub bytes_done: u64,
}

impl View for TransferItem {
    type V = TransferItemView;

    open spec fn view(&self) -> TransferItemView {
        TransferItemView {
            id: self.id,
            priority_order: self.priority_order,
            direction: self.direction,
            files: self.files@,
            status: self.status,
            bytes_total: self.bytes_total,
            bytes_done: self.bytes_done,
        }
    }
}

impl Clone for TransferItem {
    fn clone(&self) -> (res: Self)
        ensures
            res@ == self@,
    {
        let files = self.files.clone();
        assert(files@ =~= self.files@);
        TransferItem {
            id: self.id,
            priority_order: self.priority_order,
            direction: self.direction,
            files,
            status: self.status.clone(),
            bytes_total: self.bytes_total,
            bytes_done: self.bytes_done,
        }
    }
}

/// A known peer.
#[derive(Clone, Debug)]
pub struct PeerInfo {
    pub id: String,
    pub display_name: String,
    pub address: String,
    pub trusted: bool,
}

} // verus!
