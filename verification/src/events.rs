//! Events emitted towards the user interface.

use vstd::prelude::*;

use crate::models::ItemStatus;

verus! {

#[derive(Debug, Clone)]
pub struct TransferProgressPayload {
    pub transfer_id: String,
    pub bytes_done: u64,
    pub bytes_total: u64,
}

#[derive(Debug, Clone)]
pub struct TransferStatusChangedPayload {
    pub transfer_id: String,
    pub file_name: String,
    pub status: ItemStatus,
}

#[derive(Debug, Clone)]
pub struct ConnectionStatusPayload {
    pub connected: bool,
    pub peer_address: Option<String>,
    /// "inbound" for a peer that connected to this machine's listener (this side can
    /// only receive), "outbound" for a connection this machine initiated (this side
    /// can send).
    pub role: &'static str,
}

/// Where the engine reports progress and status changes, kept apart from any
/// concrete windowing toolkit so that headless users need none.
pub trait EventSink: Send + Sync {
    fn emit_transfer_progress(&self, payload: TransferProgressPayload);

    fn emit_transfer_status_changed(&self, payload: TransferStatusChangedPayload);

    fn emit_connection_status(&self, payload: ConnectionStatusPayload);
}

} // verus!
