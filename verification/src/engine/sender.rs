//! The sending side of one file transfer: the manifest, the decision on the peer's
//! reply to it, the sequence of chunks to send, and the decision on the final reply.

use vstd::prelude::*;

use crate::error::AppError;
use crate::net::protocol::{ChunkDataMsg, ManifestMsg, Message};

use super::scheduler::{chunk_plan, lemma_chunk_plan_partitions, plan_chunk_ranges, plannable};
use super::CHUNK_SIZE;

verus! {

/// The name announced for a file: its own name, or `"file"` when the path has none.
pub fn manifest_file_name(name: Option<String>) -> (file_name: String)
    ensures
        match name {
            Some(n) => file_name == n,
            None => file_name@ == "file"@,
        },
{
    match name {
        Some(n) => n,
        None => String::from_str("file"),
    }
}

/// The manifest announcing a file ahead of its chunks.
pub fn manifest_message(transfer_id: u128, file_name: String, size: u64, hash: [u8; 32]) -> (m: Message)
    ensures
        m == Message::Manifest(ManifestMsg { transfer_id, file_name, size, hash }),
{
    Message::Manifest(ManifestMsg { transfer_id, file_name, size, hash })
}

/// The peer accepted the manifest of transfer `transfer_id`.
pub open spec fn manifest_accepted(transfer_id: u128, reply: Option<Message>) -> bool {
    match reply {
        Some(Message::ManifestAck(ack)) => ack.transfer_id == transfer_id && ack.ready,
        _ => false,
    }
}

/// Decides on the peer's reply to the manifest: go on when it acknowledged this
/// transfer as ready, fail with the peer's own message when it sent an error, and
/// fail with "peer did not accept the transfer" on anything else, a closed
/// connection included.
pub fn check_manifest_reply(transfer_id: u128, reply: Option<Message>) -> (r: Result<(), AppError>)
    ensures
        manifest_accepted(transfer_id, reply) <==> r is Ok,
        !manifest_accepted(transfer_id, reply) ==> match reply {
            Some(Message::Error(err)) => r == Err::<(), AppError>(AppError::Other(err.message)),
            _ => r matches Err(AppError::Other(m)) && m@ == "peer did not accept the transfer"@,
        },
{
    match reply {
        Some(Message::ManifestAck(ack)) if ack.transfer_id == transfer_id && ack.ready => Ok(()),
        Some(Message::Error(err)) => Err(AppError::Other(err.message)),
        _ => Err(AppError::Other(String::from_str("peer did not accept the transfer"))),
    }
}

/// Decides on the peer's final reply: its verdict on the hash when it reports
/// completion of this transfer, its own message when it sent an error, and
/// "connection closed before transfer completed" on anything else.
pub fn completion_result(transfer_id: u128, reply: Option<Message>) -> (r: Result<bool, AppError>)
    ensures
        match reply {
            Some(Message::TransferComplete { transfer_id: id, success }) if id == transfer_id =>
                r == Ok::<bool, AppError>(success),
            Some(Message::Error(err)) => r == Err::<bool, AppError>(AppError::Other(err.message)),
            _ => r matches Err(AppError::Other(m)) && m@
                == "connection closed before transfer completed"@,
        },
{
    match reply {
        Some(Message::TransferComplete { transfer_id: id, success }) if id == transfer_id => Ok(
            success,
        ),
        Some(Message::Error(err)) => Err(AppError::Other(err.message)),
        _ => Err(AppError::Other(String::from_str("connection closed before transfer completed"))),
    }
}

/// The bytes sent once the first `next` ranges of the plan for `size` are done.
pub open spec fn bytes_sent_after(size: nat, next: nat) -> nat {
    if next == 0 {
        0
    } else {
        chunk_plan(size)[next - 1].1 as nat
    }
}

/// The chunk to send next, as `(offset, length)`, once `next` ranges are done: the
/// next non-empty range of the plan, if any.
pub open spec fn pending_chunk(size: nat, next: nat) -> Option<(u64, nat)> {
    if size > 0 && next < chunk_plan(size).len() {
        Some((chunk_plan(size)[next as int].0, (chunk_plan(size)[next as int].1 - chunk_plan(size)[next as int].0) as nat))
    } else {
        None
    }
}

/// Streams the chunks of one file in order, following `plan_chunk_ranges`.
pub struct SendSession {
    transfer_id: u128,
    size: u64,
    ranges: Vec<(u64, u64)>,
    next: usize,
    bytes_sent: u64,
}

impl SendSession {
    pub closed spec fn transfer_id_spec(&self) -> u128 {
        self.transfer_id
    }

    pub closed spec fn size_spec(&self) -> u64 {
        self.size
    }

    /// How many ranges of the plan are done.
    pub closed spec fn done_ranges(&self) -> nat {
        self.next as nat
    }

    pub closed spec fn bytes_sent_spec(&self) -> u64 {
        self.bytes_sent
    }

    pub closed spec fn wf(&self) -> bool {
        &&& plannable(self.size)
        &&& self.ranges@ == chunk_plan(self.size as nat)
        &&& self.next <= self.ranges@.len()
        &&& self.bytes_sent == bytes_sent_after(self.size as nat, self.next as nat)
    }

    /// A session about to send the first chunk of a `size`-byte file.
    pub fn new(transfer_id: u128, size: u64) -> (s: Self)
        requires
            plannable(size),
        ensures
            s.wf(),
            s.transfer_id_spec() == transfer_id,
            s.size_spec() == size,
            s.done_ranges() == 0,
            s.bytes_sent_spec() == 0,
    {
        SendSession { transfer_id, size, ranges: plan_chunk_ranges(size), next: 0, bytes_sent: 0 }
    }

    /// Bytes of file data sent so far.
    pub fn bytes_sent(&self) -> (n: u64)
        ensures
            n == self.bytes_sent_spec(),
    {
        self.bytes_sent
    }

    /// The chunk to read and send next, as `(offset, length)`; `None` once every
    /// chunk is sent. An empty file has no chunk to send.
    pub fn next_chunk(&self) -> (c: Option<(u64, usize)>)
        requires
            self.wf(),
        ensures
            match pending_chunk(self.size_spec() as nat, self.done_ranges()) {
                Some((off, len)) => c == Some((off, len as usize)) && len <= CHUNK_SIZE,
                None => c is None,
            },
    {
        proof {
            lemma_chunk_plan_partitions(self.size as nat);
        }
        if self.size > 0 && self.next < self.ranges.len() {
            let (start, end) = self.ranges[self.next];
            Some((start, (end - start) as usize))
        } else {
            None
        }
    }

    /// The `ChunkData` message carrying `data`, the bytes of the pending chunk; the
    /// chunk then counts as sent.
    pub fn chunk_message(&mut self, data: Vec<u8>) -> (m: Message)
        requires
            old(self).wf(),
            pending_chunk(old(self).size_spec() as nat, old(self).done_ranges()) is Some,
            data@.len() == pending_chunk(old(self).size_spec() as nat, old(self).done_ranges()).unwrap().1,
        ensures
            final(self).wf(),
            final(self).transfer_id_spec() == old(self).transfer_id_spec(),
            final(self).size_spec() == old(self).size_spec(),
            final(self).done_ranges() == old(self).done_ranges() + 1,
            final(self).bytes_sent_spec() == old(self).bytes_sent_spec() + data@.len(),
            m == Message::ChunkData(
                ChunkDataMsg {
                    transfer_id: old(self).transfer_id_spec(),
                    offset: pending_chunk(old(self).size_spec() as nat, old(self).done_ranges()).unwrap().0,
                    data,
                },
            ),
    {
        proof {
            lemma_chunk_plan_partitions(self.size as nat);
        }
        let count = self.ranges.len();
        let (start, end) = self.ranges[self.next];
        assert(self.next < count);
        self.bytes_sent = end;
        self.next = self.next + 1;
        Message::ChunkData(ChunkDataMsg { transfer_id: self.transfer_id, offset: start, data })
    }
}

/// Once no chunk is pending, the whole file has been sent.
pub proof fn lemma_all_sent_when_no_chunk_pending(s: SendSession)
    requires
        s.wf(),
        pending_chunk(s.size_spec() as nat, s.done_ranges()) is None,
    ensures
        s.bytes_sent_spec() == s.size_spec(),
{
    lemma_chunk_plan_partitions(s.size_spec() as nat);
}

} // verus!
