//! Laws relating the two sides of a transfer.

use vstd::prelude::*;

use crate::net::protocol::{ChunkDataMsg, ManifestMsg, Message};

use super::hashing::blake3_digest;
use super::receiver::{chunk_of, receive_all, receive_messages, receive_start, receive_success, ReceiveView};
use super::scheduler::{chunk_plan, lemma_chunk_plan_partitions, plannable};
use super::sender::{bytes_sent_after, pending_chunk};

verus! {

/// The chunks the sender emits for a file with content `data`, each as the transfer
/// id and the data of its `ChunkData` message, in order: one per non-empty range of
/// the plan, carrying the bytes of that range.
pub open spec fn sent_chunks(transfer_id: u128, data: Seq<u8>) -> Seq<(u128, Seq<u8>)> {
    let plan = chunk_plan(data.len());
    Seq::new(
        if data.len() == 0 { 0 } else { plan.len() },
        |k: int| (transfer_id, data.subrange(plan[k].0 as int, plan[k].1 as int)),
    )
}

/// The sender, fed the bytes of each pending chunk of `data`, emits exactly
/// `sent_chunks`: after `k` chunks a chunk is pending precisely while `k` is below
/// their number, and the pending one covers the bytes of the `k`-th of them.
pub proof fn lemma_sender_emits_sent_chunks(transfer_id: u128, data: Seq<u8>, k: nat)
    requires
        data.len() <= u64::MAX,
    ensures
        pending_chunk(data.len(), k) is Some <==> k < sent_chunks(transfer_id, data).len(),
        k < sent_chunks(transfer_id, data).len() ==> {
            let (off, len) = pending_chunk(data.len(), k).unwrap();
            sent_chunks(transfer_id, data)[k as int] == (transfer_id, data.subrange(off as int, off + len))
        },
{
    lemma_chunk_plan_partitions(data.len());
}

/// A file sent in full arrives in full: a receiver that accepted a manifest announcing
/// `data`'s length and BLAKE3 digest under the sender's transfer id, and is fed the
/// chunks the sender emits, ends up with exactly `data` and reports success.
pub proof fn lemma_transfer_round_trip(manifest: ManifestMsg, data: Seq<u8>)
    requires
        data.len() <= u64::MAX,
        plannable(data.len() as u64),
        manifest.size == data.len(),
        manifest.hash@ == blake3_digest(data),
    ensures
        receive_all(receive_start(manifest), sent_chunks(manifest.transfer_id, data)).received == data,
        receive_success(receive_all(receive_start(manifest), sent_chunks(manifest.transfer_id, data))),
{
    let chunks = sent_chunks(manifest.transfer_id, data);
    let v0 = receive_start(manifest);
    lemma_receive_all_keeps_manifest(v0, chunks);
    if data.len() == 0 {
        assert(v0.received =~= data);
    } else {
        lemma_chunk_plan_partitions(data.len());
        lemma_receive_from(manifest, data, 0);
        assert(chunks.subrange(0, chunks.len() as int) =~= chunks);
        assert(data.subrange(0, bytes_sent_after(data.len(), 0) as int) =~= v0.received);
    }
}

/// The receiving loop only ever changes the bytes received.
pub proof fn lemma_receive_all_keeps_manifest(v: ReceiveView, chunks: Seq<(u128, Seq<u8>)>)
    ensures
        receive_all(v, chunks).transfer_id == v.transfer_id,
        receive_all(v, chunks).size == v.size,
        receive_all(v, chunks).hash == v.hash,
    decreases chunks.len(),
{
    if chunks.len() > 0 {
        lemma_receive_all_keeps_manifest(ReceiveView { received: v.received + chunks[0].1, ..v }, chunks.drop_first());
    }
}

/// Fed the chunks from the `k`-th on, a receiver holding the first
/// `bytes_sent_after(size, k)` bytes of `data` ends up with all of `data`.
proof fn lemma_receive_from(manifest: ManifestMsg, data: Seq<u8>, k: nat)
    requires
        data.len() > 0,
        data.len() <= u64::MAX,
        manifest.size == data.len(),
        k <= chunk_plan(data.len()).len(),
    ensures
        receive_all(
            ReceiveView {
                received: data.subrange(0, bytes_sent_after(data.len(), k) as int),
                ..receive_start(manifest)
            },
            sent_chunks(manifest.transfer_id, data).subrange(k as int, chunk_plan(data.len()).len() as int),
        ).received == data,
    decreases chunk_plan(data.len()).len() - k,
{
    let size = data.len();
    let plan = chunk_plan(size);
    let n = plan.len();
    let chunks = sent_chunks(manifest.transfer_id, data);
    let rest = chunks.subrange(k as int, n as int);
    let v = ReceiveView {
        received: data.subrange(0, bytes_sent_after(size, k) as int),
        ..receive_start(manifest)
    };
    lemma_chunk_plan_partitions(size);
    if k == n {
        assert(rest.len() == 0);
        assert(plan[n - 1].1 == size);
        assert(v.received =~= data);
    } else {
        let start = plan[k as int].0;
        let end = plan[k as int].1;
        assert(bytes_sent_after(size, k) == start);
        assert(start < end);
        assert(rest[0] == chunks[k as int]);
        assert(rest.drop_first() =~= chunks.subrange((k + 1) as int, n as int));
        assert(v.received + rest[0].1 =~= data.subrange(0, end as int));
        assert(bytes_sent_after(size, (k + 1) as nat) == end);
        lemma_receive_from(manifest, data, (k + 1) as nat);
    }
}

/// A chunk of the receiver's own transfer is always accepted, whatever its offset:
/// the receiving step takes exactly its data; a chunk of another transfer is not taken.
pub proof fn lemma_own_chunk_accepted(transfer_id: u128, c: ChunkDataMsg)
    ensures
        c.transfer_id == transfer_id ==> chunk_of(transfer_id, Some(Message::ChunkData(c))) == Some(c.data@),
        c.transfer_id != transfer_id ==> chunk_of(transfer_id, Some(Message::ChunkData(c))) is None,
{
}

/// The verdict needs both checks, whatever the size: a transfer succeeds exactly when
/// the announced number of bytes arrived and their BLAKE3 digest is the announced one;
/// in particular a complete but altered file, whose digest differs, fails.
pub proof fn lemma_success_needs_size_and_digest(v: ReceiveView)
    ensures
        receive_success(v) <==> (v.received.len() == v.size && blake3_digest(v.received) == v.hash),
        blake3_digest(v.received) != v.hash ==> !receive_success(v),
        v.received.len() != v.size ==> !receive_success(v),
{
}

/// `msgs` are the `ChunkData` messages the sender emits for a file with content
/// `data` under transfer `transfer_id`: one per non-empty range of the plan, in order,
/// at that range's offset and carrying that range's bytes.
pub open spec fn sender_messages(transfer_id: u128, data: Seq<u8>, msgs: Seq<Message>) -> bool {
    let plan = chunk_plan(data.len());
    &&& msgs.len() == (if data.len() == 0 { 0 } else { plan.len() })
    &&& forall|k: int|
        0 <= k < msgs.len() ==> (#[trigger] msgs[k] matches Message::ChunkData(c) && c.transfer_id
            == transfer_id && c.offset == plan[k].0 && c.data@ == data.subrange(
            plan[k].0 as int,
            plan[k].1 as int,
        ))
}

/// Feeding the receiver, message by message, the chunks the sender emits for any
/// plannable file yields exactly that file, and the verdict is success when the
/// manifest announced the file's size and digest.
pub proof fn lemma_sender_messages_arrive(manifest: ManifestMsg, data: Seq<u8>, msgs: Seq<Message>)
    requires
        data.len() <= u64::MAX,
        plannable(data.len() as u64),
        manifest.size == data.len(),
        manifest.hash@ == blake3_digest(data),
        sender_messages(manifest.transfer_id, data, msgs),
    ensures
        receive_messages(receive_start(manifest), msgs).received == data,
        receive_messages(receive_start(manifest), msgs).received.len() == manifest.size,
        blake3_digest(receive_messages(receive_start(manifest), msgs).received) == manifest.hash@,
{
    let v0 = receive_start(manifest);
    if data.len() == 0 {
        assert(v0.received =~= data);
    } else {
        lemma_chunk_plan_partitions(data.len());
        lemma_messages_from(manifest, data, msgs, 0);
        assert(msgs.subrange(0, msgs.len() as int) =~= msgs);
        assert(data.subrange(0, bytes_sent_after(data.len(), 0) as int) =~= v0.received);
    }
}

/// Fed the sender's messages from the `k`-th on, a receiver holding the first
/// `bytes_sent_after(size, k)` bytes of `data` ends up with all of `data`.
proof fn lemma_messages_from(manifest: ManifestMsg, data: Seq<u8>, msgs: Seq<Message>, k: nat)
    requires
        data.len() > 0,
        data.len() <= u64::MAX,
        manifest.size == data.len(),
        sender_messages(manifest.transfer_id, data, msgs),
        k <= msgs.len(),
    ensures
        receive_messages(
            ReceiveView {
                received: data.subrange(0, bytes_sent_after(data.len(), k) as int),
                ..receive_start(manifest)
            },
            msgs.subrange(k as int, msgs.len() as int),
        ).received == data,
    decreases msgs.len() - k,
{
    let size = data.len();
    let plan = chunk_plan(size);
    let n = msgs.len();
    let rest = msgs.subrange(k as int, n as int);
    let v = ReceiveView {
        received: data.subrange(0, bytes_sent_after(size, k) as int),
        ..receive_start(manifest)
    };
    lemma_chunk_plan_partitions(size);
    if k == n {
        assert(rest.len() == 0);
        assert(plan[n - 1].1 == size);
        assert(v.received =~= data);
    } else {
        let start = plan[k as int].0;
        let end = plan[k as int].1;
        assert(bytes_sent_after(size, k) == start);
        assert(start < end);
        assert(rest[0] == msgs[k as int]);
        assert(msgs[k as int] matches Message::ChunkData(c0) && c0.transfer_id == manifest.transfer_id
            && c0.data@ == data.subrange(start as int, end as int));
        assert(chunk_of(v.transfer_id, Some(rest[0])) == Some(data.subrange(start as int, end as int)));
        assert(rest.drop_first() =~= msgs.subrange((k + 1) as int, n as int));
        assert(v.received + data.subrange(start as int, end as int) =~= data.subrange(0, end as int));
        assert(bytes_sent_after(size, (k + 1) as nat) == end);
        lemma_messages_from(manifest, data, msgs, (k + 1) as nat);
    }
}

} // verus!
