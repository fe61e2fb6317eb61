//! The receiving side of one file transfer: waiting for a manifest, accepting the
//! chunks of that transfer while hashing them, and the final verdict.

use vstd::prelude::*;

use crate::net::protocol::{ErrorMsg, ManifestAckMsg, ManifestMsg, Message};

use super::hashing::{blake3_digest, digests_equal, ContentHasher};

verus! {

/// What to do with a message that arrives while no manifest has been seen.
#[derive(Debug)]
pub enum ManifestStep {
    /// A greeting: keep waiting.
    Skip,
    /// A manifest: start receiving that file.
    Start(ManifestMsg),
    /// Anything else, or a closed connection: give up without a file.
    Stop,
}

/// Decides on a message received before any manifest.
pub fn on_message_before_manifest(msg: Option<Message>) -> (step: ManifestStep)
    ensures
        match msg {
            Some(Message::Manifest(m)) => step == ManifestStep::Start(m),
            Some(Message::Hello(_)) => step is Skip,
            _ => step is Stop,
        },
{
    match msg {
        Some(Message::Manifest(m)) => ManifestStep::Start(m),
        Some(Message::Hello(_)) => ManifestStep::Skip,
        _ => ManifestStep::Stop,
    }
}

/// The acknowledgement that accepts `manifest`.
pub fn manifest_ack(manifest: &ManifestMsg) -> (m: Message)
    ensures
        m == Message::ManifestAck(ManifestAckMsg { transfer_id: manifest.transfer_id, ready: true }),
{
    Message::ManifestAck(ManifestAckMsg { transfer_id: manifest.transfer_id, ready: true })
}

/// Characters that separate path components: `/`, and `\\` as well, so that a name
/// is one component on every platform the application runs on.
pub open spec fn is_path_separator(c: char) -> bool {
    c == '/' || c == '\\'
}

/// The part of `s` after its last path separator (all of `s` when it has none).
pub open spec fn last_component(s: Seq<char>) -> Seq<char>
    decreases s.len(),
{
    if s.len() == 0 {
        s
    } else if is_path_separator(s.last()) {
        Seq::empty()
    } else {
        last_component(s.drop_last()).push(s.last())
    }
}

proof fn lemma_last_component_from(s: Seq<char>, start: int)
    requires
        0 <= start <= s.len(),
        start == 0 || is_path_separator(s[start - 1]),
        forall|k: int| start <= k < s.len() ==> !is_path_separator(#[trigger] s[k]),
    ensures
        last_component(s) == s.subrange(start, s.len() as int),
    decreases s.len(),
{
    if s.len() > start {
        lemma_last_component_from(s.drop_last(), start);
        assert(s.subrange(start, s.len() as int) =~= s.drop_last().subrange(start, s.len() - 1).push(s.last()));
    } else if s.len() > 0 {
        assert(s.subrange(start, s.len() as int) =~= Seq::<char>::empty());
    }
}

/// The name under which an announced file is written: the announced name itself
/// when it is a single path component, otherwise its last component, so the file is
/// created directly in the destination directory whatever the peer announced.
pub fn stored_file_name_of(announced: &str) -> (name: String)
    ensures
        name@ == last_component(announced@),
        (forall|k: int| 0 <= k < announced@.len() ==> !is_path_separator(#[trigger] announced@[k]))
            ==> name@ == announced@,
        forall|k: int| 0 <= k < name@.len() ==> !is_path_separator(#[trigger] name@[k]),
{
    let n = announced.unicode_len();
    let mut start: usize = 0;
    let mut i: usize = 0;
    while i < n
        invariant
            n == announced@.len(),
            start <= i <= n,
            start == 0 || is_path_separator(announced@[start - 1]),
            forall|k: int| start <= k < i ==> !is_path_separator(#[trigger] announced@[k]),
        decreases n - i,
    {
        let c = announced.get_char(i);
        if c == '/' || c == '\\' {
            start = i + 1;
        }
        i += 1;
    }
    proof {
        lemma_last_component_from(announced@, start as int);
        if forall|k: int| 0 <= k < announced@.len() ==> !is_path_separator(#[trigger] announced@[k]) {
            lemma_last_component_from(announced@, 0);
            assert(announced@.subrange(0, n as int) =~= announced@);
        }
    }
    String::from_str(announced.substring_char(start, n))
}

/// The state of a receiving transfer: what the manifest announced and the bytes
/// accepted so far, in order.
pub struct ReceiveView {
    pub transfer_id: u128,
    pub size: u64,
    pub hash: Seq<u8>,
    pub received: Seq<u8>,
}

/// The state right after accepting `manifest`.
pub open spec fn receive_start(manifest: ManifestMsg) -> ReceiveView {
    ReceiveView {
        transfer_id: manifest.transfer_id,
        size: manifest.size,
        hash: manifest.hash@,
        received: Seq::empty(),
    }
}

/// The data of `msg` when it is a chunk of transfer `transfer_id`.
pub open spec fn chunk_of(transfer_id: u128, msg: Option<Message>) -> Option<Seq<u8>> {
    match msg {
        Some(Message::ChunkData(c)) => if c.transfer_id == transfer_id {
            Some(c.data@)
        } else {
            None
        },
        _ => None,
    }
}

/// The receiver keeps reading chunks while fewer bytes than announced have arrived.
pub open spec fn wants_more_spec(v: ReceiveView) -> bool {
    v.received.len() < v.size
}

/// The transfer succeeded: exactly the announced number of bytes arrived and their
/// BLAKE3 digest is the announced one.
pub open spec fn receive_success(v: ReceiveView) -> bool {
    v.received.len() == v.size && blake3_digest(v.received) == v.hash
}

/// The state after the receiving loop has been fed `chunks`, each given as the
/// transfer id and data of a `ChunkData` message: it appends the data of each chunk
/// of its own transfer while it wants more, and stops at the first other message.
pub open spec fn receive_all(v: ReceiveView, chunks: Seq<(u128, Seq<u8>)>) -> ReceiveView
    decreases chunks.len(),
{
    if chunks.len() == 0 || !wants_more_spec(v) || chunks[0].0 != v.transfer_id {
        v
    } else {
        receive_all(ReceiveView { received: v.received + chunks[0].1, ..v }, chunks.drop_first())
    }
}

/// The state after the receiving loop of `on_message` has been fed `msgs`: while it
/// wants more, each message that `chunk_of` accepts appends its data, and the first
/// message it does not accept ends the loop.
pub open spec fn receive_messages(v: ReceiveView, msgs: Seq<Message>) -> ReceiveView
    decreases msgs.len(),
{
    if msgs.len() == 0 || !wants_more_spec(v) {
        v
    } else {
        match chunk_of(v.transfer_id, Some(msgs[0])) {
            Some(d) => receive_messages(ReceiveView { received: v.received + d, ..v }, msgs.drop_first()),
            None => v,
        }
    }
}

/// What to do with a message that arrives while a file is being received.
#[derive(Debug)]
pub enum ChunkStep {
    /// A chunk of this transfer: write these bytes after the previous ones.
    Write(Vec<u8>),
    /// Anything else, or a closed connection: stop receiving.
    Stop,
}

/// Receives one announced file: counts and hashes the chunks of its transfer.
pub struct ReceiveSession {
    transfer_id: u128,
    size: u64,
    hash: [u8; 32],
    bytes_received: u64,
    hasher: ContentHasher,
}

impl View for ReceiveSession {
    type V = ReceiveView;

    closed spec fn view(&self) -> ReceiveView {
        ReceiveView {
            transfer_id: self.transfer_id,
            size: self.size,
            hash: self.hash@,
            received: self.hasher.absorbed(),
        }
    }
}

impl ReceiveSession {
    pub closed spec fn wf(&self) -> bool {
        self.bytes_received == self.hasher.absorbed().len()
    }

    /// Starts receiving the file that `manifest` announces.
    pub fn start(manifest: &ManifestMsg) -> (s: Self)
        ensures
            s.wf(),
            s@ == receive_start(*manifest),
    {
        ReceiveSession {
            transfer_id: manifest.transfer_id,
            size: manifest.size,
            hash: manifest.hash,
            bytes_received: 0,
            hasher: ContentHasher::new(),
        }
    }

    /// The transfer this session receives.
    pub fn transfer_id(&self) -> (id: u128)
        ensures
            id == self@.transfer_id,
    {
        self.transfer_id
    }

    /// Progress as `(bytes received, bytes announced)`.
    pub fn progress(&self) -> (p: (u64, u64))
        requires
            self.wf(),
        ensures
            p == (self@.received.len() as u64, self@.size),
    {
        (self.bytes_received, self.size)
    }

    /// Whether fewer bytes than announced have arrived.
    pub fn wants_more(&self) -> (b: bool)
        requires
            self.wf(),
        ensures
            b == wants_more_spec(self@),
    {
        self.bytes_received < self.size
    }

    /// Decides on a message received while the file is incomplete: a chunk of this
    /// transfer is hashed, counted and handed back to be written; anything else stops
    /// the transfer. A chunk that would take the byte count past `u64::MAX` is left out.
    pub fn on_message(&mut self, msg: Option<Message>) -> (step: ChunkStep)
        requires
            old(self).wf(),
            chunk_of(old(self)@.transfer_id, msg) matches Some(d) ==> old(self)@.received.len()
                + d.len() <= u64::MAX,
        ensures
            final(self).wf(),
            match chunk_of(old(self)@.transfer_id, msg) {
                Some(d) => {
                    &&& step matches ChunkStep::Write(data) && data@ == d
                    &&& final(self)@ == (ReceiveView { received: old(self)@.received + d, ..old(self)@ })
                },
                None => step is Stop && final(self)@ == old(self)@,
            },
            msg matches Some(Message::ChunkData(c)) ==> (c.transfer_id == old(self)@.transfer_id ==> (
            step matches ChunkStep::Write(data) && data@ == c.data@ && final(self)@.received == old(
                self,
            )@.received + c.data@)),
            msg matches Some(Message::ChunkData(c)) ==> (c.transfer_id != old(self)@.transfer_id ==> (
            step is Stop && final(self)@ == old(self)@)),
            !(msg matches Some(Message::ChunkData(_))) ==> (step is Stop && final(self)@ == old(self)@),
            final(self)@.transfer_id == old(self)@.transfer_id,
            final(self)@.size == old(self)@.size,
            final(self)@.hash == old(self)@.hash,
    {
        match msg {
            Some(Message::ChunkData(chunk)) => {
                if chunk.transfer_id == self.transfer_id {
                    self.hasher.update(chunk.data.as_slice());
                    self.bytes_received = self.bytes_received + chunk.data.len() as u64;
                    ChunkStep::Write(chunk.data)
                } else {
                    ChunkStep::Stop
                }
            },
            _ => ChunkStep::Stop,
        }
    }

    /// The verdict once the loop has ended: the announced size arrived and its
    /// digest matches the manifest's.
    pub fn succeeded(&self) -> (ok: bool)
        requires
            self.wf(),
        ensures
            ok == receive_success(self@),
            ok == (self@.received.len() == self@.size && blake3_digest(self@.received) == self@.hash),
    {
        let digest = self.hasher.finalize();
        self.bytes_received == self.size && digests_equal(&digest, &self.hash)
    }

    /// The report sent back to the sender: completion on success, otherwise an error
    /// saying "hash mismatch or incomplete transfer".
    pub fn completion_message(&self, success: bool) -> (m: Message)
        ensures
            success ==> m == (Message::TransferComplete { transfer_id: self@.transfer_id, success: true }),
            !success ==> (m matches Message::Error(e) && e.message@
                == "hash mismatch or incomplete transfer"@),
    {
        if success {
            Message::TransferComplete { transfer_id: self.transfer_id, success: true }
        } else {
            Message::Error(ErrorMsg { message: String::from_str("hash mismatch or incomplete transfer") })
        }
    }
}

} // verus!
