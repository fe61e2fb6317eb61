//! Transfer engine: chunk planning, queue, hashing and the two protocol sides.

use vstd::prelude::*;

pub mod hashing;
pub mod queue;
pub mod receiver;
pub mod scheduler;
pub mod sender;
pub mod transfer;

verus! {

/// Size of one chunk of file data sent in a single `ChunkData` message.
pub const CHUNK_SIZE: usize = 1048576;

} // verus!
