//! Verified core of a peer-to-peer file transfer tool: chunk planning, the
//! transfer queue, the sender and receiver protocol state machines, content
//! hashing, and the small decisions around them.

pub mod engine;
pub mod models;
pub mod error;
pub mod net;
pub mod commands;
pub mod events;
