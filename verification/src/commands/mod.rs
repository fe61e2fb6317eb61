//! The decisions taken by the user-facing commands around the engine.

pub mod direct;
pub mod transfers;
