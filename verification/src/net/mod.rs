//! Wire protocol and link-level helpers.

pub mod direct_link;
pub mod protocol;
