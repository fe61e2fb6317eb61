//! How the outcome of sending a file is reported.

use vstd::prelude::*;

use crate::error::{user_message_spec, AppError};
use crate::models::{ErrorKind, ItemStatus};

verus! {

/// The status a sent file ends in: done when the receiver confirmed the hash, a
/// hash-mismatch error when it reported a mismatch, and otherwise an error carrying
/// the failure's user message.
pub fn sent_file_status(result: &Result<bool, AppError>) -> (status: ItemStatus)
    ensures
        match result {
            Ok(true) => status == ItemStatus::Done,
            Ok(false) => status matches ItemStatus::Error { kind, message } && kind
                == ErrorKind::HashMismatch && message@ == "receiver reported a hash mismatch"@,
            Err(e) => status matches ItemStatus::Error { kind, message } && kind == ErrorKind::Other
                && message@ == user_message_spec(*e),
        },
{
    match result {
        Ok(true) => ItemStatus::Done,
        Ok(false) => ItemStatus::Error {
            kind: ErrorKind::HashMismatch,
            message: String::from_str("receiver reported a hash mismatch"),
        },
        Err(err) => ItemStatus::Error { kind: ErrorKind::Other, message: err.user_message() },
    }
}

} // verus!
