//! Application-wide error type and the message the user sees for it.

use vstd::prelude::*;

verus! {

/// The kinds of I/O failure that get a message of their own.
#[derive(Clone, Copy, Debug, PartialEq, Eq, Structural)]
pub enum IoErrorKind {
    StorageFull,
    PermissionDenied,
    Other,
}

/// An I/O failure, held as its kind and its rendered description.
#[derive(Debug)]
pub struct IoFailure {
    pub kind: IoErrorKind,
    pub description: String,
}

/// Application-wide error type, reported to the frontend as a structured object
/// carrying `user_message` rather than a raw string.
#[derive(Debug)]
pub enum AppError {
    Io(IoFailure),
    Other(String),
}

/// The message shown to the user for `e`.
pub open spec fn user_message_spec(e: AppError) -> Seq<char> {
    match e {
        AppError::Io(io) => match io.kind {
            IoErrorKind::StorageFull => "Disk full"@,
            IoErrorKind::PermissionDenied => "Permission denied"@,
            IoErrorKind::Other => "File error: "@ + io.description@,
        },
        AppError::Other(msg) => msg@,
    }
}

impl AppError {
    /// A message distinct per error kind, so the UI does not fall back to a generic
    /// "failed".
    pub fn user_message(&self) -> (msg: String)
        ensures
            msg@ == user_message_spec(*self),
    {
        match self {
            AppError::Io(io) => match io.kind {
                IoErrorKind::StorageFull => String::from_str("Disk full"),
                IoErrorKind::PermissionDenied => String::from_str("Permission denied"),
                IoErrorKind::Other => {
                    let mut msg = String::from_str("File error: ");
                    msg.append(io.description.as_str());
                    msg
                },
            },
            AppError::Other(msg) => msg.clone(),
        }
    }
}

} // verus!
