//! The errors of a nullifier database and their messages.

use vstd::prelude::*;
use vstd::string::*;
use crate::db::Scalar;
use crate::text::{byte_list, decimal, push_byte_list, push_decimal};

verus! {

/// What kind of failure an I/O operation reported, as far as the database
/// tells failures apart.
#[derive(Debug, Clone, Copy, PartialEq, Eq, Structural)]
pub enum IoErrorKind {
    /// The file does not exist.
    NotFound,
    /// The operation would have to wait, e.g. for a lock another process holds.
    WouldBlock,
    /// The file ended before a read was complete.
    UnexpectedEof,
    /// Any other failure.
    Other,
}

/// A failed I/O operation: its kind and the text the system gave for it.
#[derive(Debug)]
pub struct IoFailure {
    pub kind: IoErrorKind,
    pub message: String,
}

/// Error types that can occur during NullifierDB operations.
#[derive(Debug)]
pub enum NullifierError {
    /// File system related errors
    Io {
        /// The underlying IO error
        source: IoFailure,
        /// Context describing what operation was being performed
        context: &'static str,
    },
    /// The database file doesn't exist at the specified path
    FileNotFound {
        /// The path that was attempted to be opened
        path: String,
    },
    /// Data corruption errors
    InvalidScalar {
        /// Position in the file where the invalid scalar was found
        position: u64,
        /// The raw bytes that failed to convert to a valid scalar
        bytes: [u8; 32],
    },
    /// File size is not a multiple of 32 bytes (scalar size)
    CorruptedFileSize {
        /// Actual file size
        size: u64,
        /// Calculated valid size (nearest multiple of 32)
        valid_size: u64,
    },
    /// Error during file truncation when repairing
    TruncateError {
        /// The underlying IO error
        source: IoFailure,
        /// The size the file was being truncated to
        target_size: u64,
    },
    /// Error when writing a nullifier to persistent storage
    WriteError {
        /// The underlying IO error
        source: IoFailure,
        /// The scalar that was being written
        scalar: Scalar,
    },
    /// Error when flushing data to persistent storage
    FlushError {
        /// The underlying IO error
        source: IoFailure,
    },
    /// Error when syncing data to disk
    SyncError {
        /// The underlying IO error
        source: IoFailure,
    },
    /// Database is already locked by another process or thread
    DatabaseLocked {
        /// Path to the database file
        path: String,
    },
    /// Failed to acquire file lock
    LockAcquisitionError {
        /// The underlying IO error
        source: IoFailure,
        /// Path to the database file
        path: String,
    },
    /// Failed to release file lock
    LockReleaseError {
        /// The underlying IO error
        source: IoFailure,
        /// Path to the database file
        path: String,
    },
}

/// The message of an error, as the database prints it.
pub open spec fn error_text(e: NullifierError) -> Seq<char> {
    match e {
        NullifierError::Io { source, context } =>
            "IO error during "@ + context@ + ": "@ + source.message@,
        NullifierError::FileNotFound { path } =>
            "Database file not found at path: "@ + path@,
        NullifierError::InvalidScalar { position, bytes } =>
            "Invalid scalar data at position "@ + decimal(position as nat) + ": "@ + byte_list(bytes@),
        NullifierError::CorruptedFileSize { size, valid_size } =>
            "Corrupted file size "@ + decimal(size as nat)
                + " bytes (not a multiple of 32). Valid size would be "@
                + decimal(valid_size as nat) + " bytes"@,
        NullifierError::TruncateError { source, target_size } =>
            "Failed to truncate file to "@ + decimal(target_size as nat) + " bytes: "@
                + source.message@,
        NullifierError::WriteError { source, .. } =>
            "Failed to write nullifier to persistent storage: "@ + source.message@,
        NullifierError::FlushError { source } =>
            "Failed to flush data to persistent storage: "@ + source.message@,
        NullifierError::SyncError { source } =>
            "Failed to sync data to disk: "@ + source.message@,
        NullifierError::DatabaseLocked { path } =>
            "Database is locked at path: "@ + path@
                + ". Another process currently has exclusive access. If you're sure no other process is using the database, restart your application."@,
        NullifierError::LockAcquisitionError { source, path } =>
            "Failed to acquire lock for database at "@ + path@ + ": "@ + source.message@,
        NullifierError::LockReleaseError { source, path } =>
            "Failed to release lock for database at "@ + path@ + ": "@ + source.message@,
    }
}

/// The I/O failure an error carries, if it carries one.
pub open spec fn error_source(e: NullifierError) -> Option<IoFailure> {
    match e {
        NullifierError::Io { source, .. } => Some(source),
        NullifierError::TruncateError { source, .. } => Some(source),
        NullifierError::WriteError { source, .. } => Some(source),
        NullifierError::FlushError { source } => Some(source),
        NullifierError::SyncError { source } => Some(source),
        NullifierError::LockAcquisitionError { source, .. } => Some(source),
        NullifierError::LockReleaseError { source, .. } => Some(source),
        _ => None,
    }
}

/// The error an I/O failure stands for when no operation is named:
/// a missing file, with the failure's text, or a general I/O error.
pub open spec fn error_from_io(failure: IoFailure) -> NullifierError {
    if failure.kind == IoErrorKind::NotFound {
        NullifierError::FileNotFound { path: failure.message }
    } else {
        NullifierError::Io { source: failure, context: "unspecified operation" }
    }
}

impl NullifierError {
    /// The message of this error.
    pub fn message(&self) -> (text: String)
        ensures
            text@ == error_text(*self),
    {
        let mut out = String::new();
        match self {
            NullifierError::Io { source, context } => {
                out.append("IO error during ");
                out.append(context);
                out.append(": ");
                out.append(source.message.as_str());
            },
            NullifierError::FileNotFound { path } => {
                out.append("Database file not found at path: ");
                out.append(path.as_str());
            },
            NullifierError::InvalidScalar { position, bytes } => {
                out.append("Invalid scalar data at position ");
                push_decimal(&mut out, *position);
                out.append(": ");
                push_byte_list(&mut out, bytes);
            },
            NullifierError::CorruptedFileSize { size, valid_size } => {
                out.append("Corrupted file size ");
                push_decimal(&mut out, *size);
                out.append(" bytes (not a multiple of 32). Valid size would be ");
                push_decimal(&mut out, *valid_size);
                out.append(" bytes");
            },
            NullifierError::TruncateError { source, target_size } => {
                out.append("Failed to truncate file to ");
                push_decimal(&mut out, *target_size);
                out.append(" bytes: ");
                out.append(source.message.as_str());
            },
            NullifierError::WriteError { source, .. } => {
                out.append("Failed to write nullifier to persistent storage: ");
                out.append(source.message.as_str());
            },
            NullifierError::FlushError { source } => {
                out.append("Failed to flush data to persistent storage: ");
                out.append(source.message.as_str());
            },
            NullifierError::SyncError { source } => {
                out.append("Failed to sync data to disk: ");
                out.append(source.message.as_str());
            },
            NullifierError::DatabaseLocked { path } => {
                out.append("Database is locked at path: ");
                out.append(path.as_str());
                out.append(
                    ". Another process currently has exclusive access. If you're sure no other process is using the database, restart your application.",
                );
            },
            NullifierError::LockAcquisitionError { source, path } => {
                out.append("Failed to acquire lock for database at ");
                out.append(path.as_str());
                out.append(": ");
                out.append(source.message.as_str());
            },
            NullifierError::LockReleaseError { source, path } => {
                out.append("Failed to release lock for database at ");
                out.append(path.as_str());
                out.append(": ");
                out.append(source.message.as_str());
            },
        }
        out
    }

    /// The I/O failure this error carries, if any.
    pub fn source(&self) -> (r: Option<&IoFailure>)
        ensures
            match r {
                Some(f) => error_source(*self) == Some(*f),
                None => error_source(*self) is None,
            },
    {
        match self {
            NullifierError::Io { source, .. } => Some(source),
            NullifierError::TruncateError { source, .. } => Some(source),
            NullifierError::WriteError { source, .. } => Some(source),
            NullifierError::FlushError { source } => Some(source),
            NullifierError::SyncError { source } => Some(source),
            NullifierError::LockAcquisitionError { source, .. } => Some(source),
            NullifierError::LockReleaseError { source, .. } => Some(source),
            _ => None,
        }
    }
}

impl From<IoFailure> for NullifierError {
    fn from(failure: IoFailure) -> (e: NullifierError) {
        match failure.kind {
            IoErrorKind::NotFound => NullifierError::FileNotFound { path: failure.message },
            _ => NullifierError::Io { source: failure, context: "unspecified operation" },
        }
    }
}

impl vstd::std_specs::convert::FromSpecImpl<IoFailure> for NullifierError {
    open spec fn obeys_from_spec() -> bool {
        true
    }

    open spec fn from_spec(failure: IoFailure) -> NullifierError {
        error_from_io(failure)
    }
}

} // verus!
