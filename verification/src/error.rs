//! The failures that end a transfer.

use vstd::prelude::*;
use vstd::string::*;

verus! {

/// What went wrong, by the component that reported it.
#[derive(Clone, Copy, Debug, PartialEq, Eq, Structural)]
pub enum ErrorKind {
    /// A source path could not be read, or a destination could not be written.
    Path,
    /// A payload could not be compressed or decompressed.
    Codec,
    /// The object store refused or failed a put, a listing or a get.
    Store,
    /// An archive could not be unpacked because it is malformed.
    Archive,
}

/// A failure with the description of its cause. No failure is recovered
/// from: the first one ends the run.
#[derive(Clone, Debug, PartialEq, Eq)]
pub struct TransferError {
    pub kind: ErrorKind,
    pub description: String,
}

/// How unpacking an archive went wrong, as the I/O layer classes the error.
#[derive(Clone, Copy, Debug, PartialEq, Eq, Structural)]
pub enum UnpackFault {
    /// The bytes that were read are not valid.
    InvalidData,
    /// A parameter that was derived from the archive is not valid.
    InvalidInput,
    /// The archive ended before it was complete.
    UnexpectedEof,
    /// The error belongs to no class of the I/O layer.
    Other,
    /// Any other class: the file system refused or failed an operation.
    FileSystem,
}

/// The kind of failure that a fault in unpacking is: a fault in what was
/// read is a malformed archive, every other a destination that cannot be
/// written.
pub open spec fn unpack_kind(fault: UnpackFault) -> ErrorKind {
    match fault {
        UnpackFault::InvalidData => ErrorKind::Archive,
        UnpackFault::InvalidInput => ErrorKind::Archive,
        UnpackFault::UnexpectedEof => ErrorKind::Archive,
        UnpackFault::Other => ErrorKind::Archive,
        UnpackFault::FileSystem => ErrorKind::Path,
    }
}

/// The words that introduce a failure of the given kind.
pub open spec fn kind_label(kind: ErrorKind) -> Seq<char> {
    match kind {
        ErrorKind::Path => "path error"@,
        ErrorKind::Codec => "codec error"@,
        ErrorKind::Store => "store error"@,
        ErrorKind::Archive => "archive error"@,
    }
}

impl TransferError {
    /// A failure of the given kind with the given description.
    pub fn new(kind: ErrorKind, description: String) -> (error: TransferError)
        ensures
            error.kind == kind,
            error.description == description,
    {
        TransferError { kind, description }
    }

    /// The failure that a fault in unpacking is, with the given
    /// description: a malformed archive, or a destination that cannot be
    /// written.
    pub fn unpack(fault: UnpackFault, description: String) -> (error: TransferError)
        ensures
            error.kind == unpack_kind(fault),
            error.description == description,
    {
        let kind = match fault {
            UnpackFault::FileSystem => ErrorKind::Path,
            _ => ErrorKind::Archive,
        };
        TransferError { kind, description }
    }

    /// The text that this failure is reported with.
    pub open spec fn message_spec(&self) -> Seq<char> {
        kind_label(self.kind) + ": "@ + self.description@
    }

    /// The failure as one line of text: its kind, then the description of
    /// its cause.
    pub fn message(&self) -> (text: String)
        ensures
            text@ == self.message_spec(),
    {
        let label = match self.kind {
            ErrorKind::Path => "path error",
            ErrorKind::Codec => "codec error",
            ErrorKind::Store => "store error",
            ErrorKind::Archive => "archive error",
        };
        let mut text = String::from_str(label);
        text.append(": ");
        text.append(self.description.as_str());
        text
    }
}

} // verus!
