//! The failure taxonomy of the queue: every fallible operation reports a
//! classified error with the operation that failed and, where one was
//! involved, the operating-system error text.

use vstd::prelude::*;
use crate::errno::Errno;

verus! {

/// The classification of a queue failure.
#[derive(Clone, Copy, Debug, PartialEq, Eq, Structural)]
pub enum ErrorKind {
    /// The target path did not exist when opening a reader.
    NotFound,
    /// An operating-system level failure during create, open, transfer or
    /// lock acquisition.
    Io,
    /// A protocol violation: the peer closed its end mid-frame, or a frame
    /// declared more bytes than could ever arrive.
    Protocol,
}

/// A queue failure: its classification, the operation that failed, and the
/// operating-system error text where one was involved.
#[derive(Debug)]
pub struct Error {
    kind: ErrorKind,
    message: String,
    os_text: String,
}

impl Error {
    /// The classification of this failure.
    pub closed spec fn spec_kind(self) -> ErrorKind {
        self.kind
    }

    /// The message naming the failed operation.
    pub closed spec fn spec_message(self) -> Seq<char> {
        self.message@
    }

    /// The operating-system error text the failure carries; empty where no
    /// operating-system error was involved.
    pub closed spec fn spec_os_text(self) -> Seq<char> {
        self.os_text@
    }

    /// Builds an error of the given class from a message alone, with no
    /// operating-system error text.
    pub fn new(kind: ErrorKind, message: String) -> (e: Error)
        ensures
            e.spec_kind() == kind,
            e.spec_message() == message@,
            e.spec_os_text() == Seq::<char>::empty(),
    {
        Error { kind, message, os_text: String::new() }
    }

    /// Builds an error of the given class carrying the text of the
    /// operating-system error that caused it.
    pub fn with_os(kind: ErrorKind, message: String, errno: Errno) -> (e: Error)
        ensures
            e.spec_kind() == kind,
            e.spec_message() == message@,
            e.spec_os_text() == errno.spec_text(),
    {
        Error { kind, message, os_text: errno.into_text() }
    }

    /// The classification of this failure.
    pub fn kind(&self) -> (k: ErrorKind)
        ensures
            k == self.spec_kind(),
    {
        self.kind
    }

    /// The message naming the failed operation.
    pub fn message(&self) -> (m: &String)
        ensures
            m@ == self.spec_message(),
    {
        &self.message
    }

    /// Renders the failure for diagnostics: the message, then the
    /// operating-system error text. Relies on std's string formatting.
    #[verifier::external_body]
    pub fn describe(&self) -> String {
        format!("{} [{}]", self.message, self.os_text)
    }
}

} // verus!
