//! The operating-system error capability: retrieves the last OS error and
//! carries it as a raw code, a semantic class and human-readable text. The
//! queue logic only ever acts on the semantic class.

use vstd::prelude::*;

verus! {

/// The semantic classes of an operating-system error code that the queue
/// logic distinguishes.
#[derive(Clone, Copy, Debug, PartialEq, Eq, Structural)]
pub enum OsClass {
    /// The target path does not exist.
    NotFound,
    /// A non-blocking operation found no data or space yet and should be
    /// retried.
    WouldBlock,
    /// Any other error condition.
    Other,
}

/// The last operating-system error, translated to a semantic class and
/// rendered as text at the moment it was retrieved.
pub struct Errno {
    code: i32,
    class: OsClass,
    text: String,
}

impl Errno {
    /// The raw error code.
    pub closed spec fn spec_code(self) -> int {
        self.code as int
    }

    /// The semantic class of the error.
    pub closed spec fn spec_class(self) -> OsClass {
        self.class
    }

    /// The human-readable rendering of the error.
    pub closed spec fn spec_text(self) -> Seq<char> {
        self.text@
    }

    /// Retrieves the last operating-system error of the calling thread.
    /// Relies on nix::errno::Errno::last, which reads the thread's errno
    /// value, and on nix::errno::Errno::desc for its standard description.
    #[verifier::external_body]
    pub fn latest() -> Errno {
        let raw = nix::errno::Errno::last();
        Errno {
            code: raw as i32,
            class: match raw {
                nix::errno::Errno::ENOENT => OsClass::NotFound,
                nix::errno::Errno::EAGAIN => OsClass::WouldBlock,
                _ => OsClass::Other,
            },
            text: raw.desc().to_string(),
        }
    }

    /// Whether the error says the target path does not exist.
    pub fn is_enoent(&self) -> (r: bool)
        ensures
            r == (self.spec_class() is NotFound),
    {
        self.class == OsClass::NotFound
    }

    /// Whether the error is the transient would-block condition of a
    /// non-blocking descriptor.
    pub fn is_eagain(&self) -> (r: bool)
        ensures
            r == (self.spec_class() is WouldBlock),
    {
        self.class == OsClass::WouldBlock
    }

    /// Whether any error code is set at all.
    pub fn is_error(&self) -> (r: bool)
        ensures
            r == (self.spec_code() != 0),
    {
        self.code != 0
    }

    /// Hands out the human-readable rendering of the error.
    pub fn into_text(self) -> (t: String)
        ensures
            t@ == self.spec_text(),
    {
        self.text
    }
}

} // verus!
