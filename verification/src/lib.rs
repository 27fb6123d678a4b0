//! A single-producer, multi-consumer message queue over a POSIX named pipe
//! (FIFO). Producers enqueue discrete byte messages through a `PipeQueue`;
//! any number of `PipeReader` handles may dequeue, each message being
//! delivered whole to exactly one consumer under an advisory lock.

use vstd::prelude::*;

pub mod errno;
pub mod error;
pub mod frame;
pub mod io;
mod sys;

use crate::errno::Errno;
use crate::error::{Error, ErrorKind};
use crate::frame::{encode_frame, decode_len};
use crate::io::{read_exact, write_all};
use crate::sys::{sys_mkfifo, sys_open_writer, sys_open_reader, sys_lock_exclusive, sys_unlock,
    sys_close};

verus! {

/// The permission bits a freshly created FIFO gets: read, write and
/// execute for the owner alone.
pub const FIFO_MODE_OWNER_ALL: u32 = 0o700;

/// The producer-facing handle: exclusively owns the writing descriptor of
/// the pipe, which is closed when the handle is dropped.
#[derive(Debug)]
pub struct PipeQueue {
    write_fd: i32,
}

/// The consumer-facing handle: exclusively owns one reading descriptor of
/// the pipe, which is closed when the handle is dropped. Any number of
/// readers may exist on the same pipe; the advisory lock serializes their
/// `receive` calls.
#[derive(Debug)]
pub struct PipeReader {
    read_fd: i32,
}

/// Scoped mutual exclusion over a reader's descriptor: exists exactly
/// while the exclusive advisory lock is held, and releasing it consumes
/// it.
struct AdvisoryLock {
    fd: i32,
}

impl AdvisoryLock {
    /// Acquires the exclusive advisory lock on `fd`, waiting until no
    /// other reader holds it. Failure to acquire is an I/O error.
    fn acquire(fd: i32) -> (r: Result<AdvisoryLock, Error>)
        ensures
            r is Err ==> r->Err_0.spec_kind() == ErrorKind::Io,
    {
        match sys_lock_exclusive(fd) {
            Ok(()) => Ok(AdvisoryLock { fd }),
            Err(()) => {
                let e = Errno::latest();
                Err(Error::with_os(ErrorKind::Io, "failed to acquire lock on pipe".to_owned(), e))
            },
        }
    }

    /// Releases the lock, consuming the guard.
    fn release(self) {
        sys_unlock(self.fd);
    }
}

/// The phases of one `receive` call: the lock is acquired first, then the
/// length and the payload are read, and the call ends by releasing the
/// lock, with the outcome it is propagating.
pub enum ReceivePhase {
    /// Acquiring the exclusive advisory lock.
    AcquireLock,
    /// Reading the 4-byte length field, lock held.
    ReadLength,
    /// Reading the declared payload bytes, lock held.
    ReadPayload,
    /// Terminal: the lock is released and the payload is returned.
    ReleaseLockSuccess,
    /// Terminal: the lock is released and the failure is propagated.
    ReleaseLockFailure,
}

/// Whether the advisory lock is held in a phase of `receive`.
pub open spec fn lock_held(p: ReceivePhase) -> bool {
    p is ReadLength || p is ReadPayload
}

/// Whether a phase of `receive` is terminal.
pub open spec fn phase_is_terminal(p: ReceivePhase) -> bool {
    p is ReleaseLockSuccess || p is ReleaseLockFailure
}

/// One transition of the `receive` state machine: `ok` says whether the
/// work of the current phase succeeded. Any failure goes straight to the
/// releasing terminal; a terminal phase stays where it is.
pub open spec fn receive_step(p: ReceivePhase, ok: bool) -> ReceivePhase {
    match p {
        ReceivePhase::AcquireLock => if ok {
            ReceivePhase::ReadLength
        } else {
            ReceivePhase::ReleaseLockFailure
        },
        ReceivePhase::ReadLength => if ok {
            ReceivePhase::ReadPayload
        } else {
            ReceivePhase::ReleaseLockFailure
        },
        ReceivePhase::ReadPayload => if ok {
            ReceivePhase::ReleaseLockSuccess
        } else {
            ReceivePhase::ReleaseLockFailure
        },
        ReceivePhase::ReleaseLockSuccess => p,
        ReceivePhase::ReleaseLockFailure => p,
    }
}

/// Lock release law: whatever the outcomes of its three phases, a
/// `receive` that starts at `AcquireLock` ends in a terminal phase where
/// the lock is no longer held, and it ends in the success terminal
/// exactly when all three phases succeeded.
pub proof fn lemma_receive_always_releases(lock_ok: bool, length_ok: bool, payload_ok: bool)
    ensures
        ({
            let end = receive_step(
                receive_step(receive_step(ReceivePhase::AcquireLock, lock_ok), length_ok),
                payload_ok,
            );
            &&& phase_is_terminal(end)
            &&& !lock_held(end)
            &&& (end is ReleaseLockSuccess <==> (lock_ok && length_ok && payload_ok))
        }),
{
}

/// The error a failed reader open maps to: a missing path is reported as
/// NotFound, and only a missing path; everything else is an I/O error.
fn open_failure(e: Errno) -> (err: Error)
    ensures
        err.spec_kind() == (if e.spec_class() is NotFound {
            ErrorKind::NotFound
        } else {
            ErrorKind::Io
        }),
{
    if e.is_enoent() {
        Error::with_os(ErrorKind::NotFound, "no FIFO exists at the given path".to_owned(), e)
    } else {
        Error::with_os(ErrorKind::Io, "failed to open pipe for reading".to_owned(), e)
    }
}

impl PipeQueue {
    /// A live handle owns a valid descriptor.
    pub closed spec fn wf(self) -> bool {
        self.write_fd >= 0
    }

    /// Creates the FIFO at `path` with owner-only permissions, then opens
    /// its writing end in non-blocking mode. Every failure, of the
    /// creation or of the open, is an I/O error.
    pub fn create(path: &str) -> (r: Result<PipeQueue, Error>)
        ensures
            r is Ok ==> r->Ok_0.wf(),
            r is Err ==> r->Err_0.spec_kind() == ErrorKind::Io,
    {
        match sys_mkfifo(path, FIFO_MODE_OWNER_ALL) {
            Ok(()) => {},
            Err(()) => {
                let e = Errno::latest();
                return Err(Error::with_os(ErrorKind::Io, "failed to create FIFO".to_owned(), e));
            },
        }
        match sys_open_writer(path) {
            Ok(fd) => Ok(PipeQueue { write_fd: fd }),
            Err(()) => {
                let e = Errno::latest();
                Err(Error::with_os(ErrorKind::Io, "failed to open pipe for writing".to_owned(), e))
            },
        }
    }

    /// Sends one message: builds the frame, the 4-byte big-endian length
    /// followed by the payload, and writes it through a single write loop,
    /// so a consumer never observes a partial frame at the API boundary.
    /// A payload longer than the length field can carry is a contract
    /// violation and is excluded by the precondition.
    pub fn send(&self, data: &[u8]) -> (r: Result<(), Error>)
        requires
            self.wf(),
            data@.len() <= u32::MAX,
        ensures
            r is Err ==> (r->Err_0.spec_kind() == ErrorKind::Protocol || r->Err_0.spec_kind()
                == ErrorKind::Io),
    {
        let message = encode_frame(data);
        write_all(self.write_fd, message.as_slice())
    }
}

impl PipeReader {
    /// A live handle owns a valid descriptor.
    pub closed spec fn wf(self) -> bool {
        self.read_fd >= 0
    }

    /// Opens the existing FIFO at `path` for reading in non-blocking
    /// mode. A missing path is reported as NotFound; any other failure as
    /// an I/O error.
    pub fn new(path: &str) -> (r: Result<PipeReader, Error>)
        ensures
            r is Ok ==> r->Ok_0.wf(),
            r is Err ==> (r->Err_0.spec_kind() == ErrorKind::NotFound || r->Err_0.spec_kind()
                == ErrorKind::Io),
    {
        match sys_open_reader(path) {
            Ok(fd) => Ok(PipeReader { read_fd: fd }),
            Err(()) => Err(open_failure(Errno::latest())),
        }
    }

    /// Receives one message under the protection of the advisory lock:
    /// acquires it, reads one frame, and releases it on every path out,
    /// by success or by failure, so another reader's `receive` can always
    /// proceed afterwards.
    pub fn receive(&self) -> (r: Result<Vec<u8>, Error>)
        requires
            self.wf(),
        ensures
            r is Ok ==> r->Ok_0@.len() <= u32::MAX,
            r is Err ==> (r->Err_0.spec_kind() == ErrorKind::Protocol || r->Err_0.spec_kind()
                == ErrorKind::Io),
    {
        let lock = match AdvisoryLock::acquire(self.read_fd) {
            Ok(lock) => lock,
            Err(e) => {
                return Err(e);
            },
        };
        let result = self.read_message();
        lock.release();
        result
    }

    /// Reads one frame: exactly 4 header bytes, interpreted as a
    /// big-endian unsigned length, then exactly that many payload bytes.
    /// A failure at either phase aborts the whole read; no partial frame
    /// is ever returned.
    fn read_message(&self) -> (r: Result<Vec<u8>, Error>)
        requires
            self.wf(),
        ensures
            r is Ok ==> r->Ok_0@.len() <= u32::MAX,
            r is Err ==> (r->Err_0.spec_kind() == ErrorKind::Protocol || r->Err_0.spec_kind()
                == ErrorKind::Io),
    {
        let header = match read_exact(self.read_fd, 4) {
            Ok(header) => header,
            Err(e) => {
                return Err(e);
            },
        };
        let msg_len = decode_len(&header);
        match read_exact(self.read_fd, msg_len as usize) {
            Ok(payload) => Ok(payload),
            Err(e) => Err(e),
        }
    }
}

impl Drop for PipeQueue {
    /// Closes the writing descriptor when the handle goes out of scope.
    fn drop(&mut self)
        opens_invariants none
        no_unwind
    {
        sys_close(self.write_fd);
    }
}

impl Drop for PipeReader {
    /// Closes the reading descriptor when the handle goes out of scope.
    fn drop(&mut self)
        opens_invariants none
        no_unwind
    {
        sys_close(self.read_fd);
    }
}

} // verus!
