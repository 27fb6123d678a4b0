//! Trusted wrappers around the operating-system calls the queue is built
//! on: FIFO creation, non-blocking opens, byte transfer, advisory locking
//! and descriptor close. Each failure is reported through the last
//! operating-system error, which `Errno::latest` retrieves.

use vstd::prelude::*;

verus! {

/// Creates a FIFO special file at `path` with the given permission bits.
/// Relies on nix::unistd::mkfifo (mkfifo(2)).
#[verifier::external_body]
pub(crate) fn sys_mkfifo(path: &str, mode: u32) -> Result<(), ()> {
    match nix::unistd::mkfifo(path, nix::sys::stat::Mode::from_bits_truncate(mode)) {
        Ok(()) => Ok(()),
        Err(_) => Err(()),
    }
}

/// Opens the FIFO at `path` for writing, non-blocking, returning its file
/// descriptor. Relies on nix::fcntl::open (open(2)) with
/// O_WRONLY | O_NONBLOCK, which returns a non-negative descriptor on
/// success.
#[verifier::external_body]
pub(crate) fn sys_open_writer(path: &str) -> (r: Result<i32, ()>)
    ensures
        r is Ok ==> r->Ok_0 >= 0,
{
    let flags = nix::fcntl::OFlag::O_WRONLY | nix::fcntl::OFlag::O_NONBLOCK;
    match nix::fcntl::open(path, flags, nix::sys::stat::Mode::empty()) {
        Ok(fd) => Ok(fd),
        Err(_) => Err(()),
    }
}

/// Opens the FIFO at `path` for reading, non-blocking, returning its file
/// descriptor. Relies on nix::fcntl::open (open(2)) with
/// O_RDONLY | O_NONBLOCK, which returns a non-negative descriptor on
/// success.
#[verifier::external_body]
pub(crate) fn sys_open_reader(path: &str) -> (r: Result<i32, ()>)
    ensures
        r is Ok ==> r->Ok_0 >= 0,
{
    let flags = nix::fcntl::OFlag::O_RDONLY | nix::fcntl::OFlag::O_NONBLOCK;
    match nix::fcntl::open(path, flags, nix::sys::stat::Mode::empty()) {
        Ok(fd) => Ok(fd),
        Err(_) => Err(()),
    }
}

/// Reads at most `max` bytes from `fd` into a fresh buffer. Relies on
/// nix::unistd::read (read(2)): no more than the requested count is read,
/// and a successful read of zero bytes means the writing end is closed
/// with no data left.
#[verifier::external_body]
pub(crate) fn sys_read_chunk(fd: i32, max: usize) -> (r: Result<Vec<u8>, ()>)
    requires
        max >= 1,
    ensures
        r is Ok ==> r->Ok_0@.len() <= max,
{
    let mut buf: Vec<u8> = vec![0u8; max];
    match nix::unistd::read(fd, &mut buf) {
        Ok(n) => {
            buf.truncate(n);
            Ok(buf)
        },
        Err(_) => Err(()),
    }
}

/// Writes the bytes of `data` from position `from` on to `fd`, returning
/// how many were written. Relies on nix::unistd::write (write(2)): no more
/// than the given count is written.
#[verifier::external_body]
pub(crate) fn sys_write_chunk(fd: i32, data: &[u8], from: usize) -> (r: Result<usize, ()>)
    requires
        from < data@.len(),
    ensures
        r is Ok ==> r->Ok_0 <= data@.len() - from,
{
    match nix::unistd::write(fd, &data[from..]) {
        Ok(n) => Ok(n),
        Err(_) => Err(()),
    }
}

/// Acquires an exclusive advisory lock on `fd`, waiting until it is free.
/// Relies on nix::fcntl::flock (flock(2)) with LockExclusive.
#[verifier::external_body]
pub(crate) fn sys_lock_exclusive(fd: i32) -> Result<(), ()> {
    match nix::fcntl::flock(fd, nix::fcntl::FlockArg::LockExclusive) {
        Ok(()) => Ok(()),
        Err(_) => Err(()),
    }
}

/// Releases the advisory lock held on `fd`. Relies on nix::fcntl::flock
/// (flock(2)) with Unlock. A failure to release is unrecoverable, since
/// the lock would otherwise stay held forever, and aborts.
#[verifier::external_body]
pub(crate) fn sys_unlock(fd: i32) {
    nix::fcntl::flock(fd, nix::fcntl::FlockArg::Unlock).expect("failed to release lock on pipe");
}

/// Closes `fd`, ignoring failure, as the owning handle is being
/// discarded. Relies on nix::unistd::close (close(2)), which does not
/// unwind.
#[verifier::external_body]
pub(crate) fn sys_close(fd: i32)
    opens_invariants none
    no_unwind
{
    let _ = nix::unistd::close(fd);
}

} // verus!
