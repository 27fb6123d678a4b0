//! The byte-transfer primitives: loops that repeat a transfer call until
//! an exact byte count has moved, silently retrying the transient
//! would-block condition of a non-blocking descriptor, and surfacing every
//! other condition as a classified error.

use vstd::prelude::*;
use crate::errno::Errno;
use crate::error::{Error, ErrorKind};
use crate::sys::{sys_read_chunk, sys_write_chunk};

verus! {

/// How many consecutive fruitless would-block retries a transfer loop
/// tolerates before reporting an I/O failure. The protocol itself sets no
/// bound on retrying; this one exists so that the loops provably
/// terminate, and is far too large ever to be reached in practice.
pub const RETRY_BUDGET: u64 = 0xffff_ffff_ffff_ffff;

/// Reads exactly `n` bytes from `fd`, retrying the transient would-block
/// condition until the full count has arrived. A transfer of zero bytes
/// means the peer closed its end mid-message and is a protocol violation;
/// any other failure is an I/O error. Reading zero bytes asks for
/// nothing and always succeeds.
pub fn read_exact(fd: i32, n: usize) -> (r: Result<Vec<u8>, Error>)
    ensures
        r is Ok ==> r->Ok_0@.len() == n,
        n == 0 ==> r is Ok,
        r is Err ==> (r->Err_0.spec_kind() == ErrorKind::Protocol || r->Err_0.spec_kind()
            == ErrorKind::Io),
{
    let mut acc: Vec<u8> = Vec::new();
    let mut budget: u64 = RETRY_BUDGET;
    while acc.len() < n
        invariant
            acc@.len() <= n,
        decreases n - acc@.len(), budget,
    {
        match sys_read_chunk(fd, n - acc.len()) {
            Ok(chunk) => {
                let mut chunk = chunk;
                if chunk.len() == 0 {
                    return Err(
                        Error::new(ErrorKind::Protocol, "failed to read all bytes".to_owned()),
                    );
                }
                acc.append(&mut chunk);
                budget = RETRY_BUDGET;
            },
            Err(_) => {
                let e = Errno::latest();
                if e.is_eagain() {
                    if budget == 0 {
                        return Err(Error::new(ErrorKind::Io, "failed to read".to_owned()));
                    }
                    budget = budget - 1;
                } else {
                    return Err(Error::with_os(ErrorKind::Io, "failed to read".to_owned(), e));
                }
            },
        }
    }
    Ok(acc)
}

/// Writes all of `data` to `fd`, retrying the transient would-block
/// condition until every byte has been accepted. A transfer of zero bytes
/// means the peer closed its end and is a protocol violation; any other
/// failure is an I/O error. Writing no bytes asks for nothing and always
/// succeeds.
pub fn write_all(fd: i32, data: &[u8]) -> (r: Result<(), Error>)
    ensures
        data@.len() == 0 ==> r is Ok,
        r is Err ==> (r->Err_0.spec_kind() == ErrorKind::Protocol || r->Err_0.spec_kind()
            == ErrorKind::Io),
{
    let mut written: usize = 0;
    let mut budget: u64 = RETRY_BUDGET;
    while written < data.len()
        invariant
            written <= data@.len(),
        decreases data@.len() - written, budget,
    {
        match sys_write_chunk(fd, data, written) {
            Ok(k) => {
                if k == 0 {
                    return Err(
                        Error::new(ErrorKind::Protocol, "failed to write all bytes".to_owned()),
                    );
                }
                written = written + k;
                budget = RETRY_BUDGET;
            },
            Err(_) => {
                let e = Errno::latest();
                if e.is_eagain() {
                    if budget == 0 {
                        return Err(Error::new(ErrorKind::Io, "failed to write".to_owned()));
                    }
                    budget = budget - 1;
                } else {
                    return Err(Error::with_os(ErrorKind::Io, "failed to write".to_owned(), e));
                }
            },
        }
    }
    Ok(())
}

} // verus!
