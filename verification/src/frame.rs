//! The length-prefixed framing protocol.
//!
//! A frame on the wire is a 4-byte unsigned big-endian length field `N`
//! followed by exactly `N` payload bytes. The length field written by a
//! producer always equals the payload byte count that follows it.

use vstd::prelude::*;

verus! {

/// The four big-endian bytes of a 32-bit message length.
pub open spec fn len_to_be_bytes(n: u32) -> Seq<u8> {
    seq![
        ((n >> 24) & 0xff) as u8,
        ((n >> 16) & 0xff) as u8,
        ((n >> 8) & 0xff) as u8,
        (n & 0xff) as u8,
    ]
}

/// The 32-bit message length read from four big-endian bytes.
pub open spec fn len_from_be_bytes(s: Seq<u8>) -> u32
    recommends
        s.len() == 4,
{
    ((s[0] as u32) << 24) | ((s[1] as u32) << 16) | ((s[2] as u32) << 8) | (s[3] as u32)
}

/// The wire frame for a payload: its length, big-endian, then its bytes.
pub open spec fn frame_of(payload: Seq<u8>) -> Seq<u8>
    recommends
        payload.len() <= u32::MAX,
{
    len_to_be_bytes(payload.len() as u32) + payload
}

/// The length a frame's header declares.
pub open spec fn declared_len(frame: Seq<u8>) -> u32
    recommends
        frame.len() >= 4,
{
    len_from_be_bytes(frame.take(4))
}

/// The payload bytes of a frame: everything after the header.
pub open spec fn frame_payload(frame: Seq<u8>) -> Seq<u8>
    recommends
        frame.len() >= 4,
{
    frame.skip(4)
}

/// Decoding the four bytes an encoder produced yields the encoded length.
pub proof fn lemma_len_round_trip(n: u32)
    ensures
        len_from_be_bytes(len_to_be_bytes(n)) == n,
{
    let s = len_to_be_bytes(n);
    assert(((((n >> 24) & 0xff) as u8 as u32) << 24) | ((((n >> 16) & 0xff) as u8 as u32) << 16)
        | ((((n >> 8) & 0xff) as u8 as u32) << 8) | ((n & 0xff) as u8 as u32) == n)
        by (bit_vector);
    assert(len_from_be_bytes(s) == n);
}

/// Round-trip law: a frame built from any payload that fits the length
/// field declares exactly that payload's length, and parsing the frame
/// back yields exactly that payload.
pub proof fn lemma_frame_round_trip(payload: Seq<u8>)
    requires
        payload.len() <= u32::MAX,
    ensures
        frame_of(payload).len() == payload.len() + 4,
        declared_len(frame_of(payload)) == payload.len(),
        frame_payload(frame_of(payload)) == payload,
{
    lemma_len_round_trip(payload.len() as u32);
    assert(frame_of(payload).take(4) =~= len_to_be_bytes(payload.len() as u32));
    assert(frame_of(payload).skip(4) =~= payload);
}

/// Builds the wire frame for a payload: 4-byte big-endian length, then the
/// payload bytes, as one buffer handed to a single write loop.
pub fn encode_frame(payload: &[u8]) -> (buf: Vec<u8>)
    requires
        payload@.len() <= u32::MAX,
    ensures
        buf@ == frame_of(payload@),
{
    let n: u32 = payload.len() as u32;
    let mut buf: Vec<u8> = Vec::new();
    buf.push(((n >> 24) & 0xff) as u8);
    buf.push(((n >> 16) & 0xff) as u8);
    buf.push(((n >> 8) & 0xff) as u8);
    buf.push((n & 0xff) as u8);
    assert(buf@ =~= len_to_be_bytes(n));
    let mut i: usize = 0;
    while i < payload.len()
        invariant
            i <= payload@.len(),
            payload@.len() <= u32::MAX,
            n == payload@.len() as u32,
            buf@ =~= len_to_be_bytes(n) + payload@.take(i as int),
        decreases payload@.len() - i,
    {
        buf.push(payload[i]);
        i = i + 1;
    }
    assert(buf@ =~= frame_of(payload@));
    buf
}

/// Reads a frame header: the four bytes as an unsigned big-endian length.
pub fn decode_len(header: &Vec<u8>) -> (n: u32)
    requires
        header@.len() == 4,
    ensures
        n == len_from_be_bytes(header@),
{
    ((header[0] as u32) << 24) | ((header[1] as u32) << 16) | ((header[2] as u32) << 8) | (
    header[3] as u32)
}

} // verus!
