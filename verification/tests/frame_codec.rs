use pipe_queue::error::{Error, ErrorKind};
use pipe_queue::frame::{decode_len, encode_frame};

#[test]
fn empty_payload_encodes_to_a_bare_header() {
    let frame = encode_frame(&[]);
    assert_eq!(frame, vec![0u8, 0, 0, 0]);
}

#[test]
fn hello_payload_gets_a_big_endian_length_prefix() {
    let payload = b"Hello, reader!";
    let frame = encode_frame(payload);
    assert_eq!(frame.len(), payload.len() + 4);
    assert_eq!(&frame[0..4], &[0u8, 0, 0, 14]);
    assert_eq!(&frame[4..], payload);
}

#[test]
fn multi_byte_length_is_big_endian() {
    let payload = vec![7u8; 300];
    let frame = encode_frame(payload.as_slice());
    assert_eq!(&frame[0..4], &[0u8, 0, 1, 44]);
    assert_eq!(frame.len(), 304);
}

#[test]
fn decode_len_reads_big_endian() {
    assert_eq!(decode_len(&vec![0u8, 0, 0, 0]), 0);
    assert_eq!(decode_len(&vec![0u8, 0, 0, 14]), 14);
    assert_eq!(decode_len(&vec![1u8, 2, 3, 4]), 16909060);
    assert_eq!(decode_len(&vec![255u8, 255, 255, 255]), u32::MAX);
}

#[test]
fn a_frame_decodes_back_to_its_payload() {
    let payload = b"some message";
    let frame = encode_frame(payload);
    let header = frame[0..4].to_vec();
    let n = decode_len(&header) as usize;
    assert_eq!(n, payload.len());
    assert_eq!(&frame[4..4 + n], payload);
}

#[test]
fn an_error_keeps_its_kind_and_message() {
    let e = Error::new(ErrorKind::Protocol, "failed to read all bytes".to_string());
    assert_eq!(e.kind(), ErrorKind::Protocol);
    assert_eq!(e.message().as_str(), "failed to read all bytes");
    assert!(e.describe().contains("failed to read all bytes"));
}
