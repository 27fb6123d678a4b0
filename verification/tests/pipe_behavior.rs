use nix::fcntl::{open, OFlag};
use nix::sys::stat::Mode;
use nix::unistd::{close, mkfifo, unlink};
use pipe_queue::error::ErrorKind;
use pipe_queue::frame::encode_frame;
use pipe_queue::io::{read_exact, write_all};
use pipe_queue::{PipeQueue, PipeReader};

fn fresh_path(name: &str) -> String {
    let path = format!("/tmp/{}", name);
    let _ = unlink(path.as_str());
    path
}

#[test]
fn missing_fifo_reports_not_found() {
    let path = fresh_path("pipe_queue_missing_fifo");
    let err = PipeReader::new(path.as_str()).unwrap_err();
    assert_eq!(err.kind(), ErrorKind::NotFound);
    // The rendered failure carries both the operation and the
    // operating-system error text.
    let rendered = err.describe();
    assert!(rendered.contains("no FIFO exists at the given path"));
    assert!(rendered.len() > "no FIFO exists at the given path []".len());
}

#[test]
fn create_in_a_missing_directory_is_an_io_error() {
    let err = PipeQueue::create("/tmp/pipe_queue_no_such_dir/queue").unwrap_err();
    assert_eq!(err.kind(), ErrorKind::Io);
}

#[test]
fn create_leaves_the_fifo_behind_for_readers() {
    let path = fresh_path("pipe_queue_created_fifo");
    // No reader holds the FIFO open yet, so the non-blocking open of the
    // writing end fails and create reports an I/O error ...
    let err = PipeQueue::create(path.as_str()).unwrap_err();
    assert_eq!(err.kind(), ErrorKind::Io);
    // ... but the FIFO filesystem object was created and persists, so a
    // reader can now open it.
    let _reader = PipeReader::new(path.as_str()).unwrap();
    let _ = unlink(path.as_str());
}

#[test]
fn a_sent_frame_is_received_whole() {
    let path = fresh_path("pipe_queue_round_trip_fifo");
    mkfifo(path.as_str(), Mode::S_IRWXU).unwrap();
    let reader = PipeReader::new(path.as_str()).unwrap();
    let wfd = open(
        path.as_str(),
        OFlag::O_WRONLY | OFlag::O_NONBLOCK,
        Mode::empty(),
    )
    .unwrap();
    let frame = encode_frame(b"Hello, reader!");
    let n = nix::unistd::write(wfd, frame.as_slice()).unwrap();
    assert_eq!(n, frame.len());
    let data = reader.receive().unwrap();
    assert_eq!(data, b"Hello, reader!".to_vec());
    close(wfd).unwrap();
    let _ = unlink(path.as_str());
}

#[test]
fn zero_length_message_is_received_empty() {
    let path = fresh_path("pipe_queue_empty_message_fifo");
    mkfifo(path.as_str(), Mode::S_IRWXU).unwrap();
    let reader = PipeReader::new(path.as_str()).unwrap();
    let wfd = open(
        path.as_str(),
        OFlag::O_WRONLY | OFlag::O_NONBLOCK,
        Mode::empty(),
    )
    .unwrap();
    let frame = encode_frame(&[]);
    assert_eq!(nix::unistd::write(wfd, frame.as_slice()).unwrap(), 4);
    let data = reader.receive().unwrap();
    assert!(data.is_empty());
    close(wfd).unwrap();
    let _ = unlink(path.as_str());
}

#[test]
fn two_readers_each_get_one_message() {
    let path = fresh_path("pipe_queue_two_readers_fifo");
    mkfifo(path.as_str(), Mode::S_IRWXU).unwrap();
    let reader1 = PipeReader::new(path.as_str()).unwrap();
    let reader2 = PipeReader::new(path.as_str()).unwrap();
    let wfd = open(
        path.as_str(),
        OFlag::O_WRONLY | OFlag::O_NONBLOCK,
        Mode::empty(),
    )
    .unwrap();
    let mut frames = encode_frame(b"Hello, reader!");
    frames.extend_from_slice(encode_frame(b"Hello, reader!").as_slice());
    assert_eq!(nix::unistd::write(wfd, frames.as_slice()).unwrap(), frames.len());
    // The first receive acquires and releases the advisory lock; the
    // second, on an independent handle, must then proceed without
    // deadlock, and each call yields exactly one whole frame.
    let data1 = reader1.receive().unwrap();
    let data2 = reader2.receive().unwrap();
    assert_eq!(data1, b"Hello, reader!".to_vec());
    assert_eq!(data2, b"Hello, reader!".to_vec());
    close(wfd).unwrap();
    let _ = unlink(path.as_str());
}

#[test]
fn oversized_declared_length_fails_instead_of_hanging() {
    let path = fresh_path("pipe_queue_truncated_fifo");
    mkfifo(path.as_str(), Mode::S_IRWXU).unwrap();
    let reader = PipeReader::new(path.as_str()).unwrap();
    let wfd = open(
        path.as_str(),
        OFlag::O_WRONLY | OFlag::O_NONBLOCK,
        Mode::empty(),
    )
    .unwrap();
    // A header declaring 1000 payload bytes, followed by only 10, and
    // then the writer goes away.
    let mut bytes = vec![0u8, 0, 3, 232];
    bytes.extend_from_slice(&[9u8; 10]);
    assert_eq!(nix::unistd::write(wfd, bytes.as_slice()).unwrap(), bytes.len());
    close(wfd).unwrap();
    let err = reader.receive().unwrap_err();
    assert_eq!(err.kind(), ErrorKind::Protocol);
    let _ = unlink(path.as_str());
}

#[test]
fn transfer_loops_round_trip_through_a_file() {
    let path = fresh_path("pipe_queue_transfer_file");
    let wfd = open(
        path.as_str(),
        OFlag::O_CREAT | OFlag::O_WRONLY | OFlag::O_TRUNC,
        Mode::S_IRUSR | Mode::S_IWUSR,
    )
    .unwrap();
    write_all(wfd, &[1u8, 2, 3, 4, 5]).unwrap();
    close(wfd).unwrap();
    let rfd = open(path.as_str(), OFlag::O_RDONLY, Mode::empty()).unwrap();
    let bytes = read_exact(rfd, 5).unwrap();
    assert_eq!(bytes, vec![1u8, 2, 3, 4, 5]);
    // At end of input a transfer of zero bytes is a protocol violation,
    // not a short read.
    let err = read_exact(rfd, 1).unwrap_err();
    assert_eq!(err.kind(), ErrorKind::Protocol);
    close(rfd).unwrap();
    let _ = unlink(path.as_str());
}

#[test]
fn errno_reports_the_last_failure() {
    // Removing a file that does not exist leaves a not-found error as the
    // last operating-system error.
    let _ = unlink("/tmp/pipe_queue_errno_probe_missing");
    let _ = unlink("/tmp/pipe_queue_errno_probe_missing");
    let e = pipe_queue::errno::Errno::latest();
    assert!(e.is_error());
    assert!(e.is_enoent());
    assert!(!e.is_eagain());
    assert!(!e.into_text().is_empty());
}
