use std::io::{Cursor, ErrorKind, Read};

use bytes::BytesMut;
use modio::stream::{Event, FileStream, Step};

/// Reads the next chunk of at most `size` bytes off the stream's source.
fn read_event(stream: &mut FileStream<Cursor<Vec<u8>>>, size: usize) -> Event<Cursor<Vec<u8>>, std::io::Error> {
    let source = stream.reader().expect("a streaming stream has a source");
    let mut buffer = vec![0u8; size];
    match source.read(&mut buffer) {
        Ok(0) => Event::End,
        Ok(count) => Event::Chunk(BytesMut::from(&buffer[..count])),
        Err(error) => Event::Failed(error),
    }
}

/// Polls the stream to its end and puts the chunks end to end.
fn concat(stream: &mut FileStream<Cursor<Vec<u8>>>, size: usize) -> Vec<u8> {
    let mut all = Vec::new();
    loop {
        let event = read_event(stream, size);
        assert!(stream.expects(&event));
        match stream.poll(event) {
            Step::Chunk(chunk) => all.extend_from_slice(&chunk[..]),
            Step::End => return all,
            Step::NotReady { .. } => {}
            Step::Failed(error) => panic!("the source failed: {}", error),
        }
    }
}

#[test]
fn new() {
    let reader = Cursor::new(b"Hello World".to_vec());
    let mut stream = FileStream::new(reader);
    assert!(stream.path().is_none());
    let bytes = concat(&mut stream, 4);
    assert_eq!(bytes, &b"Hello World"[..]);
}

#[test]
fn open() {
    let content = b"[package]\nname = \"modio\"\n".to_vec();
    let mut stream: FileStream<Cursor<Vec<u8>>> = FileStream::open("Cargo.toml");
    assert_eq!(stream.path().map(|path| path.as_str()), Some("Cargo.toml"));
    assert!(stream.reader().is_none());

    let pending: Event<Cursor<Vec<u8>>, std::io::Error> = Event::Pending;
    assert!(stream.expects(&pending));
    assert!(matches!(stream.poll(pending), Step::NotReady { notify: false }));
    assert!(stream.path().is_some());

    let opened: Event<Cursor<Vec<u8>>, std::io::Error> = Event::Opened(Cursor::new(content.clone()));
    assert!(stream.expects(&opened));
    assert!(matches!(stream.poll(opened), Step::NotReady { notify: true }));
    assert!(stream.path().is_none());

    let bytes = concat(&mut stream, 7);
    assert_eq!(bytes, &content[..]);
}

#[test]
fn chunks_come_in_source_order_for_every_chunk_size() {
    let content: Vec<u8> = (0..=255u8).cycle().take(1000).collect();
    for size in [1usize, 2, 3, 64, 999, 1000, 4096] {
        let mut stream = FileStream::new(Cursor::new(content.clone()));
        assert_eq!(concat(&mut stream, size), content);
    }
}

#[test]
fn empty_source_ends_at_once() {
    let mut stream = FileStream::new(Cursor::new(Vec::new()));
    let end: Event<Cursor<Vec<u8>>, std::io::Error> = Event::End;
    assert!(matches!(stream.poll(end), Step::End));
    assert!(stream.path().is_none());
}

#[test]
fn missing_file_fails_on_first_poll_not_at_construction() {
    let mut stream: FileStream<Cursor<Vec<u8>>> = FileStream::open("/no/such/file");
    assert_eq!(stream.path().map(|path| path.as_str()), Some("/no/such/file"));
    let failed: Event<Cursor<Vec<u8>>, std::io::Error> =
        Event::Failed(std::io::Error::new(ErrorKind::NotFound, "no such file"));
    assert!(stream.expects(&failed));
    match stream.poll(failed) {
        Step::Failed(error) => {
            assert_eq!(error.kind(), ErrorKind::NotFound);
            assert_eq!(error.to_string(), "no such file");
        }
        _ => panic!("the failure of the open was not passed on"),
    }
    assert!(stream.path().is_some());
}

#[test]
fn read_failure_is_passed_on_unchanged() {
    let mut stream = FileStream::new(Cursor::new(b"abc".to_vec()));
    let failed: Event<Cursor<Vec<u8>>, std::io::Error> =
        Event::Failed(std::io::Error::new(ErrorKind::UnexpectedEof, "cut"));
    match stream.poll(failed) {
        Step::Failed(error) => {
            assert_eq!(error.kind(), ErrorKind::UnexpectedEof);
            assert_eq!(error.to_string(), "cut");
        }
        _ => panic!("the failure of the read was not passed on"),
    }
    assert_eq!(concat(&mut stream, 2), b"abc".to_vec());
}

#[test]
fn pending_read_is_not_ready_without_notice() {
    let mut stream = FileStream::new(Cursor::new(b"abc".to_vec()));
    let pending: Event<Cursor<Vec<u8>>, std::io::Error> = Event::Pending;
    assert!(matches!(stream.poll(pending), Step::NotReady { notify: false }));
    assert_eq!(concat(&mut stream, 8), b"abc".to_vec());
}

#[test]
fn events_of_the_other_operation_are_not_expected() {
    let opening: FileStream<Cursor<Vec<u8>>> = FileStream::open("a.zip");
    let chunk: Event<Cursor<Vec<u8>>, std::io::Error> = Event::Chunk(BytesMut::from(&b"x"[..]));
    let end: Event<Cursor<Vec<u8>>, std::io::Error> = Event::End;
    assert!(!opening.expects(&chunk));
    assert!(!opening.expects(&end));

    let streaming = FileStream::new(Cursor::new(Vec::new()));
    let opened: Event<Cursor<Vec<u8>>, std::io::Error> = Event::Opened(Cursor::new(Vec::new()));
    assert!(!streaming.expects(&opened));
    assert!(streaming.expects(&chunk));
    assert!(streaming.expects(&end));
}

#[test]
fn chunk_is_frozen_with_its_bytes() {
    let mut stream = FileStream::new(Cursor::new(Vec::new()));
    let chunk: Event<Cursor<Vec<u8>>, std::io::Error> = Event::Chunk(BytesMut::from(&b"\x00\xffpayload"[..]));
    match stream.poll(chunk) {
        Step::Chunk(frozen) => {
            let frozen: bytes::Bytes = frozen;
            assert_eq!(&frozen[..], b"\x00\xffpayload");
        }
        _ => panic!("the chunk was not passed on"),
    }
}
