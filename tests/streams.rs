use bytes::Bytes;

use fire_http_representation::hyper_body_stream::{BodyData, HyperBodyStream};
use fire_http_representation::more_bytes::MoreBytes;
use fire_http_representation::reader_stream::{ReadEvent, ReaderStream};
use fire_http_representation::size_limit::{SizeLimit, SizeLimitReached, DEF_CAPACITY};
use fire_http_representation::stream::{poll_bytes_once, StreamError, StreamPoll};
use fire_http_representation::stream_http_body::StreamHttpBody;
use fire_http_representation::stream_reader::{ReadOutcome, ReadStep, StreamReader};

fn ready_bytes(p: StreamPoll) -> Bytes {
    match p {
        StreamPoll::Ready(b) => b,
        _ => panic!("expected a chunk"),
    }
}

fn is_end(p: &StreamPoll) -> bool {
    matches!(p, StreamPoll::End)
}

fn size_limit_of(p: &StreamPoll) -> Option<SizeLimitReached> {
    match p {
        StreamPoll::Failed(StreamError::SizeLimit(e)) => Some(*e),
        _ => None,
    }
}

#[test]
fn some_tests() {
    let mut limit = SizeLimit::empty();
    assert_eq!(limit.new_capacity(), DEF_CAPACITY);

    limit.set(2);
    assert_eq!(SizeLimit::new(2), limit);
    assert_eq!(limit.new_capacity(), 2);

    assert!(limit.add_read_res(2).is_ok());
    assert!(!limit.surpassed());

    assert!(limit.add_read_res(1).is_err());
    assert!(limit.surpassed());
    assert_eq!(limit.new_capacity(), 0);
}

#[test]
fn size_limit_error_carries_ceiling() {
    let mut limit = SizeLimit::new(5);
    assert_eq!(limit.add_read_res(6), Err(SizeLimitReached(5)));
    // once crossed it stays crossed
    assert!(limit.add_read_res(0).is_err());
    assert!(limit.surpassed());
}

#[test]
fn size_limit_capacity_is_capped_by_default() {
    let mut limit = SizeLimit::new(10_000);
    assert_eq!(limit.new_capacity(), DEF_CAPACITY);
    assert!(limit.add_read_res(9_000).is_ok());
    assert_eq!(limit.new_capacity(), 1_000);
}

#[test]
fn size_limit_unlimited_saturates() {
    let mut limit = SizeLimit::empty();
    assert!(limit.add_read_res(usize::MAX).is_ok());
    assert!(limit.add_read_res(usize::MAX).is_ok());
    assert!(!limit.surpassed());
}

#[test]
fn test_io_read() {
    let mut b = MoreBytes::empty();
    b.push(Bytes::from(&b"Hello, "[..]));
    b.push(Bytes::from(&b"World!"[..]));

    let mut s = Vec::new();
    let mut buf = [0, 0];

    loop {
        match b.read(&mut buf[..]) {
            0 => break,
            read => {
                s.extend_from_slice(&buf[..read]);
            }
        }
    }

    assert_eq!(s, b"Hello, World!");
    assert!(b.next_bytes().is_none());
}

#[test]
fn more_bytes_reads_with_any_buffer_size() {
    let data = b"a queue of several chunks";
    for size in 1..=30usize {
        let mut q = MoreBytes::empty();
        q.push(Bytes::from(&data[..3]));
        q.push(Bytes::new());
        q.push(Bytes::from(&data[3..10]));
        q.push(Bytes::from(&data[10..]));
        let mut out = Vec::new();
        let mut buf = vec![0u8; size];
        loop {
            let n = q.read(&mut buf);
            if n == 0 {
                break;
            }
            out.extend_from_slice(&buf[..n]);
        }
        assert_eq!(&out[..], &data[..]);
        assert_eq!(q.read(&mut buf), 0);
        assert_eq!(q.read(&mut buf), 0);
    }
}

#[test]
fn more_bytes_len_and_to_vec() {
    let mut q = MoreBytes::empty();
    assert!(q.is_empty());
    assert_eq!(q.len(), 0);
    q.push(Bytes::new());
    assert!(q.is_empty());
    assert_eq!(q.chunk_count(), 0);
    q.push(Bytes::from("abc"));
    q.push(Bytes::from("de"));
    assert_eq!(q.len(), 5);
    assert_eq!(q.chunk_count(), 2);
    assert_eq!(&q.chunk_at(1)[..], b"de");
    assert_eq!(q.to_vec(), b"abcde".to_vec());
    let mut buf = [0u8; 2];
    assert_eq!(q.read(&mut buf), 2);
    assert_eq!(&buf, b"ab");
    assert_eq!(q.len(), 3);
    assert_eq!(q.to_vec(), b"cde".to_vec());
}

#[test]
fn more_bytes_as_stream() {
    let mut q = MoreBytes::empty();
    q.push(Bytes::from("one"));
    q.push(Bytes::from("two"));
    assert_eq!(ready_bytes(q.poll_bytes()), "one");
    assert_eq!(ready_bytes(q.poll_bytes()), "two");
    assert!(is_end(&q.poll_bytes()));
    assert!(is_end(&q.poll_bytes()));
}

#[test]
fn test_bytes_stream_for_bytes() {
    let mut bytes = Bytes::from_static(b"A little Bytes test");
    let len = bytes.len();
    assert_eq!(ready_bytes(poll_bytes_once(&mut bytes)).len(), len);
    assert!(is_end(&poll_bytes_once(&mut bytes)));
}

#[test]
fn test_stream_http_body_with_bytes() {
    let bytes = Bytes::from_static(b"A little Bytes test");
    let len = bytes.len();
    let mut body = StreamHttpBody::new(Some(bytes));
    assert!(!body.is_end_stream());
    let first = poll_bytes_once(body.stream_mut().unwrap());
    assert_eq!(ready_bytes(first).len(), len);
    assert!(is_end(&poll_bytes_once(body.stream_mut().unwrap())));

    let empty: StreamHttpBody<Bytes> = StreamHttpBody::new(None);
    assert!(empty.is_end_stream());
}

// A reader that holds "my body" and hands out up to `room` bytes per fill.
fn fill(source: &mut &'static [u8], room: usize) -> ReadEvent {
    let n = room.min(source.len());
    let (head, tail) = source.split_at(n);
    *source = tail;
    ReadEvent::Filled(Bytes::from_static(head))
}

#[test]
fn test_reader_stream() {
    let mut source: &'static [u8] = b"my body";
    let mut stream = ReaderStream::new(());
    assert!(stream.reader_and_scratch().is_some());
    let cap = stream.read_capacity();
    assert_eq!(cap, DEF_CAPACITY);
    let bytes = ready_bytes(stream.on_read(fill(&mut source, cap)));
    assert_eq!(bytes, &b"my body"[..]);

    let cap = stream.read_capacity();
    assert!(is_end(&stream.on_read(fill(&mut source, cap))));
    // the stream keeps reporting the end, without the reader
    assert!(stream.reader_and_scratch().is_none());
    assert!(is_end(&stream.on_read(ReadEvent::Pending)));
}

#[test]
fn reader_stream_test_size_limit() {
    let mut stream = ReaderStream::limit((), 2);
    assert_eq!(stream.read_capacity(), 2);
    // the reader fills a whole allocation at once
    let p = stream.on_read(ReadEvent::Filled(Bytes::from("my body")));
    assert_eq!(size_limit_of(&p), Some(SizeLimitReached(2)));

    assert!(stream.is_ended());
    assert!(stream.reader_and_scratch().is_none());
    assert!(is_end(&stream.on_read(ReadEvent::Filled(Bytes::from("more")))));
    assert!(is_end(&stream.on_read(ReadEvent::Pending)));
}

#[test]
fn reader_stream_test_size_limit_exact() {
    let mut source: &'static [u8] = b"my body";
    let mut stream = ReaderStream::limit((), 7);
    let cap = stream.read_capacity();
    assert_eq!(cap, 7);
    let bytes = ready_bytes(stream.on_read(fill(&mut source, cap)));
    assert_eq!(bytes, &b"my body"[..]);

    // at the ceiling one byte is still asked for, to see whether more come
    let cap = stream.read_capacity();
    assert_eq!(cap, 1);
    assert!(is_end(&stream.on_read(fill(&mut source, cap))));
    assert!(is_end(&stream.on_read(ReadEvent::Pending)));
}

#[test]
fn reader_stream_crossing_by_one_byte() {
    let mut stream = ReaderStream::limit((), 7);
    assert!(matches!(stream.on_read(ReadEvent::Filled(Bytes::from("my body"))), StreamPoll::Ready(_)));
    let p = stream.on_read(ReadEvent::Filled(Bytes::from("!")));
    assert_eq!(size_limit_of(&p), Some(SizeLimitReached(7)));
    assert!(stream.is_ended());
}

#[test]
fn reader_stream_error_ends_stream() {
    let mut stream = ReaderStream::new(());
    assert!(matches!(stream.on_read(ReadEvent::Pending), StreamPoll::Pending));
    assert!(!stream.is_ended());
    let err = std::io::Error::new(std::io::ErrorKind::BrokenPipe, "gone");
    match stream.on_read(ReadEvent::Failed(err)) {
        StreamPoll::Failed(StreamError::Io(e)) => assert_eq!(e.kind(), std::io::ErrorKind::BrokenPipe),
        _ => panic!("expected the reader's error"),
    }
    assert!(is_end(&stream.on_read(ReadEvent::Pending)));
}

// Reads through a StreamReader over a one-buffer stream into `buf`.
fn read_some(reader: &mut StreamReader<Bytes>, buf: &mut [u8]) -> usize {
    let out = match reader.read_buffered(buf.len()) {
        ReadStep::Filled(b) => b,
        ReadStep::NeedPoll => {
            let ev = poll_bytes_once(reader.stream_mut().unwrap());
            match reader.on_poll(buf.len(), ev) {
                ReadOutcome::Filled(b) => b,
                _ => panic!("a buffer never fails"),
            }
        }
    };
    buf[..out.len()].copy_from_slice(&out);
    out.len()
}

#[test]
fn test_stuff() {
    let stream = Bytes::from("some bytes");
    let mut reader = StreamReader::new(stream);

    let mut buf = [0; 5];

    assert_eq!(read_some(&mut reader, &mut buf[..]), 5);
    assert_eq!(&buf, b"some ");
    assert_eq!(read_some(&mut reader, &mut buf[..]), 5);
    assert_eq!(&buf, b"bytes");

    assert_eq!(read_some(&mut reader, &mut buf[..]), 0);
    assert_eq!(&buf, b"bytes");
    assert_eq!(read_some(&mut reader, &mut buf[..]), 0);
    assert_eq!(&buf, b"bytes");
}

#[test]
fn stream_reader_zero_room_touches_nothing() {
    let mut reader = StreamReader::new(Bytes::from("abc"));
    match reader.read_buffered(0) {
        ReadStep::Filled(b) => assert!(b.is_empty()),
        ReadStep::NeedPoll => panic!("no room needs no poll"),
    }
    let mut buf = [0u8; 2];
    assert_eq!(read_some(&mut reader, &mut buf), 2);
    assert_eq!(&buf, b"ab");
    // the leftover byte comes without polling
    assert!(matches!(reader.read_buffered(8), ReadStep::Filled(ref b) if b == "c"));
}

#[test]
fn round_trip_reader_stream_into_stream_reader() {
    let data: &'static [u8] = b"a longer body that goes through both adapters";
    for room in 1..=8usize {
        let mut source = data;
        let mut stream = ReaderStream::new(());
        let mut reader = StreamReader::new(());
        let mut out = Vec::new();
        loop {
            let got = match reader.read_buffered(room) {
                ReadStep::Filled(b) => b,
                ReadStep::NeedPoll => {
                    let ev = if !stream.is_ended() {
                        // the reader gives at most three bytes at a time
                        stream.on_read(fill(&mut source, stream.read_capacity().min(3)))
                    } else {
                        StreamPoll::End
                    };
                    match reader.on_poll(room, ev) {
                        ReadOutcome::Filled(b) => b,
                        _ => panic!("in-memory reads never fail"),
                    }
                }
            };
            if got.is_empty() {
                break;
            }
            assert!(got.len() <= room);
            out.extend_from_slice(&got);
        }
        assert_eq!(&out[..], data);
    }
}

#[test]
fn test_hyper_body() {
    let mut stream = HyperBodyStream::new(hyper::Body::from("my body"));
    assert!(stream.body_to_poll().is_some());
    let bytes = ready_bytes(stream.on_data(BodyData::Chunk(Bytes::from("my body"))));
    assert_eq!(bytes, &b"my body"[..]);

    assert!(is_end(&stream.on_data(BodyData::Done)));
    // check that always none is returned after the stream was read.
    assert!(stream.body_to_poll().is_none());
    assert!(is_end(&stream.on_data(BodyData::Chunk(Bytes::from("late")))));
    assert!(is_end(&stream.on_data(BodyData::Pending)));
}

#[test]
fn hyper_body_stream_test_size_limit() {
    let mut stream = HyperBodyStream::limit(hyper::Body::from("my body"), 2);
    let p = stream.on_data(BodyData::Chunk(Bytes::from("my body")));
    assert_eq!(size_limit_of(&p), Some(SizeLimitReached(2)));

    assert!(stream.body_to_poll().is_none());
    assert!(is_end(&stream.on_data(BodyData::Chunk(Bytes::from("my body")))));
}

#[test]
fn hyper_body_stream_test_size_limit_exact() {
    let mut stream = HyperBodyStream::limit(hyper::Body::from("my body"), 7);
    let bytes = ready_bytes(stream.on_data(BodyData::Chunk(Bytes::from("my body"))));
    assert_eq!(bytes, &b"my body"[..]);

    assert!(is_end(&stream.on_data(BodyData::Done)));
    assert!(is_end(&stream.on_data(BodyData::Done)));
}

#[test]
fn hyper_body_stream_end_is_idempotent() {
    let mut stream = HyperBodyStream::new(hyper::Body::empty());
    assert!(is_end(&stream.on_data(BodyData::Chunk(Bytes::new()))));
    assert!(is_end(&stream.on_data(BodyData::Chunk(Bytes::from("x")))));
    assert!(is_end(&stream.on_data(BodyData::Chunk(Bytes::from("y")))));
    assert!(is_end(&stream.on_data(BodyData::Pending)));
    assert!(stream.body_to_poll().is_none());
}

#[test]
fn hyper_body_stream_raised_limit() {
    let mut stream = HyperBodyStream::new(hyper::Body::empty());
    assert!(matches!(stream.on_data(BodyData::Chunk(Bytes::from("abc"))), StreamPoll::Ready(_)));
    stream.set_size_limit(4);
    assert!(matches!(stream.on_data(BodyData::Chunk(Bytes::from("d"))), StreamPoll::Ready(_)));
    let p = stream.on_data(BodyData::Chunk(Bytes::from("e")));
    assert_eq!(size_limit_of(&p), Some(SizeLimitReached(4)));
    assert!(stream.body_to_poll().is_none());
}

#[test]
fn more_bytes_fill_steps() {
    let mut q = MoreBytes::empty();
    assert!(q.fill_step(StreamPoll::Ready(Bytes::from("ab"))).is_none());
    assert!(q.fill_step(StreamPoll::Pending).is_none());
    assert!(q.fill_step(StreamPoll::Ready(Bytes::from("c"))).is_none());
    assert!(matches!(q.fill_step(StreamPoll::End), Some(Ok(()))));
    assert_eq!(q.to_vec(), b"abc".to_vec());

    let err = std::io::Error::new(std::io::ErrorKind::Other, "broken");
    match q.fill_step(StreamPoll::Failed(StreamError::Io(err))) {
        Some(Err(StreamError::Io(e))) => assert_eq!(e.kind(), std::io::ErrorKind::Other),
        _ => panic!("the error is handed on"),
    }
    assert_eq!(q.len(), 3);
}

#[test]
fn stream_reader_error_ends_reader() {
    let mut reader = StreamReader::new(());
    assert!(matches!(reader.read_buffered(4), ReadStep::NeedPoll));
    let err = std::io::Error::new(std::io::ErrorKind::ConnectionReset, "reset");
    match reader.on_poll(4, StreamPoll::Failed(StreamError::Io(err))) {
        ReadOutcome::Failed(StreamError::Io(e)) => {
            assert_eq!(e.kind(), std::io::ErrorKind::ConnectionReset)
        }
        _ => panic!("the error is handed on"),
    }
    // no further poll: every later read gives nothing
    assert!(reader.stream_mut().is_none());
    assert!(matches!(reader.read_buffered(4), ReadStep::Filled(ref b) if b.is_empty()));
}

#[test]
fn hyper_empty_chunk_charges_nothing() {
    let mut stream = HyperBodyStream::limit(hyper::Body::empty(), 3);
    assert!(is_end(&stream.on_data(BodyData::Chunk(Bytes::new()))));
    assert_eq!(stream.size_limit().read_so_far(), 0);
    assert_eq!(stream.size_limit().max_size(), 3);
}

#[test]
fn fill_step_keeps_chunks_whole() {
    let mut q = MoreBytes::empty();
    assert!(q.fill_step(StreamPoll::Ready(Bytes::from("abcd"))).is_none());
    assert_eq!(q.chunk_count(), 1);
    assert_eq!(&q.chunk_at(0)[..], b"abcd");
}
