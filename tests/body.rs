use std::time::Duration;

use bytes::Bytes;

use fire_http_representation::body::{Body, BodyReader, BodyStream, BodyWithTimeout};
use fire_http_representation::contenttype::{AnyMime, Charset, ContentType, Mime};
use fire_http_representation::more_bytes::MoreBytes;

type TestBody = Body<(), ()>;

#[test]
fn from_bytes_normalizes_empty_input() {
    let a: TestBody = Body::from_bytes(Bytes::from(""));
    let b: TestBody = Body::from_bytes(Bytes::from(Vec::new()));
    assert!(a.is_empty());
    assert!(b.is_empty());
    assert_eq!(a.len(), Some(0));
    assert_eq!(b.len(), Some(0));
    assert_eq!(a.try_into_vec().ok().unwrap(), Vec::<u8>::new());
    assert_eq!(b.try_into_vec().ok().unwrap(), Vec::<u8>::new());

    let c: TestBody = Body::copy_from_slice(&[]);
    assert!(c.is_empty());
    let d: TestBody = Body::new();
    assert!(d.is_empty());
}

#[test]
fn copy_from_slice_copies() {
    let data = vec![1u8, 2, 3];
    let body: TestBody = Body::copy_from_slice(&data);
    assert!(!body.is_empty());
    assert_eq!(body.len(), Some(3));
    assert_eq!(body.inline_slice(), Some(&[1u8, 2, 3][..]));
}

#[test]
fn take_leaves_empty_and_returns_prior() {
    let mut body: TestBody = Body::from_bytes(Bytes::from("hello"));
    let taken = body.take();
    assert!(body.is_empty());
    assert_eq!(taken.inline_slice(), Some(&b"hello"[..]));

    let mut other: TestBody = Body::from_bytes(Bytes::from("x"));
    let prior = other.replace(Body::from_bytes(Bytes::from("yz")));
    assert_eq!(prior.inline_slice(), Some(&b"x"[..]));
    assert_eq!(other.len(), Some(2));
}

#[test]
fn known_length_per_variant() {
    let mut q = MoreBytes::empty();
    q.push(Bytes::from("ab"));
    q.push(Bytes::from("cde"));
    let queue: TestBody = Body::MoreBytes(q);
    assert_eq!(queue.len(), Some(5));
    let reader: TestBody = Body::from_async_read(());
    assert_eq!(reader.len(), None);
    let stream: TestBody = Body::from_bytes_stream(());
    assert_eq!(stream.len(), None);
    let engine: TestBody = Body::from_hyper_body(hyper::Body::from("abc"));
    assert_eq!(engine.len(), None);
}

#[test]
fn in_memory_conversions() {
    let body: TestBody = Body::from_bytes(Bytes::from("abc"));
    let q = body.try_into_more_bytes().ok().unwrap();
    assert_eq!(q.to_vec(), b"abc".to_vec());
    assert_eq!(q.chunk_count(), 1);

    let mut q = MoreBytes::empty();
    q.push(Bytes::from("ab"));
    q.push(Bytes::from("c"));
    let body: TestBody = Body::MoreBytes(q);
    assert_eq!(body.try_into_vec().ok().unwrap(), b"abc".to_vec());

    let reader: TestBody = Body::from_async_read(());
    assert!(reader.try_into_more_bytes().is_err());
    let stream: TestBody = Body::from_bytes_stream(());
    assert!(stream.try_into_vec().is_err());
}

#[test]
fn as_slice_materializes_once() {
    let mut q = MoreBytes::empty();
    q.push(Bytes::from("some "));
    q.push(Bytes::from("bytes"));
    let mut body: TestBody = Body::MoreBytes(q);
    assert!(!body.is_inline());
    assert!(body.inline_slice().is_none());
    let v = body.take().try_into_vec().ok().unwrap();
    body.set_inline(v);
    assert!(body.is_inline());
    assert_eq!(body.inline_slice(), Some(&b"some bytes"[..]));
    // the second time is pass-through
    assert!(body.is_inline());
    assert_eq!(body.inline_slice(), Some(&b"some bytes"[..]));

    let mut empty: TestBody = Body::new();
    empty.set_inline(Vec::new());
    assert!(empty.is_empty());
    assert_eq!(empty.inline_slice(), Some(&b""[..]));
}

#[test]
fn set_size_limit_only_for_engine_bodies() {
    let mut engine: TestBody = Body::from_hyper_body(hyper::Body::from("abc"));
    assert!(engine.set_size_limit(10));
    let mut bytes: TestBody = Body::from_bytes(Bytes::from("abc"));
    assert!(!bytes.set_size_limit(10));
    assert_eq!(bytes.len(), Some(3));
}

#[test]
fn into_bytes_stream_per_variant() {
    let b: TestBody = Body::from_bytes(Bytes::from("abc"));
    assert!(matches!(b.into_bytes_stream(), BodyStream::Bytes(ref x) if x == "abc"));
    let r: TestBody = Body::from_async_read(());
    match r.into_bytes_stream() {
        BodyStream::Reader(s) => assert!(!s.is_ended()),
        _ => panic!("a reader becomes a reader stream"),
    }
    let e: TestBody = Body::new();
    assert!(matches!(e.into_bytes_stream(), BodyStream::Empty));
    let s: TestBody = Body::from_bytes_stream(());
    assert!(matches!(s.into_bytes_stream(), BodyStream::Stream(())));
}

#[test]
fn into_async_read_per_variant() {
    let r: TestBody = Body::from_async_read(());
    assert!(matches!(r.into_async_read(), BodyReader::Reader(())));
    let e: TestBody = Body::new();
    assert!(matches!(e.into_async_read(), BodyReader::Empty));
    let b: TestBody = Body::from_bytes(Bytes::from("abc"));
    assert!(matches!(b.into_async_read(), BodyReader::Stream(_)));
}

#[test]
fn into_http_body_of_empty_is_done() {
    let e: TestBody = Body::new();
    assert!(e.into_http_body().is_end_stream());
    let b: TestBody = Body::from_bytes(Bytes::from("abc"));
    assert!(!b.into_http_body().is_end_stream());
}

#[test]
fn timeout_body_take_splits() {
    let body: TestBody = Body::from_bytes(Bytes::from("abc"));
    let mut timed = body.add_timeout(Duration::from_secs(3));
    assert_eq!(timed.timeout(), Duration::from_secs(3));
    assert!(!timed.is_empty());
    let taken = timed.take();
    assert!(timed.is_empty());
    assert_eq!(timed.timeout(), Duration::from_secs(3));
    assert_eq!(taken.timeout(), Duration::from_secs(3));
    assert_eq!(taken.body().len(), Some(3));
    timed.set_timeout(Duration::from_millis(5));
    assert_eq!(timed.timeout(), Duration::from_millis(5));
    *timed.body_mut() = Body::from_bytes(Bytes::from("z"));
    assert_eq!(timed.into_body().len(), Some(1));

    let mut engine: BodyWithTimeout<(), ()> =
        BodyWithTimeout::from_hyper_body(hyper::Body::from("abc"), 4, Duration::from_secs(1));
    assert!(engine.set_size_limit(8));
}

#[test]
fn mime_strings() {
    assert_eq!(Mime::Jar.main_type(), "application");
    assert_eq!(Mime::Text.main_type(), "text");
    assert_eq!(Mime::Svg.mime(), "image/svg+xml");
    assert_eq!(Mime::_7Zip.ext(), "7z");
    assert_eq!(Charset::Utf8.as_str(), "utf-8");
}

#[test]
fn any_mime_charset() {
    let known_mime = AnyMime::Known(Mime::Js);
    assert_eq!(known_mime.mime(), "application/javascript");
    assert_eq!(known_mime.charset().unwrap(), Charset::Utf8);

    let unknown_mime = AnyMime::Unknown("application/rust".to_string());
    assert_eq!(unknown_mime.mime(), "application/rust");
    assert!(unknown_mime.charset().is_none());

    let empty = AnyMime::Unset;
    assert_eq!(empty.mime(), "");
    assert!(empty.charset().is_none());

    assert_eq!(AnyMime::Known(Mime::Csv).charset(), Some(Charset::Utf8));
    assert_eq!(AnyMime::Known(Mime::Png).charset(), None);
    assert_eq!(AnyMime::Known(Mime::Html).to_string(), "text/html");
}

#[test]
fn content_type_strings() {
    let ctn_type = ContentType::new(AnyMime::Known(Mime::Js));
    assert_eq!(ctn_type.to_string(), "application/javascript; charset=utf-8");
    let png = ContentType::new(AnyMime::Known(Mime::Png));
    assert_eq!(png.to_string(), "image/png");
    let forced = ContentType::with_charset(AnyMime::Known(Mime::Png), Charset::Utf8);
    assert_eq!(forced.to_string(), "image/png; charset=utf-8");
    let empty = ContentType::empty();
    assert_eq!(empty.to_string(), "");
    assert_eq!(empty.charset, None);
}

#[test]
fn body_from_conversions() {
    let v: TestBody = Body::from(b"abc".to_vec());
    assert_eq!(v.inline_slice(), Some(&b"abc"[..]));
    let e: TestBody = Body::from(Vec::new());
    assert!(e.is_empty());
    let s: TestBody = Body::from("text");
    assert_eq!(s.len(), Some(4));
    let es: TestBody = Body::from("");
    assert!(es.is_empty());
    let sl: TestBody = Body::from(&b"xy"[..]);
    assert_eq!(sl.inline_slice(), Some(&b"xy"[..]));
    let u: TestBody = Body::from(());
    assert!(u.is_empty());
    let h: TestBody = Body::from(fire_http_representation::hyper_body_stream::HyperBodyStream::new(
        hyper::Body::empty(),
    ));
    assert_eq!(h.len(), None);
    let d: TestBody = Body::default();
    assert!(d.is_empty());
}

#[test]
fn try_into_more_bytes_keeps_one_chunk() {
    let body: TestBody = Body::from_bytes(Bytes::from("one chunk"));
    let q = body.try_into_more_bytes().ok().unwrap();
    assert_eq!(q.chunk_count(), 1);
    let empty: TestBody = Body::new();
    assert_eq!(empty.try_into_more_bytes().ok().unwrap().chunk_count(), 0);
}
