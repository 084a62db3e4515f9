use busylib::body::{drain_items, Body, Collector, Drain, Progress, Source};
use busylib::convert::{Envelope, FromBytes, HttpRequest, HttpResponse, ToBytes};
use busylib::error::Error;

fn stream(items: Vec<Result<&str, &str>>) -> Body {
    Body::from_stream(
        items
            .into_iter()
            .map(|r| match r {
                Ok(c) => Ok(c.as_bytes().to_vec()),
                Err(e) => Err(Error::new(e.to_string())),
            })
            .collect(),
    )
}

#[test]
fn static_text_drains_to_its_bytes() {
    let body = Body::from("hello");
    assert_eq!(body.to_bytes().ok().unwrap(), vec![104, 101, 108, 108, 111]);
}

#[test]
fn every_static_value_drains_to_its_bytes() {
    let slice: &'static [u8] = b"\x00\x01\xff";
    assert_eq!(Body::from(slice).to_bytes().ok().unwrap(), vec![0, 1, 255]);
    assert_eq!(Body::from(vec![7u8, 8, 9]).to_bytes().ok().unwrap(), vec![7, 8, 9]);
    assert_eq!(Body::from(String::from("h\u{e9}")).to_bytes().ok().unwrap(), vec![104, 0xc3, 0xa9]);
    assert_eq!(Body::from("").to_bytes().ok().unwrap(), Vec::<u8>::new());
    assert_eq!(Body::from(()).to_bytes().ok().unwrap(), Vec::<u8>::new());
    let borrowed: std::borrow::Cow<'static, [u8]> = std::borrow::Cow::Borrowed(b"cow");
    assert_eq!(Body::from(borrowed).to_bytes().ok().unwrap(), b"cow".to_vec());
    let owned: std::borrow::Cow<'static, [u8]> = std::borrow::Cow::Owned(vec![4u8, 5]);
    assert_eq!(Body::from(owned).to_bytes().ok().unwrap(), vec![4u8, 5]);
    let text: std::borrow::Cow<'static, str> = std::borrow::Cow::Borrowed("hi");
    assert_eq!(Body::from(text).to_bytes().ok().unwrap(), b"hi".to_vec());
    let text: std::borrow::Cow<'static, str> = std::borrow::Cow::Owned("yo".to_string());
    assert_eq!(Body::from(text).to_bytes().ok().unwrap(), b"yo".to_vec());
    let shared = bytes::Bytes::from(vec![1u8, 2, 3]);
    assert_eq!(Body::from(shared).to_bytes().ok().unwrap(), vec![1u8, 2, 3]);
}

#[test]
fn empty_body_drains_to_nothing() {
    assert_eq!(Body::empty().to_bytes().ok().unwrap(), Vec::<u8>::new());
}

#[test]
fn three_chunk_stream_drains_in_order() {
    let body = stream(vec![Ok("ab"), Ok("cd"), Ok("ef")]);
    assert_eq!(body.to_bytes().ok().unwrap(), b"abcdef".to_vec());
}

#[test]
fn stream_failure_ends_the_drain() {
    let body = stream(vec![Ok("ab"), Err("connection reset")]);
    let err = body.to_bytes().err().unwrap();
    assert_eq!(err.to_string(), "connection reset");
    assert_eq!(err.into_inner(), "connection reset");
}

#[test]
fn first_failure_wins() {
    let body = stream(vec![Ok("ab"), Ok("cd"), Err("first"), Ok("ef"), Err("second")]);
    assert_eq!(body.to_bytes().err().unwrap().to_string(), "first");
}

#[test]
fn empty_stream_drains_to_nothing() {
    assert_eq!(stream(vec![]).to_bytes().ok().unwrap(), Vec::<u8>::new());
    assert_eq!(drain_items(vec![]).ok().unwrap(), Vec::<u8>::new());
}

#[test]
fn a_body_is_not_wrapped_twice() {
    let inner = stream(vec![Ok("x"), Ok("y")]);
    let outer = Body::new(Source::Boxed(Box::new(inner)));
    assert!(matches!(outer.source, Source::Stream(_)));
    let again = Body::new(Source::Boxed(Box::new(outer)));
    assert!(matches!(again.source, Source::Stream(_)));
    assert_eq!(again.to_bytes().ok().unwrap(), b"xy".to_vec());
}

#[test]
fn collector_keeps_order() {
    let mut c = Collector::new();
    c.push(b"ab");
    c.push(b"");
    c.push(b"cd");
    assert_eq!(c.finish(), b"abcd".to_vec());
}

#[test]
fn request_round_trip_keeps_head_and_content() {
    let (head, ()) = http::Request::builder()
        .method("POST")
        .uri("/upload")
        .header("x-k", "v")
        .body(())
        .unwrap()
        .into_parts();
    let request: HttpRequest = Envelope { head, body: stream(vec![Ok("ab"), Ok("c")]) };
    let buffered = request.to_bytes().ok().unwrap();
    assert_eq!(buffered.body, bytes::Bytes::from_static(b"abc"));
    let back = HttpRequest::from_bytes(buffered);
    assert_eq!(back.head.method, http::Method::POST);
    assert_eq!(back.head.uri, "/upload");
    assert_eq!(back.head.headers["x-k"], "v");
    assert_eq!(back.body.to_bytes().ok().unwrap(), b"abc".to_vec());
}

#[test]
fn response_conversion_passes_failure_on() {
    let (head, ()) = http::Response::builder().status(404).body(()).unwrap().into_parts();
    let response: HttpResponse = Envelope { head, body: stream(vec![Ok("a"), Err("broken")]) };
    assert_eq!(response.to_bytes().err().unwrap().to_string(), "broken");
}

#[test]
fn drain_steps_gather_until_end() {
    let d = Drain::new();
    let d = match d.step(Some(Ok(b"ab".to_vec()))) {
        Progress::Continue(d) => d,
        Progress::Done(_) => panic!("a chunk does not end the drain"),
    };
    let d = match d.step(Some(Ok(b"cd".to_vec()))) {
        Progress::Continue(d) => d,
        Progress::Done(_) => panic!("a chunk does not end the drain"),
    };
    match d.step(None) {
        Progress::Done(r) => assert_eq!(r.ok().unwrap(), b"abcd".to_vec()),
        Progress::Continue(_) => panic!("the end of data ends the drain"),
    }
}

#[test]
fn drain_step_failure_ends_it() {
    let d = match Drain::new().step(Some(Ok(b"ab".to_vec()))) {
        Progress::Continue(d) => d,
        Progress::Done(_) => panic!("a chunk does not end the drain"),
    };
    match d.step(Some(Err(Error::new("gone".to_string())))) {
        Progress::Done(r) => assert_eq!(r.err().unwrap().to_string(), "gone"),
        Progress::Continue(_) => panic!("a failure ends the drain"),
    }
}
