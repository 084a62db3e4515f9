use vstd::prelude::*;

use crate::body::{lemma_drained_whole, Body, Source};
use crate::buffer::bytes_content;
use crate::error::Error;

verus! {

/// The head of an HTTP request: method, URI, version, headers and extensions.
#[verifier::external_type_specification]
#[verifier::external_body]
pub struct ExRequestParts(http::request::Parts);

/// The head of an HTTP response: status, version, headers and extensions.
#[verifier::external_type_specification]
#[verifier::external_body]
pub struct ExResponseParts(http::response::Parts);

/// An HTTP message: its metadata `head`, carried as it is, and its payload.
pub struct Envelope<H, B> {
    pub head: H,
    pub body: B,
}

/// A request whose payload is a body.
pub type HttpRequest = Envelope<http::request::Parts, Body>;

/// A response whose payload is a body.
pub type HttpResponse = Envelope<http::response::Parts, Body>;

/// Builds a message from one whose payload is a buffer.
pub trait FromBytes: Sized {
    type BytesWrapper;

    /// The message built from `bytes_wrapper`.
    spec fn from_bytes_spec(bytes_wrapper: Self::BytesWrapper) -> Self;

    fn from_bytes(bytes_wrapper: Self::BytesWrapper) -> (r: Self)
        ensures
            r == Self::from_bytes_spec(bytes_wrapper),
    ;
}

/// Turns a message into one whose payload is a buffer, by draining its body.
pub trait ToBytes: Sized {
    type BytesWrapper;

    /// Whether `r` is what converting `self` gives.
    spec fn to_bytes_result(self, r: Result<Self::BytesWrapper, Error>) -> bool;

    fn to_bytes(self) -> (r: Result<Self::BytesWrapper, Error>)
        ensures
            self.to_bytes_result(r),
    ;
}

impl<H> FromBytes for Envelope<H, Body> {
    type BytesWrapper = Envelope<H, bytes::Bytes>;

    /// The same head, with the buffer as a body of one piece.
    open spec fn from_bytes_spec(bytes_wrapper: Envelope<H, bytes::Bytes>) -> Self {
        Envelope { head: bytes_wrapper.head, body: Body { source: Source::Shared(bytes_wrapper.body) } }
    }

    fn from_bytes(bytes_wrapper: Envelope<H, bytes::Bytes>) -> (r: Self) {
        let Envelope { head, body } = bytes_wrapper;
        Envelope { head, body: Body::from(body) }
    }
}

impl<H> ToBytes for Envelope<H, Body> {
    type BytesWrapper = Envelope<H, bytes::Bytes>;

    /// The same head with the drained bytes, or the failure of the drain.
    open spec fn to_bytes_result(self, r: Result<Envelope<H, bytes::Bytes>, Error>) -> bool {
        match (r, self.body.content()) {
            (Ok(m), Ok(s)) => m.head == self.head && bytes_content(m.body) == s,
            (Err(e), Err(f)) => e == f,
            _ => false,
        }
    }

    fn to_bytes(self) -> (r: Result<Envelope<H, bytes::Bytes>, Error>) {
        let Envelope { head, body } = self;
        match body.to_bytes() {
            Ok(bytes) => Ok(Envelope { head, body: bytes }),
            Err(e) => Err(e),
        }
    }
}

/// Converting a message to its buffered form and back keeps the head as it
/// is, and the new body drains to what the message body drained to.
pub proof fn lemma_buffered_round_trip<H>(
    message: Envelope<H, Body>,
    buffered: Envelope<H, bytes::Bytes>,
)
    requires
        message.to_bytes_result(Ok(buffered)),
    ensures
        Envelope::<H, Body>::from_bytes_spec(buffered).head == message.head,
        Envelope::<H, Body>::from_bytes_spec(buffered).body.content() == message.body.content(),
{
    lemma_drained_whole(bytes_content(buffered.body));
}

} // verus!
