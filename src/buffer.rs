use vstd::prelude::*;

verus! {

/// An immutable, cheaply shared byte buffer.
#[verifier::external_type_specification]
#[verifier::external_body]
pub struct ExBytes(bytes::Bytes);

/// The bytes a buffer holds, in order.
pub uninterp spec fn bytes_content(b: bytes::Bytes) -> Seq<u8>;

/// Relies on `From<Vec<u8>> for bytes::Bytes`: the buffer holds the vector's
/// bytes.
#[verifier::external_body]
pub(crate) fn bytes_from_vec(v: Vec<u8>) -> (r: bytes::Bytes)
    ensures
        bytes_content(r) == v@,
{
    bytes::Bytes::from(v)
}

/// Relies on `bytes::Bytes::from_static`: the buffer holds the slice's bytes.
#[verifier::external_body]
pub(crate) fn bytes_from_static(s: &'static [u8]) -> (r: bytes::Bytes)
    ensures
        bytes_content(r) == s@,
{
    bytes::Bytes::from_static(s)
}

} // verus!
