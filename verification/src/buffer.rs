//! Byte buffers shared between frames: `bytes::Bytes` seen as a sequence of
//! bytes.

use bytes::Bytes;
use vstd::prelude::*;

verus! {

/// `bytes::Bytes`, a cheaply shared, immutable byte buffer. Nothing is
/// known of it but what the items below say.
#[verifier::external_type_specification]
#[verifier::external_body]
pub struct ExBytes(bytes::Bytes);

/// The bytes that a buffer holds, first to last.
pub uninterp spec fn contents(b: bytes::Bytes) -> Seq<u8>;

/// `Bytes::as_ref`: the buffer's bytes as a slice. Believed: the slice holds
/// exactly the buffer's contents.
#[verifier::external_body]
pub(crate) fn as_slice(b: &Bytes) -> (s: &[u8])
    ensures
        s@ == contents(*b),
{
    b.as_ref()
}

/// `Bytes::from(Vec<u8>)`: takes the vector over without changing its bytes.
#[verifier::external_body]
pub(crate) fn from_vec(v: Vec<u8>) -> (b: Bytes)
    ensures
        contents(b) == v@,
{
    Bytes::from(v)
}

/// `Bytes::slice`: a buffer over the bytes `from..to` of `b`, sharing its
/// storage. `Bytes::slice` panics unless `from <= to <= len`.
#[verifier::external_body]
pub(crate) fn slice(b: &Bytes, from: usize, to: usize) -> (s: Bytes)
    requires
        from <= to <= contents(*b).len(),
    ensures
        contents(s) == contents(*b).subrange(from as int, to as int),
{
    b.slice(from..to)
}

/// `Bytes::clone`: a second handle on the same bytes.
pub assume_specification[ <bytes::Bytes as Clone>::clone ](b: &bytes::Bytes) -> (c: bytes::Bytes)
    ensures
        contents(c) == contents(*b),
;

} // verus!
