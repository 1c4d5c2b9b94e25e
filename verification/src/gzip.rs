//! Gzip compression of frame payloads.

use crate::buffer;
use crate::buffer::contents;
use crate::protocol::{Frame, FrameView, GZIP_COMPRESSED};
use bytes::Bytes;
use std::io::{Read, Write};
use vstd::prelude::*;

verus! {

/// Minimum payload size to attempt gzip compression (bytes).
pub const COMPRESS_MIN_SIZE: usize = 512;

/// The largest payload a frame may carry once decompressed: 64 MiB.
pub const MAX_DECOMPRESSED_SIZE: u32 = 67_108_864;

/// What a gzip decoder reads out of `data` when it is asked for at most `cap`
/// bytes: the first `cap` bytes of the decompressed stream (all of them,
/// where there are fewer), or the decoder's message where decoding fails
/// before that.
pub uninterp spec fn gunzip_prefix(data: Seq<u8>, cap: nat) -> Result<Seq<u8>, Seq<char>>;

/// The gzip stream that the encoder writes for `data` at its fastest level,
/// or `None` where the encoder fails.
pub uninterp spec fn gzip_fast(data: Seq<u8>) -> Option<Seq<u8>>;

/// `flate2::read::GzDecoder` over `data`, read to its end through
/// `Read::take(cap)`; an error is handed out as its text. Believed: the
/// outcome depends on `data` and `cap` alone, and `take` hands out at most
/// `cap` bytes.
#[verifier::external_body]
fn inflate_up_to(data: &[u8], cap: u64) -> (r: Result<Vec<u8>, String>)
    ensures
        match r {
            Ok(out) => gunzip_prefix(data@, cap as nat) == Ok::<Seq<u8>, Seq<char>>(out@),
            Err(e) => gunzip_prefix(data@, cap as nat) == Err::<Seq<u8>, Seq<char>>(e@),
        },
        r is Ok ==> r->Ok_0@.len() <= cap,
{
    let mut buf = Vec::new();
    match flate2::read::GzDecoder::new(data).take(cap).read_to_end(&mut buf) {
        Ok(_) => Ok(buf),
        Err(e) => Err(e.to_string()),
    }
}

/// `flate2::write::GzEncoder` at `Compression::fast()`, fed `data` and
/// finished. Believed: the outcome depends on `data` alone.
#[verifier::external_body]
fn deflate_fast(data: &[u8]) -> (r: Option<Vec<u8>>)
    ensures
        match r {
            Some(packed) => gzip_fast(data@) == Some(packed@),
            None => gzip_fast(data@) is None,
        },
{
    let mut encoder = flate2::write::GzEncoder::new(Vec::new(), flate2::Compression::fast());
    match encoder.write_all(data) {
        Ok(()) => encoder.finish().ok(),
        Err(_) => None,
    }
}

/// Why a compressed payload was not accepted.
#[derive(Debug, Clone, PartialEq, Eq)]
pub enum GzipError {
    /// The payload is no valid gzip stream; the decoder's message.
    Invalid(String),
    /// The decompressed payload is larger than the limit.
    TooLarge,
}

impl GzipError {
    /// The error as a sentence.
    pub open spec fn text(self) -> Seq<char> {
        match self {
            GzipError::Invalid(msg) => msg@,
            GzipError::TooLarge => "decompressed payload exceeds 64 MiB"@,
        }
    }

    pub fn message(&self) -> (s: String)
        ensures
            s@ == self.text(),
    {
        match self {
            GzipError::Invalid(msg) => msg.clone(),
            GzipError::TooLarge => String::from_str("decompressed payload exceeds 64 MiB"),
        }
    }
}

/// The outcome of decompressing.
pub enum Inflated {
    Data(Seq<u8>),
    /// No valid gzip stream; the decoder's message.
    Invalid(Seq<char>),
    TooLarge,
}

impl Inflated {
    /// Why the payload was not accepted, as a sentence; empty for data.
    pub open spec fn failure_text(self) -> Seq<char> {
        match self {
            Inflated::Data(_) => seq![],
            Inflated::Invalid(msg) => msg,
            Inflated::TooLarge => GzipError::TooLarge.text(),
        }
    }
}

/// Settles a decoder's outcome against `limit`, where the decoder was asked
/// for one byte more than the limit.
pub open spec fn settled(read: Result<Seq<u8>, Seq<char>>, limit: nat) -> Inflated {
    match read {
        Err(msg) => Inflated::Invalid(msg),
        Ok(out) => if out.len() > limit {
            Inflated::TooLarge
        } else {
            Inflated::Data(out)
        },
    }
}

/// `data` decompressed, where the result has at most `limit` bytes.
pub open spec fn inflated(data: Seq<u8>, limit: nat) -> Inflated {
    settled(gunzip_prefix(data, limit + 1), limit)
}

/// Whether `r` is the executable form of `want`.
pub open spec fn agrees(r: Result<Vec<u8>, GzipError>, want: Inflated) -> bool {
    match want {
        Inflated::Data(out) => r is Ok && r->Ok_0@ == out,
        Inflated::Invalid(msg) => r matches Err(GzipError::Invalid(m)) && m@ == msg,
        Inflated::TooLarge => r matches Err(GzipError::TooLarge),
    }
}

/// Accepts what the decoder read if it stays within `limit`.
pub fn settle(read: Result<Vec<u8>, String>, limit: u32) -> (r: Result<Vec<u8>, GzipError>)
    ensures
        agrees(
            r,
            settled(
                match read {
                    Ok(v) => Ok(v@),
                    Err(e) => Err(e@),
                },
                limit as nat,
            ),
        ),
{
    match read {
        Err(msg) => Err(GzipError::Invalid(msg)),
        Ok(out) => {
            if out.len() > limit as usize {
                Err(GzipError::TooLarge)
            } else {
                Ok(out)
            }
        },
    }
}

/// Decompresses a gzip stream whose output may have at most `limit` bytes.
pub fn decompress_gzip_limited(data: &[u8], limit: u32) -> (r: Result<Vec<u8>, GzipError>)
    ensures
        agrees(r, inflated(data@, limit as nat)),
        r is Ok ==> r->Ok_0@.len() <= limit,
{
    settle(inflate_up_to(data, limit as u64 + 1), limit)
}

/// Decompresses a gzip stream under the 64 MiB ceiling.
pub fn decompress_gzip(data: &[u8]) -> (r: Result<Vec<u8>, GzipError>)
    ensures
        agrees(r, inflated(data@, MAX_DECOMPRESSED_SIZE as nat)),
        r is Ok ==> r->Ok_0@.len() <= MAX_DECOMPRESSED_SIZE,
{
    decompress_gzip_limited(data, MAX_DECOMPRESSED_SIZE)
}

/// The payload of a frame in the clear.
pub open spec fn plain_payload(f: FrameView) -> Inflated {
    if f.flags & GZIP_COMPRESSED != 0 {
        inflated(f.payload, MAX_DECOMPRESSED_SIZE as nat)
    } else {
        Inflated::Data(f.payload)
    }
}

/// If the frame has the GZIP flag, decompress the payload; otherwise return
/// the payload as it is.
pub fn decompress_if_gzip(frame: &Frame) -> (r: Result<Bytes, GzipError>)
    ensures
        match plain_payload(frame@) {
            Inflated::Data(out) => r is Ok && contents(r->Ok_0) == out,
            Inflated::Invalid(msg) => r matches Err(GzipError::Invalid(m)) && m@ == msg,
            Inflated::TooLarge => r matches Err(GzipError::TooLarge),
        },
{
    if frame.is_gzip() {
        match decompress_gzip(buffer::as_slice(&frame.payload)) {
            Ok(out) => Ok(buffer::from_vec(out)),
            Err(e) => Err(e),
        }
    } else {
        Ok(frame.payload.clone())
    }
}

/// What `compress_payload` sends for `data`, given what the encoder made of
/// it: the compressed form with the GZIP flag where `data` has at least 512
/// bytes and the compressed form is strictly smaller, else `data` unflagged.
pub open spec fn compressed_choice(data: Seq<u8>, packed: Option<Seq<u8>>) -> (Seq<u8>, u8) {
    if data.len() >= COMPRESS_MIN_SIZE && packed is Some && packed->Some_0.len() < data.len() {
        (packed->Some_0, GZIP_COMPRESSED)
    } else {
        (data, 0u8)
    }
}

/// Chooses between `data` and its compressed form `packed`.
pub fn choose_compressed(data: Bytes, packed: Option<Vec<u8>>) -> (r: (Bytes, u8))
    ensures
        (contents(r.0), r.1) == compressed_choice(
            contents(data),
            match packed {
                Some(v) => Some(v@),
                None => None,
            },
        ),
        r.1 == 0 ==> r.0 == data,
{
    let len = buffer::as_slice(&data).len();
    match packed {
        Some(c) => {
            if len >= COMPRESS_MIN_SIZE && c.len() < len {
                (buffer::from_vec(c), GZIP_COMPRESSED)
            } else {
                (data, 0)
            }
        },
        None => (data, 0),
    }
}

/// Gzip-compress `data` if it is large enough and compression actually
/// shrinks it. Returns the payload to send and the flags to add to the frame.
pub fn compress_payload(data: Bytes) -> (r: (Bytes, u8))
    ensures
        (contents(r.0), r.1) == compressed_choice(contents(data), gzip_fast(contents(data))),
        r.1 == 0 ==> r.0 == data,
{
    let len = buffer::as_slice(&data).len();
    if len >= COMPRESS_MIN_SIZE {
        let packed = deflate_fast(buffer::as_slice(&data));
        choose_compressed(data, packed)
    } else {
        (data, 0)
    }
}

} // verus!
