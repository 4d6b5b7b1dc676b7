//! The physical encoding of blobs, and how it is read back.
//!
//! New blobs are stored as zstd frames. Blobs written before compression
//! existed are stored as they came. No flag tells the two apart: reading
//! tries to decompress and falls back to the stored bytes where that fails.

use vstd::prelude::*;

verus! {

/// What decompressing `stored` as a zstd stream yields: the decompressed
/// bytes, or nothing where `stored` is not such a stream.
pub uninterp spec fn zstd_decoded(stored: Seq<u8>) -> Option<Seq<u8>>;

/// What compressing `data` yields: the zstd frame, or nothing where the
/// compressor reports an error. The compressor runs at its default level,
/// with no dictionary and on one thread, so its outcome is fixed by the
/// bytes it is given.
pub uninterp spec fn zstd_encoded(data: Seq<u8>) -> Option<Seq<u8>>;

/// A stored payload, read back.
#[derive(Debug, Clone, PartialEq, Eq)]
pub enum DecodeResult {
    /// The payload was a compressed frame; these are the bytes it held.
    Decoded(Vec<u8>),
    /// The payload was not compressed; these are the stored bytes
    /// themselves.
    Raw(Vec<u8>),
}

pub enum DecodeResultView {
    Decoded(Seq<u8>),
    Raw(Seq<u8>),
}

impl DecodeResultView {
    /// The message bytes, whichever way they were stored.
    pub open spec fn bytes(self) -> Seq<u8> {
        match self {
            DecodeResultView::Decoded(b) => b,
            DecodeResultView::Raw(b) => b,
        }
    }
}

impl View for DecodeResult {
    type V = DecodeResultView;

    open spec fn view(&self) -> DecodeResultView {
        match self {
            DecodeResult::Decoded(b) => DecodeResultView::Decoded(b@),
            DecodeResult::Raw(b) => DecodeResultView::Raw(b@),
        }
    }
}

/// Reading a stored payload: what it decompresses to, or the payload itself
/// where it is not compressed.
pub open spec fn decode_spec(stored: Seq<u8>) -> DecodeResultView {
    match zstd_decoded(stored) {
        Some(bytes) => DecodeResultView::Decoded(bytes),
        None => DecodeResultView::Raw(stored),
    }
}

/// The message bytes that a stored payload stands for.
pub open spec fn content_of(stored: Seq<u8>) -> Seq<u8> {
    decode_spec(stored).bytes()
}

/// Whether `stored` is a compressed encoding of `data`.
pub open spec fn is_encoding_of(stored: Seq<u8>, data: Seq<u8>) -> bool {
    zstd_decoded(stored) == Some(data)
}

/// `zstd::stream::copy_encode` at level 0 into an empty buffer. Trusted: the
/// outcome is a function of the input alone, and a frame that comes back
/// decompresses to the input. `None` stands for an error of the compressor.
#[verifier::external_body]
fn zstd_compress(data: &[u8]) -> (out: Option<Vec<u8>>)
    ensures
        out matches Some(frame) ==> zstd_encoded(data@) == Some(frame@) && zstd_decoded(frame@)
            == Some(data@),
        out is None ==> zstd_encoded(data@) is None,
{
    let mut frame = Vec::<u8>::new();
    match zstd::stream::copy_encode(data, &mut frame, 0) {
        Ok(()) => Some(frame),
        Err(_) => None,
    }
}

/// `zstd::stream::copy_decode` into an empty buffer. Trusted: the outcome is
/// a function of the input alone. `None` stands for an error of the
/// decompressor, which is how input that is no zstd stream shows.
#[verifier::external_body]
fn zstd_decompress(stored: &[u8]) -> (out: Option<Vec<u8>>)
    ensures
        out matches Some(bytes) ==> zstd_decoded(stored@) == Some(bytes@),
        out is None ==> zstd_decoded(stored@) is None,
{
    let mut bytes = Vec::<u8>::new();
    match zstd::stream::copy_decode(stored, &mut bytes) {
        Ok(()) => Some(bytes),
        Err(_) => None,
    }
}

impl DecodeResult {
    /// The message bytes, whichever way they were stored.
    pub fn into_bytes(self) -> (bytes: Vec<u8>)
        ensures
            bytes@ == self@.bytes(),
    {
        match self {
            DecodeResult::Decoded(b) => b,
            DecodeResult::Raw(b) => b,
        }
    }

    /// Whether the payload was stored compressed.
    pub fn is_compressed(&self) -> (compressed: bool)
        ensures
            compressed == (self@ is Decoded),
    {
        match self {
            DecodeResult::Decoded(_) => true,
            DecodeResult::Raw(_) => false,
        }
    }
}

/// Compresses message bytes for storage: the zstd frame of the input, which
/// reads as the input again. `None` where the compressor reports an error.
pub fn encode(data: &[u8]) -> (out: Option<Vec<u8>>)
    ensures
        out matches Some(stored) ==> zstd_encoded(data@) == Some(stored@) && is_encoding_of(
            stored@,
            data@,
        ) && decode_spec(stored@) == DecodeResultView::Decoded(data@),
        out is None ==> zstd_encoded(data@) is None,
{
    zstd_compress(data)
}

/// Reads a stored payload back: decompressed where it is a compressed frame,
/// as it stands where it is not.
pub fn decode(stored: Vec<u8>) -> (result: DecodeResult)
    ensures
        result@ == decode_spec(stored@),
{
    match zstd_decompress(stored.as_slice()) {
        Some(bytes) => DecodeResult::Decoded(bytes),
        None => DecodeResult::Raw(stored),
    }
}

/// Whether a stored payload is already compressed.
pub fn is_compressed(stored: &[u8]) -> (compressed: bool)
    ensures
        compressed == zstd_decoded(stored@).is_some(),
{
    zstd_decompress(stored).is_some()
}

/// A payload that is a compressed encoding of `data` reads back as `data`.
pub proof fn encoded_reads_back(stored: Seq<u8>, data: Seq<u8>)
    requires
        is_encoding_of(stored, data),
    ensures
        content_of(stored) == data,
{
}

/// A payload stored as it came, which is no compressed stream, reads back
/// as itself.
pub proof fn legacy_reads_back(data: Seq<u8>)
    requires
        zstd_decoded(data) is None,
    ensures
        decode_spec(data) == DecodeResultView::Raw(data),
        content_of(data) == data,
{
}

} // verus!
