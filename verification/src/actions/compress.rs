//! The Compress repair: every blob that is stored uncompressed is replaced
//! by its compressed encoding, in place.

use crate::blobs::BlobStore;
use crate::codec::{content_of, encode, is_compressed, is_encoding_of, zstd_decoded, zstd_encoded};
use vstd::prelude::*;

verus! {

/// What the repair does with one blob.
#[derive(Debug, Clone, PartialEq, Eq)]
pub enum CompressAction {
    /// The blob is compressed already and stays as it is.
    Keep,
    /// The blob is stored uncompressed: replace its payload by this one.
    Rewrite(Vec<u8>),
    /// The blob is stored uncompressed and the compressor failed.
    Failed,
}

/// What the repair does with one stored payload: a payload that
/// decompresses is kept, any other is replaced by its compressed frame, and
/// the repair fails on it where the compressor does.
pub open spec fn compress_action(stored: Seq<u8>, action: CompressAction) -> bool {
    if zstd_decoded(stored) is Some {
        action is Keep
    } else {
        match zstd_encoded(stored) {
            Some(frame) => action matches CompressAction::Rewrite(payload) && payload@ == frame,
            None => action is Failed,
        }
    }
}

/// Decides what the repair does with the stored payload of one blob.
///
/// A payload that decompresses is kept. One that does not is legacy data:
/// it is compressed, and the new payload reads back as the old one. Either
/// way the blob is left repaired.
pub fn compress_payload(stored: &[u8]) -> (action: CompressAction)
    ensures
        compress_action(stored@, action),
        zstd_decoded(stored@) is Some <==> action is Keep,
        action is Keep ==> is_repaired_payload(stored@, stored@),
        action matches CompressAction::Rewrite(payload) ==> is_encoding_of(payload@, stored@)
            && is_repaired_payload(stored@, payload@) && content_of(payload@) == content_of(
            stored@,
        ),
{
    if is_compressed(stored) {
        CompressAction::Keep
    } else {
        match encode(stored) {
            Some(payload) => CompressAction::Rewrite(payload),
            None => CompressAction::Failed,
        }
    }
}

/// What a completed repair leaves of one payload: a compressed payload as
/// it was, an uncompressed one replaced by a compressed encoding of it.
pub open spec fn is_repaired_payload(before: Seq<u8>, after: Seq<u8>) -> bool {
    if zstd_decoded(before) is Some {
        after == before
    } else {
        is_encoding_of(after, before)
    }
}

/// A completed pass of the repair over a store: the same blobs under the
/// same ids and the same index, each payload repaired.
pub open spec fn is_compress_pass(before: BlobStore, after: BlobStore) -> bool {
    &&& after.index == before.index
    &&& after.blobs.dom() == before.blobs.dom()
    &&& forall|id: int| #[trigger]
        before.blobs.dom().contains(id) ==> is_repaired_payload(before.blobs[id], after.blobs[id])
}

/// Recompress idempotence. A second pass of the repair leaves the store
/// exactly as the first pass left it.
pub proof fn second_pass_changes_nothing(start: BlobStore, once: BlobStore, twice: BlobStore)
    requires
        is_compress_pass(start, once),
        is_compress_pass(once, twice),
    ensures
        twice == once,
{
    assert forall|id: int| once.blobs.dom().contains(id) implies #[trigger] twice.blobs[id]
        == once.blobs[id] by {
        assert(start.blobs.dom().contains(id));
        assert(is_repaired_payload(start.blobs[id], once.blobs[id]));
        assert(is_repaired_payload(once.blobs[id], twice.blobs[id]));
    }
    assert(twice.blobs =~= once.blobs);
}

/// A pass of the repair changes no content: every hash reads back as
/// before, and the store stays well-formed.
pub proof fn pass_keeps_content(before: BlobStore, after: BlobStore)
    requires
        before.wf(),
        is_compress_pass(before, after),
    ensures
        after.wf(),
        forall|hash: Seq<char>| #[trigger] after.get(hash) == before.get(hash),
{
    assert forall|hash: Seq<char>| #[trigger] after.get(hash) == before.get(hash) by {
        if before.contains(hash) {
            let id = before.index[hash];
            assert(before.blobs.dom().contains(id));
            assert(is_repaired_payload(before.blobs[id], after.blobs[id]));
        }
    }
    assert forall|hash: Seq<char>| #[trigger] after.index.dom().contains(hash) implies after.blobs.dom().contains(
        after.index[hash],
    ) by {
        assert(before.index.dom().contains(hash));
    }
}

} // verus!
