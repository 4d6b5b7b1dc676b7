//! The blob store: content-addressed storage of message bytes.
//!
//! The store itself lives on disk, outside this library. Here stand its
//! layout names, a mathematical model of what it holds, and the decisions
//! that `put` and `get` take around the reads and writes.

use crate::codec::{content_of, decode, encode, is_encoding_of, zstd_encoded};
use crate::hash::content_hash_of;
use vstd::prelude::*;

verus! {

/// Name of the segment that holds the payloads.
pub const BLOB_TABLE: &'static str = "blobs";

/// Name of the unique index from content hash to blob id.
pub const BLOB_INDEX: &'static str = "blob_index";

/// What the blob store holds: the physical payload of each blob, by blob
/// id, and the index from content hash to blob id.
pub ghost struct BlobStore {
    pub blobs: Map<int, Seq<u8>>,
    pub index: Map<Seq<char>, int>,
}

impl BlobStore {
    /// A store that holds nothing.
    pub open spec fn empty() -> BlobStore {
        BlobStore { blobs: Map::empty(), index: Map::empty() }
    }

    /// Every indexed hash resolves to a blob that the store holds, and the
    /// store holds finitely many blobs.
    pub open spec fn wf(self) -> bool {
        &&& self.blobs.dom().finite()
        &&& forall|hash: Seq<char>| #[trigger]
            self.index.dom().contains(hash) ==> self.blobs.dom().contains(self.index[hash])
    }

    /// Whether the index holds `hash`.
    pub open spec fn contains(self, hash: Seq<char>) -> bool {
        self.index.dom().contains(hash)
    }

    /// The message bytes stored under `hash`, whichever way they are
    /// encoded; nothing where the index does not hold `hash`.
    pub open spec fn get(self, hash: Seq<char>) -> Option<Seq<u8>> {
        if self.contains(hash) {
            Some(content_of(self.blobs[self.index[hash]]))
        } else {
            None
        }
    }

    /// The store after one committed transaction that inserts `payload` as
    /// blob `id` and indexes it under `hash`.
    pub open spec fn insert(self, hash: Seq<char>, payload: Seq<u8>, id: int) -> BlobStore {
        BlobStore { blobs: self.blobs.insert(id, payload), index: self.index.insert(hash, id) }
    }

    /// The store after `put(data)`: unchanged where the hash of `data` is
    /// indexed already, else with `payload` inserted as blob `id`.
    pub open spec fn put(self, data: Seq<u8>, payload: Seq<u8>, id: int) -> BlobStore {
        if self.contains(content_hash_of(data)) {
            self
        } else {
            self.insert(content_hash_of(data), payload, id)
        }
    }

    /// The store after `recompress(id, payload)`: the blob's payload is
    /// replaced, its id and every index entry stay.
    pub open spec fn recompress(self, id: int, payload: Seq<u8>) -> BlobStore {
        BlobStore { blobs: self.blobs.insert(id, payload), index: self.index }
    }

    /// The number of blobs that the store holds.
    pub open spec fn blob_count(self) -> nat {
        self.blobs.dom().len()
    }
}

/// What `put` does once the index has been asked for the hash.
#[derive(Debug, Clone, PartialEq, Eq)]
pub enum PutPlan {
    /// The content is stored already; nothing is written.
    AlreadyStored,
    /// Insert this payload and index it under the hash, in one transaction.
    Store(Vec<u8>),
    /// The compressor failed; nothing is written.
    CompressionFailed,
}

/// What `put(data)` writes, given whether the hash of `data` is indexed
/// already: nothing for content that is stored already, else the compressed
/// frame of `data`, and nothing where the compressor fails.
pub open spec fn put_plan(data: Seq<u8>, indexed: bool, plan: PutPlan) -> bool {
    if indexed {
        plan is AlreadyStored
    } else {
        match zstd_encoded(data) {
            Some(frame) => plan matches PutPlan::Store(payload) && payload@ == frame,
            None => plan is CompressionFailed,
        }
    }
}

/// Decides what `put(data)` writes, given whether the hash of `data` is
/// indexed already.
///
/// Content that is stored already is never written again. New content is
/// compressed; the payload to store reads back as `data`.
pub fn plan_put(data: &[u8], indexed: bool) -> (plan: PutPlan)
    ensures
        put_plan(data@, indexed, plan),
        indexed <==> plan is AlreadyStored,
        plan matches PutPlan::Store(payload) ==> is_encoding_of(payload@, data@),
{
    if indexed {
        PutPlan::AlreadyStored
    } else {
        match encode(data) {
            Some(payload) => PutPlan::Store(payload),
            None => PutPlan::CompressionFailed,
        }
    }
}

/// Answers `get`: the message bytes of a stored payload, or nothing where
/// the index did not hold the hash.
pub fn read_blob(stored: Option<Vec<u8>>) -> (bytes: Option<Vec<u8>>)
    ensures
        stored is None ==> bytes is None,
        stored matches Some(payload) ==> bytes matches Some(b) && b@ == content_of(payload@),
{
    match stored {
        Some(payload) => Some(decode(payload).into_bytes()),
        None => None,
    }
}

/// Inserting a blob under a fresh id keeps the store well-formed and adds
/// exactly one blob.
pub proof fn insert_keeps_wf(store: BlobStore, hash: Seq<char>, payload: Seq<u8>, id: int)
    requires
        store.wf(),
        !store.blobs.dom().contains(id),
    ensures
        store.insert(hash, payload, id).wf(),
        store.insert(hash, payload, id).blob_count() == store.blob_count() + 1,
        store.insert(hash, payload, id).contains(hash),
        store.insert(hash, payload, id).get(hash) == Some(content_of(payload)),
{
    let after = store.insert(hash, payload, id);
    assert forall|h: Seq<char>| #[trigger] after.index.dom().contains(h) implies after.blobs.dom().contains(
        after.index[h],
    ) by {
        if h != hash {
            assert(store.index.dom().contains(h));
        }
    }
}

/// Dedup idempotence. Putting the same bytes twice yields one content hash
/// and one physical blob: the second `put` changes nothing, and the first
/// one adds a blob only where the hash was not indexed. After either call
/// `get` of that hash returns the bytes.
///
/// This is stated for stores in which the hash, where it is indexed
/// already, stands for these bytes.
pub proof fn put_is_idempotent(
    store: BlobStore,
    data: Seq<u8>,
    first_payload: Seq<u8>,
    first_id: int,
    second_payload: Seq<u8>,
    second_id: int,
)
    requires
        store.wf(),
        is_encoding_of(first_payload, data),
        !store.blobs.dom().contains(first_id),
        store.contains(content_hash_of(data)) ==> store.get(content_hash_of(data)) == Some(data),
    ensures
        ({
            let once = store.put(data, first_payload, first_id);
            let twice = once.put(data, second_payload, second_id);
            &&& once.wf()
            &&& twice == once
            &&& once.get(content_hash_of(data)) == Some(data)
            &&& twice.get(content_hash_of(data)) == Some(data)
            &&& once.blob_count() == if store.contains(content_hash_of(data)) {
                store.blob_count()
            } else {
                store.blob_count() + 1
            }
        }),
{
    let hash = content_hash_of(data);
    if !store.contains(hash) {
        insert_keeps_wf(store, hash, first_payload, first_id);
    }
}

/// Recompressing a blob with another encoding of its content keeps the
/// store well-formed, keeps its blobs and its index, and keeps what every
/// `get` returns.
pub proof fn recompress_keeps_content(store: BlobStore, id: int, payload: Seq<u8>)
    requires
        store.wf(),
        store.blobs.dom().contains(id),
        content_of(payload) == content_of(store.blobs[id]),
    ensures
        store.recompress(id, payload).wf(),
        store.recompress(id, payload).index == store.index,
        store.recompress(id, payload).blob_count() == store.blob_count(),
        forall|hash: Seq<char>| #[trigger]
            store.recompress(id, payload).get(hash) == store.get(hash),
{
    let after = store.recompress(id, payload);
    assert(after.blobs.dom() =~= store.blobs.dom());
    assert forall|hash: Seq<char>| #[trigger] after.get(hash) == store.get(hash) by {
        if store.contains(hash) {
            if store.index[hash] != id {
                assert(after.blobs[store.index[hash]] == store.blobs[store.index[hash]]);
            }
        }
    }
}

} // verus!
