//! The archive as a whole: a model of its three stores and of what an
//! ingestion does to them.
//!
//! None of the stores is a cache of another, and no transaction spans them.
//! The model tells what each command of the ingestion saga does to the
//! stores when it is carried out and committed, and the laws below say what
//! holds of the stores after whole runs.

use crate::blobs::{insert_keeps_wf, BlobStore};
use crate::codec::is_encoding_of;
use crate::db::models::MessagesView;
use crate::email::email_of;
use crate::hash::content_hash_of;
use crate::http::errors::CentaureissiError;
use crate::ingest::{ingest_step, is_unreadable, IngestCommandView, IngestStage, IngestionView, StoreReply};
use crate::search::message::{search_document, SearchDocumentView};
use vstd::prelude::*;

verus! {

/// The number of metadata records that reference `hash`.
pub open spec fn count_by_hash(records: Seq<MessagesView>, hash: Seq<char>) -> nat
    decreases records.len(),
{
    if records.len() == 0 {
        0
    } else {
        count_by_hash(records.drop_last(), hash) + if records.last().content_hash == hash {
            1nat
        } else {
            0nat
        }
    }
}

/// Inserting a record raises the count of its own hash by one and leaves
/// every other count as it was.
pub proof fn count_after_insert(records: Seq<MessagesView>, record: MessagesView, hash: Seq<char>)
    ensures
        count_by_hash(records.push(record), hash) == count_by_hash(records, hash) + if record.content_hash
            == hash {
            1nat
        } else {
            0nat
        },
{
    assert(records.push(record).drop_last() == records);
}

/// What the three stores hold.
pub ghost struct Archive {
    /// The blob store.
    pub blobs: BlobStore,
    /// The metadata records, in the order in which they were inserted.
    pub records: Seq<MessagesView>,
    /// The search documents, in the order in which they were added.
    pub documents: Seq<SearchDocumentView>,
}

impl Archive {
    /// How the stores answer a command that succeeds. A record that is
    /// inserted gets the id `record_id`.
    pub open spec fn reply_to(self, command: IngestCommandView, record_id: i32) -> StoreReply {
        match command {
            IngestCommandView::LookupBlob { hash } => if self.blobs.contains(hash) {
                StoreReply::Found
            } else {
                StoreReply::Missing
            },
            IngestCommandView::InsertRecord(_) => StoreReply::Inserted(record_id),
            _ => StoreReply::Written,
        }
    }

    /// The stores after a command was carried out and committed. A blob
    /// that is stored gets the id `fresh_id`, a record that is inserted the
    /// id `record_id`.
    pub open spec fn apply(self, command: IngestCommandView, fresh_id: int, record_id: i32) -> Archive {
        match command {
            IngestCommandView::StoreBlob { hash, payload } => Archive {
                blobs: self.blobs.insert(hash, payload, fresh_id),
                ..self
            },
            IngestCommandView::InsertRecord(record) => Archive {
                records: self.records.push(
                    MessagesView {
                        id: record_id,
                        user_id: record.user_id,
                        content_hash: record.content_hash,
                    },
                ),
                ..self
            },
            IngestCommandView::AddDocument(doc) => Archive {
                documents: self.documents.push(doc),
                ..self
            },
            _ => self,
        }
    }

    /// The stores after the ingestion of `raw` for `user_id`, with no store
    /// failing. Content whose hash is indexed already changes nothing. New
    /// content adds its blob, one metadata record and, where the bytes
    /// parse, one search document under the id of that record.
    pub open spec fn ingested(
        self,
        user_id: i32,
        raw: Seq<u8>,
        payload: Seq<u8>,
        fresh_id: int,
        record_id: i32,
    ) -> Archive {
        let hash = content_hash_of(raw);
        if self.blobs.contains(hash) {
            self
        } else {
            Archive {
                blobs: self.blobs.insert(hash, payload, fresh_id),
                records: self.records.push(
                    MessagesView { id: record_id, user_id, content_hash: hash },
                ),
                documents: match email_of(raw) {
                    Some(email) => self.documents.push(
                        search_document(record_id, user_id, hash, email),
                    ),
                    None => self.documents,
                },
            }
        }
    }
}

/// A run of the ingestion saga against stores that do not fail leaves them
/// as [`Archive::ingested`] says, and ends in success, or as unreadable
/// where the bytes do not parse. The run is given by the states and commands
/// of its steps; a step counts only while the ingestion is not over.
///
/// The one outcome left out is a failure of the compressor, after which
/// nothing was written.
pub proof fn ingestion_runs_to_completion(
    archive: Archive,
    fresh_id: int,
    record_id: i32,
    start: IngestionView,
    after_lookup: (IngestionView, IngestCommandView),
    after_store: (IngestionView, IngestCommandView),
    after_record: (IngestionView, IngestCommandView),
    after_index: (IngestionView, IngestCommandView),
)
    requires
        start.stage == IngestStage::CheckingBlob,
        start.hash == content_hash_of(start.raw),
        ingest_step(
            start,
            archive.reply_to(IngestCommandView::LookupBlob { hash: start.hash }, record_id),
            after_lookup.0,
            after_lookup.1,
        ),
        !(after_lookup.1 matches IngestCommandView::Finish(
            Err(CentaureissiError::BlobDatabaseError()),
        )),
        after_lookup.0.stage != IngestStage::Done ==> ingest_step(
            after_lookup.0,
            StoreReply::Written,
            after_store.0,
            after_store.1,
        ),
        after_lookup.0.stage != IngestStage::Done ==> ingest_step(
            after_store.0,
            StoreReply::Inserted(record_id),
            after_record.0,
            after_record.1,
        ),
        after_lookup.0.stage != IngestStage::Done && after_record.0.stage != IngestStage::Done
            ==> ingest_step(after_record.0, StoreReply::Written, after_index.0, after_index.1),
    ensures
        ({
            let hash = content_hash_of(start.raw);
            if archive.blobs.contains(hash) {
                &&& after_lookup.1 matches IngestCommandView::Finish(outcome)
                &&& outcome is Ok
                &&& archive.ingested(start.user_id, start.raw, Seq::empty(), fresh_id, record_id)
                    == archive
            } else {
                &&& after_lookup.1 matches IngestCommandView::StoreBlob { hash: stored_hash, payload }
                &&& is_encoding_of(payload, start.raw)
                &&& archive.apply(after_lookup.1, fresh_id, record_id).apply(
                    after_store.1,
                    fresh_id,
                    record_id,
                ).apply(after_record.1, fresh_id, record_id) == archive.ingested(
                    start.user_id,
                    start.raw,
                    payload,
                    fresh_id,
                    record_id,
                )
                &&& match email_of(start.raw) {
                    Some(_) => after_index.1 matches IngestCommandView::Finish(outcome)
                        && outcome is Ok,
                    None => after_record.1 matches IngestCommandView::Finish(outcome)
                        && is_unreadable(outcome),
                }
            }
        }),
{
    if !archive.blobs.contains(content_hash_of(start.raw)) {
        assert(after_store.0.stage == IngestStage::RecordingOwner);
    }
}

/// One ingestion of new content stores it so that it reads back, and
/// records its owner once. A second ingestion of the same bytes, for
/// whichever user, changes none of the three stores: no second blob, no
/// second metadata record, no second search document.
pub proof fn shared_content_is_recorded_once(
    archive: Archive,
    first_user: i32,
    second_user: i32,
    raw: Seq<u8>,
    first_payload: Seq<u8>,
    first_id: int,
    first_record: i32,
    second_payload: Seq<u8>,
    second_id: int,
    second_record: i32,
)
    requires
        archive.blobs.wf(),
        !archive.blobs.contains(content_hash_of(raw)),
        !archive.blobs.blobs.dom().contains(first_id),
        is_encoding_of(first_payload, raw),
    ensures
        ({
            let hash = content_hash_of(raw);
            let once = archive.ingested(first_user, raw, first_payload, first_id, first_record);
            let twice = once.ingested(
                second_user,
                raw,
                second_payload,
                second_id,
                second_record,
            );
            &&& once.blobs.wf()
            &&& once.blobs.get(hash) == Some(raw)
            &&& once.blobs.blob_count() == archive.blobs.blob_count() + 1
            &&& count_by_hash(once.records, hash) == count_by_hash(archive.records, hash) + 1
            &&& twice == once
        }),
{
    let hash = content_hash_of(raw);
    insert_keeps_wf(archive.blobs, hash, first_payload, first_id);
    count_after_insert(
        archive.records,
        MessagesView { id: first_record, user_id: first_user, content_hash: hash },
        hash,
    );
}

} // verus!
