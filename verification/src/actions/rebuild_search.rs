//! The RebuildSearchIndex repair: the search document of every metadata
//! record is derived again from its blob.

use crate::archive::Archive;
use crate::blobs::insert_keeps_wf;
use crate::codec::{content_of, decode, is_encoding_of};
use crate::db::models::{Messages, MessagesView};
use crate::email::{email_of, parse_email};
use crate::hash::content_hash_of;
use crate::search::message::{
    create_search_document_from_message,
    search_document,
    SearchDocument,
    SearchDocumentView,
};
use vstd::prelude::*;

verus! {

/// The search document that the repair derives for a record whose blob is
/// stored as `stored`: that of the parsed message bytes, under the id, the
/// owner and the hash of the record, or nothing where the stored message
/// does not parse.
pub open spec fn reindexed(record: MessagesView, stored: Seq<u8>) -> Option<SearchDocumentView> {
    match email_of(content_of(stored)) {
        Some(email) => Some(
            search_document(record.id, record.user_id, record.content_hash, email),
        ),
        None => None,
    }
}

/// Derives the search document of one metadata record from the stored
/// payload of its blob. `None` where the stored message does not parse,
/// which the repair treats as corruption and halts on.
pub fn reindex_message(record: &Messages, stored: Vec<u8>) -> (doc: Option<SearchDocument>)
    ensures
        doc.deep_view() == reindexed(record@, stored@),
{
    let contents = decode(stored).into_bytes();
    match parse_email(contents.as_slice()) {
        Some(email) => Some(
            create_search_document_from_message(
                record.id,
                record.user_id,
                record.content_hash.clone(),
                &email,
            ),
        ),
        None => None,
    }
}

/// Whether the repair reports its progress after `counter` records: at
/// every hundredth, unless it reports each record anyway.
pub fn reports_progress(counter: usize, verbose: bool) -> (report: bool)
    ensures
        report == (counter % 100 == 0 && !verbose),
{
    counter % 100 == 0 && !verbose
}

/// Search rebuild equivalence. The document that the repair derives from
/// the record and the blob of an ingested message is the document that the
/// ingestion added: the same id, owner, hash and projected fields.
pub proof fn rebuild_matches_ingestion(
    archive: Archive,
    user_id: i32,
    raw: Seq<u8>,
    payload: Seq<u8>,
    fresh_id: int,
    record_id: i32,
)
    requires
        !archive.blobs.contains(content_hash_of(raw)),
        is_encoding_of(payload, raw),
        email_of(raw) is Some,
    ensures
        ({
            let after = archive.ingested(user_id, raw, payload, fresh_id, record_id);
            let record = after.records.last();
            let stored = after.blobs.blobs[after.blobs.index[record.content_hash]];
            &&& record == (MessagesView {
                id: record_id,
                user_id,
                content_hash: content_hash_of(raw),
            })
            &&& reindexed(record, stored) == Some(after.documents.last())
        }),
{
}

/// The document that the repair derives for the record at position `i`.
pub open spec fn rebuilt_document(archive: Archive, i: int) -> Option<SearchDocumentView> {
    let record = archive.records[i];
    reindexed(record, archive.blobs.blobs[archive.blobs.index[record.content_hash]])
}

/// The search index holds what the repair would derive: every metadata
/// record has its blob, and the documents are, record by record, the ones
/// that the repair derives from those blobs.
pub open spec fn is_rebuildable(archive: Archive) -> bool {
    &&& archive.blobs.wf()
    &&& archive.documents.len() == archive.records.len()
    &&& forall|i: int|
        0 <= i < archive.records.len() ==> archive.blobs.contains(
            (#[trigger] archive.records[i]).content_hash,
        )
    &&& forall|i: int|
        0 <= i < archive.records.len() ==> #[trigger] rebuilt_document(archive, i) == Some(
            archive.documents[i],
        )
}

/// Ingesting a message that parses keeps the search index rebuildable: if
/// wiping the index and running the repair gave the documents back before
/// the ingestion, it does so after it.
pub proof fn ingestion_keeps_index_rebuildable(
    archive: Archive,
    user_id: i32,
    raw: Seq<u8>,
    payload: Seq<u8>,
    fresh_id: int,
    record_id: i32,
)
    requires
        is_rebuildable(archive),
        !archive.blobs.blobs.dom().contains(fresh_id),
        is_encoding_of(payload, raw),
        email_of(raw) is Some,
    ensures
        is_rebuildable(archive.ingested(user_id, raw, payload, fresh_id, record_id)),
{
    let hash = content_hash_of(raw);
    let after = archive.ingested(user_id, raw, payload, fresh_id, record_id);
    if !archive.blobs.contains(hash) {
        insert_keeps_wf(archive.blobs, hash, payload, fresh_id);
        assert forall|i: int| 0 <= i < after.records.len() implies after.blobs.contains(
            (#[trigger] after.records[i]).content_hash,
        ) by {
            if i < archive.records.len() {
                assert(archive.blobs.contains(archive.records[i].content_hash));
            }
        }
        assert forall|i: int| 0 <= i < after.records.len() implies #[trigger] rebuilt_document(
            after,
            i,
        ) == Some(after.documents[i]) by {
            if i < archive.records.len() {
                let record = archive.records[i];
                assert(archive.blobs.contains(record.content_hash));
                assert(record.content_hash != hash);
                assert(archive.blobs.blobs.dom().contains(archive.blobs.index[record.content_hash]));
                assert(rebuilt_document(archive, i) == Some(archive.documents[i]));
            }
        }
    }
}

/// A blob that was stored before compression existed gives the same search
/// document as its compressed encoding.
pub proof fn rebuild_ignores_encoding(record: MessagesView, legacy: Seq<u8>, payload: Seq<u8>)
    requires
        content_of(legacy) == content_of(payload),
    ensures
        reindexed(record, legacy) == reindexed(record, payload),
{
}

} // verus!
