use centaureissi::actions::compress::{compress_payload, CompressAction};
use centaureissi::actions::rebuild_messages::{default_user_found, recover_record};
use centaureissi::actions::rebuild_search::{reindex_message, reports_progress};
use centaureissi::blobs::{plan_put, read_blob, PutPlan, BLOB_INDEX, BLOB_TABLE};
use centaureissi::codec::encode;
use centaureissi::db::models::Messages;
use centaureissi::db::requests::NewMessage;
use centaureissi::hash::content_hash;
use centaureissi::http::errors::CentaureissiError;
use centaureissi::ingest::{IngestCommand, Ingestion, StoreReply};
use centaureissi::search::message::SearchDocument;
use std::collections::BTreeMap;

const MESSAGE_A: &[u8] = b"From: Alice <alice@example.org>\r\nTo: bob@example.org\r\n\
Subject: Quarterly figures\r\nDate: Thu, 01 Jan 1970 00:00:10 +0000\r\n\r\nThe figures are attached.";

const MESSAGE_B: &[u8] = b"From: carol@example.org\r\nSubject: Lunch\r\n\r\nNoon?";

/// The three stores, kept in memory.
struct Stores {
    blobs: Vec<Vec<u8>>,
    index: BTreeMap<String, usize>,
    records: Vec<NewMessage>,
    documents: Vec<SearchDocument>,
    writes: usize,
}

fn empty_stores() -> Stores {
    Stores { blobs: Vec::new(), index: BTreeMap::new(), records: Vec::new(), documents: Vec::new(), writes: 0 }
}

fn carry_out(stores: &mut Stores, command: IngestCommand) -> Result<StoreReply, Result<(), CentaureissiError>> {
    match command {
        IngestCommand::LookupBlob { hash } => {
            Ok(if stores.index.contains_key(&hash) { StoreReply::Found } else { StoreReply::Missing })
        }
        IngestCommand::StoreBlob { hash, payload } => {
            stores.blobs.push(payload);
            stores.index.insert(hash, stores.blobs.len() - 1);
            stores.writes += 1;
            Ok(StoreReply::Written)
        }
        IngestCommand::InsertRecord(record) => {
            stores.records.push(record);
            stores.writes += 1;
            Ok(StoreReply::Inserted(stores.records.len() as i32))
        }
        IngestCommand::AddDocument(doc) => {
            stores.documents.push(doc);
            stores.writes += 1;
            Ok(StoreReply::Written)
        }
        IngestCommand::Finish(outcome) => Err(outcome),
    }
}

fn ingest(stores: &mut Stores, user_id: i32, raw: &[u8]) -> Result<(), CentaureissiError> {
    let (mut ingestion, mut command) = Ingestion::begin(user_id, raw.to_vec());
    loop {
        match carry_out(stores, command) {
            Ok(reply) => {
                let next = ingestion.advance(reply);
                ingestion = next.0;
                command = next.1;
            }
            Err(outcome) => {
                assert!(ingestion.is_done());
                return outcome;
            }
        }
    }
}

fn get(stores: &Stores, hash: &str) -> Option<Vec<u8>> {
    read_blob(stores.index.get(hash).map(|id| stores.blobs[*id].clone()))
}

fn count_by_hash(stores: &Stores, hash: &str) -> i64 {
    stores.records.iter().filter(|r| r.content_hash == hash).count() as i64
}

fn compress_pass(stores: &mut Stores) -> usize {
    let mut rewritten = 0;
    for id in 0..stores.blobs.len() {
        match compress_payload(&stores.blobs[id]) {
            CompressAction::Keep => {}
            CompressAction::Rewrite(payload) => {
                stores.blobs[id] = payload;
                rewritten += 1;
            }
            CompressAction::Failed => panic!("the compressor works"),
        }
    }
    rewritten
}

fn rebuild_messages(stores: &mut Stores, default_user_id: i32) -> usize {
    let hashes: Vec<String> = stores.index.keys().cloned().collect();
    let mut inserted = 0;
    for hash in hashes {
        let count = count_by_hash(stores, &hash);
        if let Some(record) = recover_record(default_user_id, hash, count) {
            stores.records.push(record);
            inserted += 1;
        }
    }
    inserted
}

fn rebuild_search(stores: &mut Stores) {
    stores.documents.clear();
    for (position, record) in stores.records.iter().enumerate() {
        let row = Messages {
            id: position as i32 + 1,
            user_id: record.user_id,
            content_hash: record.content_hash.clone(),
        };
        let stored = stores.blobs[stores.index[&record.content_hash]].clone();
        let doc = reindex_message(&row, stored).expect("stored messages parse");
        stores.documents.push(doc);
    }
}

#[test]
fn layout_names_are_fixed() {
    assert_eq!(BLOB_TABLE, "blobs");
    assert_eq!(BLOB_INDEX, "blob_index");
}

#[test]
fn ingestion_begins_with_the_lookup_of_the_content_hash() {
    let (ingestion, command) = Ingestion::begin(1, MESSAGE_A.to_vec());
    assert_eq!(command, IngestCommand::LookupBlob { hash: content_hash(MESSAGE_A) });
    assert_eq!(ingestion.content_hash(), &content_hash(MESSAGE_A));
    assert!(!ingestion.is_done());
}

#[test]
fn new_content_is_written_to_blob_store_then_metadata_then_index() {
    let hash = content_hash(MESSAGE_A);
    let (ingestion, _) = Ingestion::begin(3, MESSAGE_A.to_vec());
    let (ingestion, command) = ingestion.advance(StoreReply::Missing);
    match command {
        IngestCommand::StoreBlob { hash: stored_hash, payload } => {
            assert_eq!(stored_hash, hash);
            assert_eq!(read_blob(Some(payload)), Some(MESSAGE_A.to_vec()));
        }
        other => panic!("expected the blob to be stored, got {:?}", other),
    }
    let (ingestion, command) = ingestion.advance(StoreReply::Written);
    assert_eq!(command, IngestCommand::InsertRecord(NewMessage { user_id: 3, content_hash: hash.clone() }));
    let (ingestion, command) = ingestion.advance(StoreReply::Inserted(41));
    match command {
        IngestCommand::AddDocument(doc) => {
            assert_eq!(doc.id, 41);
            assert_eq!(doc.hash, hash);
            assert_eq!(doc.user_id, 3);
            assert_eq!(doc.from, "Alice <alice@example.org>");
            assert_eq!(doc.subject, "Quarterly figures");
            assert_eq!(doc.date, 10);
            assert_eq!(doc.content, "The figures are attached.");
        }
        other => panic!("expected the document to be added, got {:?}", other),
    }
    assert!(!ingestion.is_done());
    let (ingestion, command) = ingestion.advance(StoreReply::Written);
    assert_eq!(command, IngestCommand::Finish(Ok(())));
    assert!(ingestion.is_done());
}

#[test]
fn known_content_ends_the_ingestion_without_a_write() {
    let (ingestion, _) = Ingestion::begin(3, MESSAGE_A.to_vec());
    let (ingestion, command) = ingestion.advance(StoreReply::Found);
    assert_eq!(command, IngestCommand::Finish(Ok(())));
    assert!(ingestion.is_done());
}

#[test]
fn unreadable_content_fails_after_blob_and_record_were_written() {
    let mut stores = empty_stores();
    let outcome = ingest(&mut stores, 1, b"");
    assert_eq!(outcome, Err(CentaureissiError::InvalidEmailContentsError(String::from("no message"))));
    assert_eq!(stores.blobs.len(), 1);
    assert_eq!(stores.records.len(), 1);
    assert_eq!(stores.documents.len(), 0);
}

#[test]
fn store_failures_end_the_ingestion_with_the_error_of_that_store() {
    let failed = || StoreReply::Failed(String::from("disk full"));
    let (ingestion, _) = Ingestion::begin(1, MESSAGE_A.to_vec());
    assert_eq!(
        ingestion.advance(failed()).1,
        IngestCommand::Finish(Err(CentaureissiError::InternalServerError(String::from(
            "Blob storage error: disk full"
        ))))
    );
    let (ingestion, _) = Ingestion::begin(1, MESSAGE_A.to_vec());
    let (ingestion, _) = ingestion.advance(StoreReply::Missing);
    assert_eq!(
        ingestion.advance(failed()).1,
        IngestCommand::Finish(Err(CentaureissiError::InternalServerError(String::from(
            "Blob storage error: disk full"
        ))))
    );
    let (ingestion, _) = Ingestion::begin(1, MESSAGE_A.to_vec());
    let (ingestion, _) = ingestion.advance(StoreReply::Missing);
    let (ingestion, _) = ingestion.advance(StoreReply::Written);
    assert_eq!(
        ingestion.advance(failed()).1,
        IngestCommand::Finish(Err(CentaureissiError::RelationalDatabaseError()))
    );
    let (ingestion, _) = Ingestion::begin(1, MESSAGE_A.to_vec());
    let (ingestion, _) = ingestion.advance(StoreReply::Missing);
    let (ingestion, _) = ingestion.advance(StoreReply::Written);
    let (ingestion, _) = ingestion.advance(StoreReply::Inserted(1));
    let (ingestion, command) = ingestion.advance(failed());
    assert_eq!(
        command,
        IngestCommand::Finish(Err(CentaureissiError::InternalServerError(String::from(
            "Search error: disk full"
        ))))
    );
    assert!(ingestion.is_done());
}

#[test]
fn reply_out_of_turn_ends_the_ingestion() {
    let (ingestion, _) = Ingestion::begin(1, MESSAGE_A.to_vec());
    let (ingestion, command) = ingestion.advance(StoreReply::Written);
    assert_eq!(
        command,
        IngestCommand::Finish(Err(CentaureissiError::InternalServerError(String::from("reply out of turn"))))
    );
    let (ingestion, command) = ingestion.advance(StoreReply::Missing);
    assert!(ingestion.is_done());
    assert_eq!(
        command,
        IngestCommand::Finish(Err(CentaureissiError::InternalServerError(String::from("reply out of turn"))))
    );
    let (ingestion, _) = Ingestion::begin(1, MESSAGE_A.to_vec());
    let (ingestion, _) = ingestion.advance(StoreReply::Missing);
    let (ingestion, _) = ingestion.advance(StoreReply::Written);
    let (ingestion, command) = ingestion.advance(StoreReply::Written);
    assert!(ingestion.is_done());
    assert_eq!(
        command,
        IngestCommand::Finish(Err(CentaureissiError::InternalServerError(String::from("reply out of turn"))))
    );
}

#[test]
fn identical_bytes_for_a_second_user_add_no_second_record() {
    let mut stores = empty_stores();
    let h1 = content_hash(MESSAGE_A);
    assert_eq!(ingest(&mut stores, 1, MESSAGE_A), Ok(()));
    assert_eq!(get(&stores, &h1), Some(MESSAGE_A.to_vec()));
    assert_eq!(count_by_hash(&stores, &h1), 1);
    assert_eq!(ingest(&mut stores, 2, MESSAGE_A), Ok(()));
    assert_eq!(count_by_hash(&stores, &h1), 1);
    assert_eq!(stores.records, vec![NewMessage { user_id: 1, content_hash: h1.clone() }]);
    assert_eq!(stores.blobs.len(), 1);
    assert_eq!(stores.documents.len(), 1);
    assert_eq!(stores.writes, 3);
    assert_eq!(get(&stores, &h1), Some(MESSAGE_A.to_vec()));
}

#[test]
fn putting_the_same_bytes_twice_keeps_one_blob() {
    let mut stores = empty_stores();
    let hash = content_hash(MESSAGE_B);
    for _ in 0..2 {
        let indexed = stores.index.contains_key(&hash);
        match plan_put(MESSAGE_B, indexed) {
            PutPlan::AlreadyStored => assert!(indexed),
            PutPlan::Store(payload) => {
                assert!(!indexed);
                stores.blobs.push(payload);
                stores.index.insert(hash.clone(), stores.blobs.len() - 1);
            }
            PutPlan::CompressionFailed => panic!("the compressor works"),
        }
        assert_eq!(get(&stores, &hash), Some(MESSAGE_B.to_vec()));
    }
    assert_eq!(stores.blobs.len(), 1);
    assert_eq!(stores.index.len(), 1);
}

#[test]
fn missing_hash_reads_as_nothing() {
    let stores = empty_stores();
    assert_eq!(get(&stores, &content_hash(MESSAGE_A)), None);
    assert_eq!(read_blob(None), None);
}

#[test]
fn legacy_blob_reads_back_and_is_compressed_by_the_repair_once() {
    let mut stores = empty_stores();
    assert_eq!(ingest(&mut stores, 1, MESSAGE_A), Ok(()));
    let legacy_hash = content_hash(MESSAGE_B);
    stores.blobs.push(MESSAGE_B.to_vec());
    stores.index.insert(legacy_hash.clone(), 1);
    assert_eq!(get(&stores, &legacy_hash), Some(MESSAGE_B.to_vec()));

    assert_eq!(compress_pass(&mut stores), 1);
    let after_first = stores.blobs.clone();
    assert_ne!(after_first[1], MESSAGE_B.to_vec());
    assert_eq!(get(&stores, &legacy_hash), Some(MESSAGE_B.to_vec()));
    assert_eq!(get(&stores, &content_hash(MESSAGE_A)), Some(MESSAGE_A.to_vec()));

    assert_eq!(compress_pass(&mut stores), 0);
    assert_eq!(stores.blobs, after_first);
}

#[test]
fn new_content_is_stored_as_its_compressed_frame() {
    let frame = encode(MESSAGE_B).expect("the compressor works");
    assert_eq!(encode(MESSAGE_B), Some(frame.clone()));
    assert_eq!(plan_put(MESSAGE_B, false), PutPlan::Store(frame.clone()));
    assert_eq!(plan_put(MESSAGE_B, true), PutPlan::AlreadyStored);
    assert_eq!(compress_payload(MESSAGE_B), CompressAction::Rewrite(frame.clone()));
    let (ingestion, _) = Ingestion::begin(1, MESSAGE_B.to_vec());
    let (_, command) = ingestion.advance(StoreReply::Missing);
    assert_eq!(command, IngestCommand::StoreBlob { hash: content_hash(MESSAGE_B), payload: frame });
}

#[test]
fn compress_decision_keeps_compressed_and_rewrites_legacy() {
    let stored = encode(MESSAGE_A).expect("the compressor works");
    assert_eq!(compress_payload(&stored), CompressAction::Keep);
    match compress_payload(MESSAGE_A) {
        CompressAction::Rewrite(payload) => assert_eq!(read_blob(Some(payload)), Some(MESSAGE_A.to_vec())),
        other => panic!("expected a rewrite, got {:?}", other),
    }
}

#[test]
fn rebuild_messages_gives_every_indexed_hash_a_record() {
    let mut stores = empty_stores();
    assert_eq!(ingest(&mut stores, 1, MESSAGE_A), Ok(()));
    assert_eq!(ingest(&mut stores, 2, MESSAGE_B), Ok(()));
    stores.records.clear();
    assert_eq!(rebuild_messages(&mut stores, 9), 2);
    for hash in stores.index.keys() {
        assert!(count_by_hash(&stores, hash) >= 1);
    }
    assert!(stores.records.iter().all(|r| r.user_id == 9));
    assert_eq!(rebuild_messages(&mut stores, 9), 0);
    assert_eq!(stores.records.len(), 2);
}

#[test]
fn rebuild_messages_skips_hashes_that_have_a_record() {
    assert_eq!(
        recover_record(5, String::from("abc"), 0),
        Some(NewMessage { user_id: 5, content_hash: String::from("abc") })
    );
    assert_eq!(recover_record(5, String::from("abc"), 1), None);
    assert_eq!(recover_record(5, String::from("abc"), 3), None);
    assert!(default_user_found(5));
    assert!(!default_user_found(0));
}

#[test]
fn rebuilt_search_documents_equal_the_ingested_ones() {
    let mut stores = empty_stores();
    assert_eq!(ingest(&mut stores, 1, MESSAGE_A), Ok(()));
    assert_eq!(ingest(&mut stores, 2, MESSAGE_B), Ok(()));
    let before = stores.documents.clone();
    rebuild_search(&mut stores);
    assert_eq!(stores.documents, before);
    assert_eq!(stores.documents[0].id, 1);
    assert_eq!(stores.documents[1].id, 2);
    assert_eq!(stores.documents[0].from, "Alice <alice@example.org>");
    assert_eq!(stores.documents[0].subject, "Quarterly figures");
    assert_eq!(stores.documents[0].content, "The figures are attached.");
}

#[test]
fn reindex_reads_legacy_and_compressed_blobs_alike() {
    let row = Messages { id: 1, user_id: 6, content_hash: content_hash(MESSAGE_B) };
    let from_legacy = reindex_message(&row, MESSAGE_B.to_vec()).expect("it parses");
    let from_compressed =
        reindex_message(&row, encode(MESSAGE_B).expect("the compressor works")).expect("it parses");
    assert_eq!(from_legacy, from_compressed);
    assert_eq!(from_legacy.id, 1);
    assert_eq!(from_legacy.user_id, 6);
    assert_eq!(from_legacy.subject, "Lunch");
    assert_eq!(from_legacy.from, "carol@example.org");
    assert_eq!(from_legacy.date, 0);
    assert_eq!(reindex_message(&row, Vec::new()), None);
}

#[test]
fn progress_is_reported_every_hundredth_record_unless_verbose() {
    assert!(reports_progress(100, false));
    assert!(reports_progress(300, false));
    assert!(!reports_progress(100, true));
    assert!(!reports_progress(1, false));
    assert!(!reports_progress(99, false));
}
