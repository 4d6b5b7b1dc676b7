//! Ingestion of one message for one owner.
//!
//! The three stores are written one after another, with no transaction over
//! them. The reads and writes themselves happen outside this library; here
//! stands the saga that decides them. The caller starts an [`Ingestion`],
//! carries out the command it is handed, reports how that went, and gets
//! the next command, until the command is to finish.

use crate::blobs::{plan_put, PutPlan};
use crate::codec::{is_encoding_of, zstd_encoded};
use crate::db::requests::{NewMessage, NewMessageView};
use crate::email::{email_of, parse_email};
use crate::hash::{content_hash, content_hash_of, is_content_hash};
use crate::http::errors::CentaureissiError;
use crate::search::message::{
    create_search_document_from_message,
    search_document,
    SearchDocument,
    SearchDocumentView,
};
use vstd::prelude::*;
use vstd::string::StringExecFns;

verus! {

/// Where an ingestion stands: which answer it waits for.
#[derive(Debug, Clone, Copy, PartialEq, Eq, Structural)]
pub enum IngestStage {
    /// The blob index was asked for the content hash.
    CheckingBlob,
    /// The blob and its index entry are being committed.
    StoringBlob,
    /// The metadata record is being inserted.
    RecordingOwner,
    /// The search document is being added.
    Indexing,
    /// Nothing more is to be done.
    Done,
}

/// One message on its way into the archive.
#[derive(Debug)]
pub struct Ingestion {
    user_id: i32,
    raw: Vec<u8>,
    hash: String,
    stage: IngestStage,
}

pub struct IngestionView {
    pub user_id: i32,
    pub raw: Seq<u8>,
    pub hash: Seq<char>,
    pub stage: IngestStage,
}

impl View for Ingestion {
    type V = IngestionView;

    closed spec fn view(&self) -> IngestionView {
        IngestionView { user_id: self.user_id, raw: self.raw@, hash: self.hash@, stage: self.stage }
    }
}

/// What the caller is to do next.
#[derive(Debug, PartialEq, Eq)]
pub enum IngestCommand {
    /// Ask the blob index whether it holds this hash.
    LookupBlob { hash: String },
    /// Insert the payload as a new blob and index it under the hash, in one
    /// transaction.
    StoreBlob { hash: String, payload: Vec<u8> },
    /// Insert this metadata record.
    InsertRecord(NewMessage),
    /// Append this document to the search index and commit.
    AddDocument(SearchDocument),
    /// The ingestion is over, with this outcome.
    Finish(Result<(), CentaureissiError>),
}

pub enum IngestCommandView {
    LookupBlob { hash: Seq<char> },
    StoreBlob { hash: Seq<char>, payload: Seq<u8> },
    InsertRecord(NewMessageView),
    AddDocument(SearchDocumentView),
    Finish(Result<(), CentaureissiError>),
}

impl View for IngestCommand {
    type V = IngestCommandView;

    open spec fn view(&self) -> IngestCommandView {
        match self {
            IngestCommand::LookupBlob { hash } => IngestCommandView::LookupBlob { hash: hash@ },
            IngestCommand::StoreBlob { hash, payload } => IngestCommandView::StoreBlob {
                hash: hash@,
                payload: payload@,
            },
            IngestCommand::InsertRecord(record) => IngestCommandView::InsertRecord(record@),
            IngestCommand::AddDocument(doc) => IngestCommandView::AddDocument(doc@),
            IngestCommand::Finish(outcome) => IngestCommandView::Finish(*outcome),
        }
    }
}

/// How the last command went.
#[derive(Debug, Clone, PartialEq, Eq)]
pub enum StoreReply {
    /// The blob index holds the hash.
    Found,
    /// The blob index does not hold the hash.
    Missing,
    /// The write was committed.
    Written,
    /// The metadata record was inserted, and the store gave it this id.
    Inserted(i32),
    /// The store failed; carries what it said.
    Failed(String),
}

/// The outcome is a failure of the blob store that said `detail`.
pub open spec fn is_blob_failure(outcome: Result<(), CentaureissiError>, detail: Seq<char>) -> bool {
    outcome matches Err(CentaureissiError::InternalServerError(text)) && text@
        == "Blob storage error: "@ + detail
}

/// The outcome is a failure of the search index that said `detail`.
pub open spec fn is_search_failure(outcome: Result<(), CentaureissiError>, detail: Seq<char>) -> bool {
    outcome matches Err(CentaureissiError::InternalServerError(text)) && text@
        == "Search error: "@ + detail
}

/// The outcome is the rejection of bytes that are no email.
pub open spec fn is_unreadable(outcome: Result<(), CentaureissiError>) -> bool {
    outcome matches Err(CentaureissiError::InvalidEmailContentsError(text)) && text@
        == "no message"@
}

/// The outcome is the rejection of a reply that answers no pending command.
pub open spec fn is_out_of_turn(outcome: Result<(), CentaureissiError>) -> bool {
    outcome matches Err(CentaureissiError::InternalServerError(text)) && text@
        == "reply out of turn"@
}

/// The ingestion ends here with an outcome that `ends` accepts.
pub open spec fn finishes(
    post: IngestionView,
    command: IngestCommandView,
    ends: spec_fn(Result<(), CentaureissiError>) -> bool,
) -> bool {
    &&& post.stage == IngestStage::Done
    &&& command matches IngestCommandView::Finish(outcome)
    &&& ends(outcome)
}

/// One step of the saga: from where the ingestion stands and how the last
/// command went to where it stands next and what is to be done.
///
/// - Content whose hash is indexed already is not persisted again: the
///   ingestion ends in success with nothing written.
/// - Otherwise the blob is compressed and committed, then the metadata
///   record is inserted, then the bytes are parsed and the search document
///   is added, under the id that the store gave the record. Only where the compressor fails does the ingestion end
///   before the first write, with the error of the blob store.
/// - Bytes that do not parse end the ingestion as unreadable, after blob
///   and record were written.
/// - A failure of a store ends the ingestion with the error of that store.
pub open spec fn ingest_step(
    pre: IngestionView,
    reply: StoreReply,
    post: IngestionView,
    command: IngestCommandView,
) -> bool {
    &&& post.user_id == pre.user_id
    &&& post.raw == pre.raw
    &&& post.hash == pre.hash
    &&& match (pre.stage, reply) {
        (IngestStage::CheckingBlob, StoreReply::Found) => finishes(
            post,
            command,
            |o: Result<(), CentaureissiError>| o is Ok,
        ),
        (IngestStage::CheckingBlob, StoreReply::Missing) => match zstd_encoded(pre.raw) {
            Some(frame) => {
                &&& post.stage == IngestStage::StoringBlob
                &&& command == (IngestCommandView::StoreBlob { hash: pre.hash, payload: frame })
                &&& is_encoding_of(frame, pre.raw)
            },
            None => finishes(
                post,
                command,
                |o: Result<(), CentaureissiError>|
                    o matches Err(CentaureissiError::BlobDatabaseError()),
            ),
        },
        (IngestStage::CheckingBlob, StoreReply::Failed(detail)) => finishes(
            post,
            command,
            |o: Result<(), CentaureissiError>| is_blob_failure(o, detail@),
        ),
        (IngestStage::StoringBlob, StoreReply::Written) => post.stage
            == IngestStage::RecordingOwner && command == IngestCommandView::InsertRecord(
            NewMessageView { user_id: pre.user_id, content_hash: pre.hash },
        ),
        (IngestStage::StoringBlob, StoreReply::Failed(detail)) => finishes(
            post,
            command,
            |o: Result<(), CentaureissiError>| is_blob_failure(o, detail@),
        ),
        (IngestStage::RecordingOwner, StoreReply::Inserted(record_id)) => match email_of(
            pre.raw,
        ) {
            Some(email) => post.stage == IngestStage::Indexing && command
                == IngestCommandView::AddDocument(
                search_document(record_id, pre.user_id, pre.hash, email),
            ),
            None => finishes(post, command, |o: Result<(), CentaureissiError>| is_unreadable(o)),
        },
        (IngestStage::RecordingOwner, StoreReply::Failed(_)) => finishes(
            post,
            command,
            |o: Result<(), CentaureissiError>|
                o matches Err(CentaureissiError::RelationalDatabaseError()),
        ),
        (IngestStage::Indexing, StoreReply::Written) => finishes(
            post,
            command,
            |o: Result<(), CentaureissiError>| o is Ok,
        ),
        (IngestStage::Indexing, StoreReply::Failed(detail)) => finishes(
            post,
            command,
            |o: Result<(), CentaureissiError>| is_search_failure(o, detail@),
        ),
        _ => finishes(post, command, |o: Result<(), CentaureissiError>| is_out_of_turn(o)),
    }
}

/// The number of commands that an ingestion at this stage can still issue
/// before the command to finish.
pub open spec fn writes_ahead(stage: IngestStage) -> nat {
    match stage {
        IngestStage::CheckingBlob => 3,
        IngestStage::StoringBlob => 2,
        IngestStage::RecordingOwner => 1,
        IngestStage::Indexing => 0,
        IngestStage::Done => 0,
    }
}

/// The writes of one ingestion come in a fixed order, each only after the
/// one before it was committed: the blob after the index did not hold its
/// hash, the metadata record after the blob, the search document after the
/// record. So storage may hold a message that search does not, never the
/// other way round.
pub proof fn writes_come_in_order(
    pre: IngestionView,
    reply: StoreReply,
    post: IngestionView,
    command: IngestCommandView,
)
    requires
        ingest_step(pre, reply, post, command),
    ensures
        !(command is LookupBlob),
        command is StoreBlob ==> pre.stage == IngestStage::CheckingBlob && reply is Missing,
        command is InsertRecord ==> pre.stage == IngestStage::StoringBlob && reply is Written,
        command is AddDocument ==> pre.stage == IngestStage::RecordingOwner && reply is Inserted,
        command is Finish <==> post.stage == IngestStage::Done,
{
}

/// Every step brings the ingestion nearer to its end: after the lookup at
/// most three more commands come before the one to finish.
pub proof fn every_step_nears_the_end(
    pre: IngestionView,
    reply: StoreReply,
    post: IngestionView,
    command: IngestCommandView,
)
    requires
        ingest_step(pre, reply, post, command),
        pre.stage != IngestStage::Done,
    ensures
        post.stage == IngestStage::Done || writes_ahead(post.stage) < writes_ahead(pre.stage),
{
}

/// A failing store ends the ingestion at once, with an error and with no
/// further write.
pub proof fn store_failure_ends_the_ingestion(
    pre: IngestionView,
    detail: String,
    post: IngestionView,
    command: IngestCommandView,
)
    requires
        ingest_step(pre, StoreReply::Failed(detail), post, command),
    ensures
        post.stage == IngestStage::Done,
        command matches IngestCommandView::Finish(outcome) && outcome is Err,
{
}

impl Ingestion {
    /// Starts the ingestion of `raw` for `user_id`: computes the content
    /// hash and asks for the lookup of that hash in the blob index.
    pub fn begin(user_id: i32, raw: Vec<u8>) -> (start: (Ingestion, IngestCommand))
        ensures
            start.0@ == (IngestionView {
                user_id,
                raw: raw@,
                hash: content_hash_of(raw@),
                stage: IngestStage::CheckingBlob,
            }),
            start.1@ == (IngestCommandView::LookupBlob { hash: content_hash_of(raw@) }),
            is_content_hash(start.0@.hash),
    {
        let hash = content_hash(raw.as_slice());
        let command = IngestCommand::LookupBlob { hash: hash.clone() };
        (Ingestion { user_id, raw, hash, stage: IngestStage::CheckingBlob }, command)
    }

    /// The content hash of the message.
    pub fn content_hash(&self) -> (hash: &String)
        ensures
            hash@ == self@.hash,
    {
        &self.hash
    }

    /// Whether the ingestion is over.
    pub fn is_done(&self) -> (done: bool)
        ensures
            done == (self@.stage == IngestStage::Done),
    {
        match self.stage {
            IngestStage::Done => true,
            _ => false,
        }
    }

    fn finish(self, outcome: Result<(), CentaureissiError>) -> (next: (Ingestion, IngestCommand))
        ensures
            next.0@ == (IngestionView { stage: IngestStage::Done, ..self@ }),
            next.1@ == IngestCommandView::Finish(outcome),
    {
        (
            Ingestion {
                user_id: self.user_id,
                raw: self.raw,
                hash: self.hash,
                stage: IngestStage::Done,
            },
            IngestCommand::Finish(outcome),
        )
    }

    fn proceed(self, stage: IngestStage, command: IngestCommand) -> (next: (
        Ingestion,
        IngestCommand,
    ))
        ensures
            next.0@ == (IngestionView { stage, ..self@ }),
            next.1 == command,
    {
        (Ingestion { user_id: self.user_id, raw: self.raw, hash: self.hash, stage }, command)
    }

    /// Takes the outcome of the last command and decides the next one.
    pub fn advance(self, reply: StoreReply) -> (next: (Ingestion, IngestCommand))
        ensures
            ingest_step(self@, reply, next.0@, next.1@),
    {
        match (self.stage, reply) {
            (IngestStage::CheckingBlob, StoreReply::Found) => self.finish(Ok(())),
            (IngestStage::CheckingBlob, StoreReply::Missing) => {
                match plan_put(self.raw.as_slice(), false) {
                    PutPlan::Store(payload) => {
                        let command = IngestCommand::StoreBlob { hash: self.hash.clone(), payload };
                        self.proceed(IngestStage::StoringBlob, command)
                    },
                    _ => self.finish(Err(CentaureissiError::BlobDatabaseError())),
                }
            },
            (IngestStage::CheckingBlob, StoreReply::Failed(detail)) => {
                self.finish(Err(CentaureissiError::blob_storage(detail.as_str())))
            },
            (IngestStage::StoringBlob, StoreReply::Written) => {
                let record = NewMessage { user_id: self.user_id, content_hash: self.hash.clone() };
                self.proceed(IngestStage::RecordingOwner, IngestCommand::InsertRecord(record))
            },
            (IngestStage::StoringBlob, StoreReply::Failed(detail)) => {
                self.finish(Err(CentaureissiError::blob_storage(detail.as_str())))
            },
            (IngestStage::RecordingOwner, StoreReply::Inserted(record_id)) => {
                match parse_email(self.raw.as_slice()) {
                    Some(email) => {
                        let doc = create_search_document_from_message(
                            record_id,
                            self.user_id,
                            self.hash.clone(),
                            &email,
                        );
                        self.proceed(IngestStage::Indexing, IngestCommand::AddDocument(doc))
                    },
                    None => self.finish(
                        Err(
                            CentaureissiError::InvalidEmailContentsError(
                                String::from_str("no message"),
                            ),
                        ),
                    ),
                }
            },
            (IngestStage::RecordingOwner, StoreReply::Failed(_)) => {
                self.finish(Err(CentaureissiError::RelationalDatabaseError()))
            },
            (IngestStage::Indexing, StoreReply::Written) => self.finish(Ok(())),
            (IngestStage::Indexing, StoreReply::Failed(detail)) => {
                self.finish(Err(CentaureissiError::search(detail.as_str())))
            },
            _ => self.finish(
                Err(CentaureissiError::InternalServerError(String::from_str("reply out of turn"))),
            ),
        }
    }
}

} // verus!
