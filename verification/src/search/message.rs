//! The search document of one message.

use crate::email::{ParsedEmail, ParsedEmailView};
use crate::utils::message::{create_message_model_from_message, message_model};
use vstd::prelude::*;

verus! {

/// The denormalized projection of one message that the search index holds:
/// one value for every field of the schema.
#[derive(Debug, Clone, PartialEq, Eq)]
pub struct SearchDocument {
    /// The id of the metadata record that the document belongs to.
    pub id: i64,
    pub hash: String,
    pub user_id: i64,
    pub from: String,
    pub to: String,
    pub cc: String,
    pub bcc: String,
    pub subject: String,
    /// Seconds since the Unix epoch; 0 where the message has no date.
    pub date: i64,
    pub content: String,
}

pub struct SearchDocumentView {
    pub id: i64,
    pub hash: Seq<char>,
    pub user_id: i64,
    pub from: Seq<char>,
    pub to: Seq<char>,
    pub cc: Seq<char>,
    pub bcc: Seq<char>,
    pub subject: Seq<char>,
    pub date: i64,
    pub content: Seq<char>,
}

impl DeepView for SearchDocument {
    type V = SearchDocumentView;

    open spec fn deep_view(&self) -> SearchDocumentView {
        SearchDocumentView {
            id: self.id,
            hash: self.hash@,
            user_id: self.user_id,
            from: self.from@,
            to: self.to@,
            cc: self.cc@,
            bcc: self.bcc@,
            subject: self.subject@,
            date: self.date,
            content: self.content@,
        }
    }
}

impl View for SearchDocument {
    type V = SearchDocumentView;

    open spec fn view(&self) -> SearchDocumentView {
        self.deep_view()
    }
}

/// The search document of a message: the id of its metadata record, its
/// content hash, its owner, and the canonical fields of the parsed message.
pub open spec fn search_document(
    record_id: i32,
    user_id: i32,
    content_hash: Seq<char>,
    email: ParsedEmailView,
) -> SearchDocumentView {
    let model = message_model(user_id, email);
    SearchDocumentView {
        id: record_id as i64,
        hash: content_hash,
        user_id: user_id as i64,
        from: model.from,
        to: model.to,
        cc: model.cc,
        bcc: model.bcc,
        subject: model.subject,
        date: model.timestamp_secs,
        content: model.content,
    }
}

/// Builds the search document of a parsed message whose metadata record
/// has the id `message_id`.
pub fn create_search_document_from_message(
    message_id: i32,
    message_user_id: i32,
    content_hash: String,
    msg: &ParsedEmail,
) -> (doc: SearchDocument)
    ensures
        doc@ == search_document(message_id, message_user_id, content_hash@, msg@),
{
    let message_model = create_message_model_from_message(message_user_id, msg);
    SearchDocument {
        id: message_id as i64,
        hash: content_hash,
        user_id: message_user_id as i64,
        from: message_model.from,
        to: message_model.to,
        cc: message_model.cc,
        bcc: message_model.bcc,
        subject: message_model.subject,
        date: message_model.timestamp_secs,
        content: message_model.content,
    }
}

} // verus!
