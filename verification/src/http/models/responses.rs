//! Bodies that the HTTP surface returns.

use vstd::prelude::*;

verus! {

#[derive(Debug, Clone, PartialEq, Eq)]
pub struct LoginResponse {
    pub token: String,
}

#[derive(Debug, Clone, PartialEq, Eq)]
pub struct UserProfileResponse {
    pub username: String,
}

/// One page of ranked search results.
#[derive(Debug, Clone, PartialEq, Eq)]
pub struct SearchResponse {
    pub items: Vec<SearchResponseItem>,
    pub page: usize,
    pub total_pages: usize,
    pub total_items: usize,
}

/// One search hit, as stored in the index, with its date rendered.
#[derive(Debug, Clone, PartialEq, Eq)]
pub struct SearchResponseItem {
    pub hash: String,
    pub user_id: i64,
    pub from: String,
    pub to: String,
    pub cc: String,
    pub bcc: String,
    pub subject: String,
    pub date: String,
}

/// Operational figures of the three stores.
#[derive(Debug, Clone, PartialEq, Eq)]
pub struct StatsResponse {
    pub version: String,
    pub db_size: u64,
    pub message_count: u64,
    pub blob_db_size: u64,
    pub blob_count: u64,
    pub search_doc_count: u64,
}

/// Structured view of one stored message.
#[derive(Debug, Clone, PartialEq, Eq)]
pub struct MessageResponse {
    pub hash: String,
    pub date: String,
    pub from: String,
    pub to: String,
    pub cc: String,
    pub bcc: String,
    pub is_html_mail: bool,
    pub is_text_mail: bool,
    pub has_attachments: bool,
    pub subject: String,
}

#[derive(Debug, Clone, PartialEq, Eq)]
pub struct MessageContentResponse {
    pub content: String,
}

#[derive(Debug, Clone, PartialEq, Eq)]
pub struct MessageAttachmentResponse {
    pub items: Vec<MessageAttachmentResponseItem>,
    pub total_items: usize,
}

#[derive(Debug, Clone, PartialEq, Eq)]
pub struct MessageAttachmentResponseItem {
    pub id: usize,
    pub name: String,
}

} // verus!
