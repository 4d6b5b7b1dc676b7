//! Rows as they are read.

use vstd::prelude::*;

verus! {

/// A registered user.
#[derive(Debug, Clone, PartialEq, Eq)]
pub struct User {
    pub id: i32,
    pub username: String,
    pub password: String,
}

/// A token issued to a user.
#[derive(Debug, Clone, PartialEq, Eq)]
pub struct UserTokens {
    pub id: i32,
    pub user_id: i32,
    pub token: String,
    /// Seconds since the Unix epoch at which the token was revoked.
    pub revoked_at: Option<i64>,
}

/// A metadata record: this user has this content in their archive.
#[derive(Debug, Clone, PartialEq, Eq)]
pub struct Messages {
    /// The id that the store gave the record when it was inserted.
    pub id: i32,
    pub user_id: i32,
    pub content_hash: String,
}

pub struct MessagesView {
    pub id: i32,
    pub user_id: i32,
    pub content_hash: Seq<char>,
}

impl DeepView for Messages {
    type V = MessagesView;

    open spec fn deep_view(&self) -> MessagesView {
        MessagesView { id: self.id, user_id: self.user_id, content_hash: self.content_hash@ }
    }
}

impl View for Messages {
    type V = MessagesView;

    open spec fn view(&self) -> MessagesView {
        self.deep_view()
    }
}

} // verus!
