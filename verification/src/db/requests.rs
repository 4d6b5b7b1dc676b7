//! Rows as they are written.

use vstd::prelude::*;

verus! {

#[derive(Debug, Clone, PartialEq, Eq)]
pub struct NewUser {
    pub username: String,
    pub password: String,
}

/// A metadata record to insert.
#[derive(Debug, Clone, PartialEq, Eq)]
pub struct NewMessage {
    pub user_id: i32,
    pub content_hash: String,
}

pub struct NewMessageView {
    pub user_id: i32,
    pub content_hash: Seq<char>,
}

impl DeepView for NewMessage {
    type V = NewMessageView;

    open spec fn deep_view(&self) -> NewMessageView {
        NewMessageView { user_id: self.user_id, content_hash: self.content_hash@ }
    }
}

impl View for NewMessage {
    type V = NewMessageView;

    open spec fn view(&self) -> NewMessageView {
        self.deep_view()
    }
}

#[derive(Debug, Clone, PartialEq, Eq)]
pub struct UpdateUser {
    pub username: String,
}

#[derive(Debug, Clone, PartialEq, Eq)]
pub struct UpdateUserPassword {
    pub password: String,
}

} // verus!
