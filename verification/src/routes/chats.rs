//! Bodies and query of the `/api/chats/*` endpoints. Ids are 128-bit
//! integers; instants are microseconds since the Unix epoch.

use vstd::prelude::*;

verus! {

/// `POST /api/chats` body: the phone number to open a chat with.
#[derive(Debug, Clone)]
pub struct NewChatReq {
    pub phone: String,
}

/// `POST /api/chats/{id}/messages` body.
#[derive(Debug, Clone)]
pub struct SendReq {
    pub body: String,
}

/// `POST /api/chats/{id}/messages/{mid}/reply` body.
#[derive(Debug, Clone)]
pub struct ReplyReq {
    pub body: String,
}

/// `POST /api/chats/{id}/messages/{mid}/forward` body.
#[derive(Debug, Clone, Copy)]
pub struct ForwardReq {
    pub dst_chat_id: u128,
}

/// `GET /api/chats/{id}/messages` query: a page bound and a size.
#[derive(Debug, Clone, Copy)]
pub struct MessagesQuery {
    pub before: Option<i64>,
    pub limit: Option<u32>,
}

} // verus!
