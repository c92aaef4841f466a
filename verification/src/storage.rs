//! The text columns each record is stored under in SQLite (UUIDs
//! hyphenated, instants as RFC 3339), and the laws that reading a stored
//! row gives back the record that was written.

use crate::application::auth_service::{user_row_parse, user_view, SessionRow, UserRow, CodeRow, code_check};
use crate::application::chat_service::{
    chat_resolved, chat_row_parse, chat_view, message_row_parse, message_view, ChatRow, ChatTarget,
    MessageRow, NewChatOutcome,
};
use crate::domain::events::Event;
use crate::error::AppError;
use crate::clock::{datetime_parsed, format_timestamp, rfc3339_text, representable};
use crate::domain::auth::{AuthCode, AuthSession};
use crate::domain::chat::Chat;
use crate::domain::message::{direction_from_tag, direction_tag, Direction, Message};
use crate::domain::user::User;
use crate::ids::{hyphenated, uuid_hyphenated, uuid_parsed};
use crate::text::opt_view;
use vstd::prelude::*;

verus! {

/// Whether `text` is the stored form of instant `t`, reading back as `t`.
pub open spec fn stores_instant(text: Seq<char>, t: i64) -> bool {
    &&& text == rfc3339_text(t)
    &&& datetime_parsed(text) == Ok::<i64, Seq<char>>(t)
}

/// Whether `text` is the stored form of UUID `u`, reading back as `u`.
pub open spec fn stores_uuid(text: Seq<char>, u: u128) -> bool {
    &&& text == hyphenated(u)
    &&& uuid_parsed(text) == Ok::<u128, Seq<char>>(u)
}

/// Whether `text` is the stored form of an optional UUID.
pub open spec fn stores_opt_uuid(text: Option<Seq<char>>, u: Option<u128>) -> bool {
    match (text, u) {
        (None, None) => true,
        (Some(t), Some(v)) => stores_uuid(t, v),
        _ => false,
    }
}

/// The stored text of an instant.
pub fn instant_text(t: i64) -> (r: String)
    requires
        representable(t as int),
    ensures
        stores_instant(r@, t),
{
    format_timestamp(t)
}

/// The stored text of a UUID.
pub fn uuid_text(u: u128) -> (r: String)
    ensures
        stores_uuid(r@, u),
{
    uuid_hyphenated(u)
}

fn opt_uuid_text(u: Option<u128>) -> (r: Option<String>)
    ensures
        stores_opt_uuid(opt_view(r), u),
{
    match u {
        None => None,
        Some(v) => Some(uuid_text(v)),
    }
}

/// The columns of an `auth_codes` insert (`consumed` is stored as 0).
#[derive(Debug)]
pub struct CodeInsert {
    pub id: String,
    pub email: String,
    pub code_hash: String,
    pub expires_at: String,
    pub created_at: String,
}

/// The columns of a `users` insert.
#[derive(Debug)]
pub struct UserInsert {
    pub id: String,
    pub email: String,
    pub created_at: String,
}

/// The columns of an `auth_sessions` insert.
#[derive(Debug)]
pub struct SessionInsert {
    pub token: String,
    pub user_id: String,
    pub created_at: String,
    pub expires_at: String,
}

/// The columns of a `chats` insert (`last_message_at` is stored NULL).
#[derive(Debug)]
pub struct ChatInsert {
    pub id: String,
    pub wa_jid: String,
    pub display_name: String,
    pub created_at: String,
}

/// The columns of a `messages` insert for an outgoing message
/// (`external_id` NULL, `direction` `out`).
#[derive(Debug)]
pub struct MessageInsert {
    pub id: String,
    pub chat_id: String,
    pub direction: &'static str,
    pub body: String,
    pub reply_to_message_id: Option<String>,
    pub forwarded_from_message_id: Option<String>,
    pub ts: String,
}

/// The stored columns of a code record.
pub fn code_insert(c: &AuthCode) -> (r: CodeInsert)
    requires
        representable(c.expires_at as int),
        representable(c.created_at as int),
    ensures
        stores_uuid(r.id@, c.id),
        r.email@ == c.email@,
        r.code_hash@ == c.code_hash@,
        stores_instant(r.expires_at@, c.expires_at),
        stores_instant(r.created_at@, c.created_at),
{
    CodeInsert {
        id: uuid_text(c.id),
        email: c.email.clone(),
        code_hash: c.code_hash.clone(),
        expires_at: instant_text(c.expires_at),
        created_at: instant_text(c.created_at),
    }
}

/// The stored columns of a user.
pub fn user_insert(u: &User) -> (r: UserInsert)
    requires
        representable(u.created_at as int),
    ensures
        stores_uuid(r.id@, u.id),
        r.email@ == u.email@,
        stores_instant(r.created_at@, u.created_at),
{
    UserInsert {
        id: uuid_text(u.id),
        email: u.email.clone(),
        created_at: instant_text(u.created_at),
    }
}

/// The stored columns of a session.
pub fn session_insert(s: &AuthSession) -> (r: SessionInsert)
    requires
        representable(s.created_at as int),
        representable(s.expires_at as int),
    ensures
        r.token@ == s.token@,
        stores_uuid(r.user_id@, s.user_id),
        stores_instant(r.created_at@, s.created_at),
        stores_instant(r.expires_at@, s.expires_at),
{
    SessionInsert {
        token: s.token.clone(),
        user_id: uuid_text(s.user_id),
        created_at: instant_text(s.created_at),
        expires_at: instant_text(s.expires_at),
    }
}

/// The stored columns of a new chat.
pub fn chat_insert(c: &Chat) -> (r: ChatInsert)
    requires
        representable(c.created_at as int),
    ensures
        stores_uuid(r.id@, c.id),
        r.wa_jid@ == c.wa_jid@,
        r.display_name@ == c.display_name@,
        stores_instant(r.created_at@, c.created_at),
{
    ChatInsert {
        id: uuid_text(c.id),
        wa_jid: c.wa_jid.clone(),
        display_name: c.display_name.clone(),
        created_at: instant_text(c.created_at),
    }
}

/// The stored columns of an outgoing message.
pub fn message_insert(m: &Message) -> (r: MessageInsert)
    requires
        representable(m.ts as int),
    ensures
        stores_uuid(r.id@, m.id),
        stores_uuid(r.chat_id@, m.chat_id),
        r.direction@ == direction_tag(m.direction),
        r.body@ == m.body@,
        stores_opt_uuid(opt_view(r.reply_to_message_id), m.reply_to_message_id),
        stores_opt_uuid(opt_view(r.forwarded_from_message_id), m.forwarded_from_message_id),
        stores_instant(r.ts@, m.ts),
{
    MessageInsert {
        id: uuid_text(m.id),
        chat_id: uuid_text(m.chat_id),
        direction: m.direction.as_str(),
        body: m.body.clone(),
        reply_to_message_id: opt_uuid_text(m.reply_to_message_id),
        forwarded_from_message_id: opt_uuid_text(m.forwarded_from_message_id),
        ts: instant_text(m.ts),
    }
}

/// A stored user reads back as the user that was written.
pub proof fn stored_user_reads_back(u: User, row: UserRow)
    requires
        stores_uuid(row.id@, u.id),
        row.email@ == u.email@,
        stores_instant(row.created_at@, u.created_at),
    ensures
        user_row_parse(row) == Ok::<(u128, Seq<char>, i64), crate::error::ErrorView>(user_view(u)),
{
}

/// A stored chat reads back as the chat that was written, its last
/// activity as stored.
pub proof fn stored_chat_reads_back(c: Chat, row: ChatRow)
    requires
        stores_uuid(row.id@, c.id),
        row.wa_jid@ == c.wa_jid@,
        row.display_name@ == c.display_name@,
        match (row.last_message_at, c.last_message_at) {
            (None, None) => true,
            (Some(text), Some(t)) => stores_instant(text@, t),
            _ => false,
        },
        stores_instant(row.created_at@, c.created_at),
    ensures
        chat_row_parse(row) == Ok::<
            (u128, Seq<char>, Seq<char>, Option<i64>, i64),
            crate::error::ErrorView,
        >(chat_view(c)),
{
}

/// A stored message reads back as the message that was written.
pub proof fn stored_message_reads_back(m: Message, row: MessageRow)
    requires
        stores_uuid(row.id@, m.id),
        stores_uuid(row.chat_id@, m.chat_id),
        opt_view(row.external_id) == opt_view(m.external_id),
        row.direction@ == direction_tag(m.direction),
        row.body@ == m.body@,
        stores_opt_uuid(opt_view(row.reply_to_message_id), m.reply_to_message_id),
        stores_opt_uuid(opt_view(row.forwarded_from_message_id), m.forwarded_from_message_id),
        stores_instant(row.ts@, m.ts),
    ensures
        message_row_parse(row) == Ok::<
            (u128, u128, Option<Seq<char>>, Direction, Seq<char>, Option<u128>, Option<u128>, i64),
            crate::error::ErrorView,
        >(message_view(m)),
{
    crate::domain::message::direction_tag_roundtrip(m.direction, row.direction@);
}

/// A number gets one chat: when no chat is stored for its JID the upsert
/// creates one; once that chat is stored, a later upsert of the same JID
/// finds it and returns it as existing (same id, JID, name and creation
/// instant), so nothing is inserted and nothing is announced.
pub proof fn chat_created_once(
    first: ChatTarget,
    now1: i64,
    r1: Result<NewChatOutcome, AppError>,
    chat: Chat,
    event: Event,
    row: ChatRow,
    second: ChatTarget,
    now2: i64,
    r2: Result<NewChatOutcome, AppError>,
)
    requires
        chat_resolved(first, None, now1, r1),
        r1 == Ok::<NewChatOutcome, AppError>(NewChatOutcome::Created { chat, event }),
        stores_uuid(row.id@, chat.id),
        row.wa_jid@ == chat.wa_jid@,
        row.display_name@ == chat.display_name@,
        row.last_message_at is None,
        stores_instant(row.created_at@, chat.created_at),
        second.jid@ == first.jid@,
        chat_resolved(second, Some(row), now2, r2),
    ensures
        r2 matches Ok(NewChatOutcome::Existing(c)) && c.id == chat.id && c.wa_jid@ == first.jid@
            && c.display_name@ == chat.display_name@ && c.last_message_at is None
            && c.created_at == chat.created_at,
{
    stored_chat_reads_back(chat, row);
}

} // verus!
