//! Chat and message use cases (text only): list, page, new chat by phone,
//! send, reply, forward.
//!
//! Each flow is split at its database round-trips; `app/` runs the query a
//! step names and hands the rows to the next step.

use crate::clock::{datetime_parsed, now_micros, parse_timestamp, representable};
use crate::domain::chat::{jid_parse, Chat, Jid};
use crate::domain::events::Event;
use crate::domain::message::{direction_from_tag, Direction, Message};
use crate::error::{AppError, ErrorView};
use crate::ids::{is_v4, new_uuid, parse_uuid, uuid_parsed};
use crate::infrastructure::wa_client::WaCmd;
use crate::phone::{parse_phone, phone_parsed};
use crate::text::{opt_view, strip_leading, trim_start_matches, utf8_longer_than};
use vstd::prelude::*;
use vstd::utf8::encode_utf8;

verus! {

/// Max bytes accepted for a message body.
pub const MAX_BODY_BYTES: usize = 65_535;

/// Bounds of the page size of `messages`.
pub const MIN_PAGE: u32 = 1;

pub const MAX_PAGE: u32 = 200;

/// The validation outcome of a message body: non-empty and at most
/// 65 535 UTF-8 bytes.
pub open spec fn body_check(body: Seq<char>) -> Result<(), ErrorView> {
    if body.len() == 0 {
        Err(ErrorView::Validation("body empty"@))
    } else if encode_utf8(body).len() > MAX_BODY_BYTES {
        Err(ErrorView::Validation("body > 65535 bytes"@))
    } else {
        Ok(())
    }
}

/// Reject empty and oversized message bodies.
pub fn validate_body(body: &str) -> (r: Result<(), AppError>)
    ensures
        match body_check(body@) {
            Ok(()) => r is Ok,
            Err(ev) => r matches Err(e) && e@ == ev,
        },
{
    if body.unicode_len() == 0 {
        return Err(AppError::Validation(String::from_str("body empty")));
    }
    if utf8_longer_than(body, MAX_BODY_BYTES) {
        return Err(AppError::Validation(String::from_str("body > 65535 bytes")));
    }
    Ok(())
}

/// The page size actually queried: `limit` clamped to `1..=200`.
pub fn clamp_limit(limit: u32) -> (r: i64)
    ensures
        1 <= r <= 200,
        1 <= limit <= 200 ==> r == limit,
        r == (if limit < MIN_PAGE {
            MIN_PAGE
        } else if limit > MAX_PAGE {
            MAX_PAGE
        } else {
            limit
        }),
{
    if limit < MIN_PAGE {
        MIN_PAGE as i64
    } else if limit > MAX_PAGE {
        MAX_PAGE as i64
    } else {
        limit as i64
    }
}

/// Page size when the request names none.
pub const DEFAULT_PAGE: u32 = 50;

/// The page size for an optional requested limit: the default 50 when
/// absent, then clamped to `1..=200`.
pub fn page_limit(limit: Option<u32>) -> (r: i64)
    ensures
        limit is None ==> r == 50,
        limit == Some(0u32) ==> r == 1,
        limit is Some && 1 <= limit->0 <= 200 ==> r == limit->0,
        limit is Some && limit->0 > 200 ==> r == 200,
        r == (match limit {
            None => DEFAULT_PAGE as int,
            Some(l) => if l < MIN_PAGE {
                MIN_PAGE as int
            } else if l > MAX_PAGE {
                MAX_PAGE as int
            } else {
                l as int
            },
        }),
{
    match limit {
        None => clamp_limit(DEFAULT_PAGE),
        Some(l) => clamp_limit(l),
    }
}

// ---------- row conversion ----------

/// A `chats` row as stored.
#[derive(Debug)]
pub struct ChatRow {
    pub id: String,
    pub wa_jid: String,
    pub display_name: String,
    pub last_message_at: Option<String>,
    pub created_at: String,
}

/// A `messages` row as stored.
#[derive(Debug)]
pub struct MessageRow {
    pub id: String,
    pub chat_id: String,
    pub external_id: Option<String>,
    pub direction: String,
    pub body: String,
    pub reply_to_message_id: Option<String>,
    pub forwarded_from_message_id: Option<String>,
    pub ts: String,
}

/// The fields of a chat as values.
pub open spec fn chat_view(c: Chat) -> (u128, Seq<char>, Seq<char>, Option<i64>, i64) {
    (c.id, c.wa_jid@, c.display_name@, c.last_message_at, c.created_at)
}

/// The fields of a message as values.
pub open spec fn message_view(m: Message) -> (
    u128,
    u128,
    Option<Seq<char>>,
    Direction,
    Seq<char>,
    Option<u128>,
    Option<u128>,
    i64,
) {
    (
        m.id,
        m.chat_id,
        opt_view(m.external_id),
        m.direction,
        m.body@,
        m.reply_to_message_id,
        m.forwarded_from_message_id,
        m.ts,
    )
}

/// An optional stored UUID, parsed; a bad text is an internal error.
pub open spec fn opt_uuid_parse(o: Option<String>) -> Result<Option<u128>, ErrorView> {
    match o {
        None => Ok(None),
        Some(s) => match uuid_parsed(s@) {
            Ok(u) => Ok(Some(u)),
            Err(m) => Err(ErrorView::Internal(m)),
        },
    }
}

/// An optional stored instant, parsed; a bad text is an internal error.
pub open spec fn opt_time_parse(o: Option<String>) -> Result<Option<i64>, ErrorView> {
    match o {
        None => Ok(None),
        Some(s) => match datetime_parsed(s@) {
            Ok(t) => Ok(Some(t)),
            Err(m) => Err(ErrorView::Internal(m)),
        },
    }
}

/// The chat a stored row describes, or the error of its first bad field
/// (id, then last activity, then creation).
pub open spec fn chat_row_parse(row: ChatRow) -> Result<
    (u128, Seq<char>, Seq<char>, Option<i64>, i64),
    ErrorView,
> {
    match uuid_parsed(row.id@) {
        Err(m) => Err(ErrorView::Internal(m)),
        Ok(id) => match opt_time_parse(row.last_message_at) {
            Err(e) => Err(e),
            Ok(last) => match datetime_parsed(row.created_at@) {
                Err(m) => Err(ErrorView::Internal(m)),
                Ok(created) => Ok((id, row.wa_jid@, row.display_name@, last, created)),
            },
        },
    }
}

/// The message a stored row describes, or the error of its first bad
/// field in column order; a bad direction tag is a validation error.
pub open spec fn message_row_parse(row: MessageRow) -> Result<
    (u128, u128, Option<Seq<char>>, Direction, Seq<char>, Option<u128>, Option<u128>, i64),
    ErrorView,
> {
    match uuid_parsed(row.id@) {
        Err(m) => Err(ErrorView::Internal(m)),
        Ok(id) => match uuid_parsed(row.chat_id@) {
            Err(m) => Err(ErrorView::Internal(m)),
            Ok(chat_id) => match direction_from_tag(row.direction@) {
                Err(m) => Err(ErrorView::Validation(m)),
                Ok(dir) => match opt_uuid_parse(row.reply_to_message_id) {
                    Err(e) => Err(e),
                    Ok(rep) => match opt_uuid_parse(row.forwarded_from_message_id) {
                        Err(e) => Err(e),
                        Ok(fwd) => match datetime_parsed(row.ts@) {
                            Err(m) => Err(ErrorView::Internal(m)),
                            Ok(ts) => Ok(
                                (
                                    id,
                                    chat_id,
                                    opt_view(row.external_id),
                                    dir,
                                    row.body@,
                                    rep,
                                    fwd,
                                    ts,
                                ),
                            ),
                        },
                    },
                },
            },
        },
    }
}

fn parse_opt_uuid(o: &Option<String>) -> (r: Result<Option<u128>, AppError>)
    ensures
        match opt_uuid_parse(*o) {
            Ok(v) => r == Ok::<Option<u128>, AppError>(v),
            Err(ev) => r matches Err(e) && e@ == ev,
        },
{
    match o {
        None => Ok(None),
        Some(s) => match parse_uuid(s.as_str()) {
            Ok(u) => Ok(Some(u)),
            Err(m) => Err(AppError::Internal(m)),
        },
    }
}

fn parse_opt_time(o: &Option<String>) -> (r: Result<Option<i64>, AppError>)
    ensures
        match opt_time_parse(*o) {
            Ok(v) => r == Ok::<Option<i64>, AppError>(v),
            Err(ev) => r matches Err(e) && e@ == ev,
        },
{
    match o {
        None => Ok(None),
        Some(s) => match parse_timestamp(s.as_str()) {
            Ok(t) => Ok(Some(t)),
            Err(m) => Err(AppError::Internal(m)),
        },
    }
}

fn clone_opt(o: &Option<String>) -> (r: Option<String>)
    ensures
        opt_view(r) == opt_view(*o),
{
    match o {
        None => None,
        Some(s) => Some(s.clone()),
    }
}

/// Build a chat from its stored row.
pub fn chat_from_row(row: &ChatRow) -> (r: Result<Chat, AppError>)
    ensures
        match chat_row_parse(*row) {
            Ok(v) => r matches Ok(c) && chat_view(c) == v,
            Err(ev) => r matches Err(e) && e@ == ev,
        },
{
    let id = match parse_uuid(row.id.as_str()) {
        Ok(u) => u,
        Err(m) => return Err(AppError::Internal(m)),
    };
    let last_message_at = match parse_opt_time(&row.last_message_at) {
        Ok(t) => t,
        Err(e) => return Err(e),
    };
    let created_at = match parse_timestamp(row.created_at.as_str()) {
        Ok(t) => t,
        Err(m) => return Err(AppError::Internal(m)),
    };
    Ok(
        Chat {
            id,
            wa_jid: row.wa_jid.clone(),
            display_name: row.display_name.clone(),
            last_message_at,
            created_at,
        },
    )
}

/// Build a message from its stored row.
pub fn row_to_message(row: &MessageRow) -> (r: Result<Message, AppError>)
    ensures
        match message_row_parse(*row) {
            Ok(v) => r matches Ok(m) && message_view(m) == v,
            Err(ev) => r matches Err(e) && e@ == ev,
        },
{
    let id = match parse_uuid(row.id.as_str()) {
        Ok(u) => u,
        Err(m) => return Err(AppError::Internal(m)),
    };
    let chat_id = match parse_uuid(row.chat_id.as_str()) {
        Ok(u) => u,
        Err(m) => return Err(AppError::Internal(m)),
    };
    let direction = match Direction::from_db(row.direction.as_str()) {
        Ok(d) => d,
        Err(m) => return Err(AppError::Validation(m)),
    };
    let reply_to_message_id = match parse_opt_uuid(&row.reply_to_message_id) {
        Ok(u) => u,
        Err(e) => return Err(e),
    };
    let forwarded_from_message_id = match parse_opt_uuid(&row.forwarded_from_message_id) {
        Ok(u) => u,
        Err(e) => return Err(e),
    };
    let ts = match parse_timestamp(row.ts.as_str()) {
        Ok(t) => t,
        Err(m) => return Err(AppError::Internal(m)),
    };
    Ok(
        Message {
            id,
            chat_id,
            external_id: clone_opt(&row.external_id),
            direction,
            body: row.body.clone(),
            reply_to_message_id,
            forwarded_from_message_id,
            ts,
        },
    )
}

/// All chats of a row list, in row order, or the first row's error.
pub open spec fn chat_rows_parse(rows: Seq<ChatRow>) -> Result<
    Seq<(u128, Seq<char>, Seq<char>, Option<i64>, i64)>,
    ErrorView,
>
    decreases rows.len(),
{
    if rows.len() == 0 {
        Ok(Seq::empty())
    } else {
        match chat_rows_parse(rows.drop_last()) {
            Err(e) => Err(e),
            Ok(vs) => match chat_row_parse(rows.last()) {
                Err(e) => Err(e),
                Ok(v) => Ok(vs.push(v)),
            },
        }
    }
}

/// All messages of a row list, in row order, or the first row's error.
pub open spec fn message_rows_parse(rows: Seq<MessageRow>) -> Result<
    Seq<(u128, u128, Option<Seq<char>>, Direction, Seq<char>, Option<u128>, Option<u128>, i64)>,
    ErrorView,
>
    decreases rows.len(),
{
    if rows.len() == 0 {
        Ok(Seq::empty())
    } else {
        match message_rows_parse(rows.drop_last()) {
            Err(e) => Err(e),
            Ok(vs) => match message_row_parse(rows.last()) {
                Err(e) => Err(e),
                Ok(v) => Ok(vs.push(v)),
            },
        }
    }
}

/// `list`: the chats of the rows (most recent activity first, as queried).
pub fn chats_from_rows(rows: &Vec<ChatRow>) -> (r: Result<Vec<Chat>, AppError>)
    ensures
        match chat_rows_parse(rows@) {
            Ok(vs) => r matches Ok(cs) && cs@.map_values(|c: Chat| chat_view(c)) == vs,
            Err(ev) => r matches Err(e) && e@ == ev,
        },
        r matches Ok(cs) ==> cs@.len() == rows@.len() && forall|i: int|
            0 <= i < rows@.len() ==> chat_row_parse(#[trigger] rows@[i]) == Ok::<_, ErrorView>(
                chat_view(cs@[i]),
            ),
        (forall|i: int| 0 <= i < rows@.len() ==> chat_row_parse(#[trigger] rows@[i]) is Ok) ==> r is Ok,
{
    let mut out: Vec<Chat> = Vec::new();
    let mut i: usize = 0;
    assert(rows@.subrange(0, 0) =~= Seq::<ChatRow>::empty());
    while i < rows.len()
        invariant
            i <= rows@.len(),
            chat_rows_parse(rows@.subrange(0, i as int)) matches Ok(vs) && out@.map_values(
                |c: Chat| chat_view(c),
            ) == vs,
            out@.len() == i,
            forall|k: int| 0 <= k < i ==> chat_row_parse(#[trigger] rows@[k]) == Ok::<_, ErrorView>(
                chat_view(out@[k]),
            ),
        decreases rows@.len() - i,
    {
        let ghost prefix = rows@.subrange(0, i as int);
        let ghost next = rows@.subrange(0, i + 1);
        assert(next.drop_last() =~= prefix);
        match chat_from_row(&rows[i]) {
            Ok(c) => {
                let ghost before = out@;
                out.push(c);
                assert(out@.map_values(|c: Chat| chat_view(c)) =~= before.map_values(
                    |c: Chat| chat_view(c),
                ).push(chat_view(c)));
            },
            Err(e) => {
                proof {
                    lemma_chat_rows_error_sticks(rows@, i as int + 1);
                }
                return Err(e);
            },
        }
        i = i + 1;
    }
    assert(rows@.subrange(0, rows@.len() as int) =~= rows@);
    Ok(out)
}

/// An error in a prefix of the rows is the error of the whole list.
proof fn lemma_chat_rows_error_sticks(rows: Seq<ChatRow>, k: int)
    requires
        0 <= k <= rows.len(),
        chat_rows_parse(rows.subrange(0, k)) is Err,
    ensures
        chat_rows_parse(rows) == chat_rows_parse(rows.subrange(0, k)),
    decreases rows.len() - k,
{
    if k < rows.len() {
        assert(rows.subrange(0, k + 1).drop_last() =~= rows.subrange(0, k));
        lemma_chat_rows_error_sticks(rows, k + 1);
    } else {
        assert(rows.subrange(0, k) =~= rows);
    }
}

/// An error in a prefix of the rows is the error of the whole list.
proof fn lemma_message_rows_error_sticks(rows: Seq<MessageRow>, k: int)
    requires
        0 <= k <= rows.len(),
        message_rows_parse(rows.subrange(0, k)) is Err,
    ensures
        message_rows_parse(rows) == message_rows_parse(rows.subrange(0, k)),
    decreases rows.len() - k,
{
    if k < rows.len() {
        assert(rows.subrange(0, k + 1).drop_last() =~= rows.subrange(0, k));
        lemma_message_rows_error_sticks(rows, k + 1);
    } else {
        assert(rows.subrange(0, k) =~= rows);
    }
}

/// `messages`: the messages of the rows (newest first, as queried).
pub fn messages_from_rows(rows: &Vec<MessageRow>) -> (r: Result<Vec<Message>, AppError>)
    ensures
        match message_rows_parse(rows@) {
            Ok(vs) => r matches Ok(ms) && ms@.map_values(|m: Message| message_view(m)) == vs,
            Err(ev) => r matches Err(e) && e@ == ev,
        },
        r matches Ok(ms) ==> ms@.len() == rows@.len() && forall|i: int|
            0 <= i < rows@.len() ==> message_row_parse(#[trigger] rows@[i]) == Ok::<_, ErrorView>(
                message_view(ms@[i]),
            ),
        (forall|i: int| 0 <= i < rows@.len() ==> message_row_parse(#[trigger] rows@[i]) is Ok) ==> r is Ok,
{
    let mut out: Vec<Message> = Vec::new();
    let mut i: usize = 0;
    assert(rows@.subrange(0, 0) =~= Seq::<MessageRow>::empty());
    while i < rows.len()
        invariant
            i <= rows@.len(),
            message_rows_parse(rows@.subrange(0, i as int)) matches Ok(vs) && out@.map_values(
                |m: Message| message_view(m),
            ) == vs,
            out@.len() == i,
            forall|k: int| 0 <= k < i ==> message_row_parse(#[trigger] rows@[k]) == Ok::<_, ErrorView>(
                message_view(out@[k]),
            ),
        decreases rows@.len() - i,
    {
        let ghost prefix = rows@.subrange(0, i as int);
        let ghost next = rows@.subrange(0, i + 1);
        assert(next.drop_last() =~= prefix);
        match row_to_message(&rows[i]) {
            Ok(m) => {
                let ghost before = out@;
                out.push(m);
                assert(out@.map_values(|m: Message| message_view(m)) =~= before.map_values(
                    |m: Message| message_view(m),
                ).push(message_view(m)));
            },
            Err(e) => {
                proof {
                    lemma_message_rows_error_sticks(rows@, i as int + 1);
                }
                return Err(e);
            },
        }
        i = i + 1;
    }
    assert(rows@.subrange(0, rows@.len() as int) =~= rows@);
    Ok(out)
}

/// `find_chat`: the chat a lookup by id found, or `NotFound`.
pub fn find_chat(row: Option<ChatRow>) -> (r: Result<Chat, AppError>)
    ensures
        match row {
            None => r matches Err(e) && e@ == ErrorView::NotFound,
            Some(row) => match chat_row_parse(row) {
                Ok(v) => r matches Ok(c) && chat_view(c) == v,
                Err(ev) => r matches Err(e) && e@ == ev,
            },
        },
{
    match row {
        None => Err(AppError::NotFound),
        Some(row) => chat_from_row(&row),
    }
}

// ---------- new chat ----------

/// The chat identity for a typed phone number: its JID and display name.
#[derive(Debug)]
pub struct ChatTarget {
    pub jid: Jid,
    pub display: String,
}

/// JID user part and display name for a phone: `<E.164 digits>@s.whatsapp.net`
/// and `+<E.164 digits>`, or the validation message.
pub open spec fn phone_target(phone: Seq<char>) -> Result<(Seq<char>, Seq<char>), ErrorView> {
    match phone_parsed(phone) {
        Err(m) => Err(ErrorView::Validation("phone: "@ + m)),
        Ok((valid, e164)) => if !valid {
            Err(ErrorView::Validation("phone not valid"@))
        } else {
            let digits = strip_leading(e164, '+');
            match jid_parse(digits + "@s.whatsapp.net"@) {
                Err(m) => Err(ErrorView::Validation(m)),
                Ok(j) => Ok((j, "+"@ + digits)),
            }
        },
    }
}

/// Validate a typed phone number and derive the chat identity.
pub fn phone_chat_target(phone_e164: &str) -> (r: Result<ChatTarget, AppError>)
    ensures
        match phone_target(phone_e164@) {
            Ok((j, d)) => r matches Ok(t) && t.jid@ == j && t.display@ == d,
            Err(ev) => r matches Err(e) && e@ == ev,
        },
{
    let (valid, formatted) = match parse_phone(phone_e164) {
        Ok(p) => p,
        Err(m) => {
            let mut msg = String::from_str("phone: ");
            msg.append(m.as_str());
            return Err(AppError::Validation(msg));
        },
    };
    if !valid {
        return Err(AppError::Validation(String::from_str("phone not valid")));
    }
    let digits = trim_start_matches(formatted.as_str(), '+');
    let mut jid_text = String::from_str(digits);
    jid_text.append("@s.whatsapp.net");
    let jid = match Jid::parse(jid_text.as_str()) {
        Ok(j) => j,
        Err(m) => return Err(AppError::Validation(m)),
    };
    let mut display = String::from_str("+");
    display.append(digits);
    Ok(ChatTarget { jid, display })
}

/// The outcome of `new_chat`: the chat already stored for the JID, or a
/// new chat to insert and announce.
#[derive(Debug)]
pub enum NewChatOutcome {
    Existing(Chat),
    Created { chat: Chat, event: Event },
}

/// The outcome of upserting `target` given the stored row, at `now`.
pub open spec fn chat_resolved(
    target: ChatTarget,
    existing: Option<ChatRow>,
    now: i64,
    r: Result<NewChatOutcome, AppError>,
) -> bool {
    match existing {
        Some(row) => match chat_row_parse(row) {
            Ok(v) => r matches Ok(NewChatOutcome::Existing(c)) && chat_view(c) == v,
            Err(ev) => r matches Err(e) && e@ == ev,
        },
        None => r matches Ok(NewChatOutcome::Created { chat, event }) && is_v4(chat.id)
            && chat.wa_jid@ == target.jid@ && chat.display_name@ == target.display@
            && chat.last_message_at is None && chat.created_at == now && event == (
        Event::ChatUpserted { chat }),
    }
}

impl ChatTarget {
    /// Upsert by JID at the current instant.
    pub fn resolve(self, existing: Option<ChatRow>) -> (r: Result<NewChatOutcome, AppError>)
        ensures
            exists|t: i64|
                #![trigger chat_resolved(self, existing, t, r)]
                representable(t as int) && chat_resolved(self, existing, t, r),
    {
        let now = now_micros();
        self.resolve_at(existing, now)
    }

    /// Upsert by JID at `now`: given the row already stored for the JID
    /// (if any), the chat to return.
    pub fn resolve_at(self, existing: Option<ChatRow>, now: i64) -> (r: Result<NewChatOutcome, AppError>)
        ensures
            chat_resolved(self, existing, now, r),
    {
        match existing {
            Some(row) => match chat_from_row(&row) {
                Ok(c) => Ok(NewChatOutcome::Existing(c)),
                Err(e) => Err(e),
            },
            None => {
                let id = new_uuid();
                let chat = Chat {
                    id,
                    wa_jid: self.jid.into_inner(),
                    display_name: self.display,
                    last_message_at: None,
                    created_at: now,
                };
                let event = Event::ChatUpserted { chat: copy_chat(&chat) };
                Ok(NewChatOutcome::Created { chat, event })
            },
        }
    }
}

/// An equal copy of a chat.
pub fn copy_chat(c: &Chat) -> (r: Chat)
    ensures
        r == *c,
{
    Chat {
        id: c.id,
        wa_jid: c.wa_jid.clone(),
        display_name: c.display_name.clone(),
        last_message_at: c.last_message_at,
        created_at: c.created_at,
    }
}

// ---------- send, reply, forward ----------

/// An outbound text to persist into `chat_id`, optionally replying to or
/// forwarding another message.
#[derive(Debug)]
pub struct Outbound {
    pub chat_id: u128,
    pub body: String,
    pub reply_to_message_id: Option<u128>,
    pub forwarded_from_message_id: Option<u128>,
}

/// Start of `send`: the body is validated; next, look up the chat.
pub fn begin_send(chat_id: u128, body: &str) -> (r: Result<Outbound, AppError>)
    ensures
        match body_check(body@) {
            Ok(()) => r matches Ok(o) && o.chat_id == chat_id && o.body@ == body@
                && o.reply_to_message_id is None && o.forwarded_from_message_id is None,
            Err(ev) => r matches Err(e) && e@ == ev,
        },
{
    match validate_body(body) {
        Ok(()) => Ok(
            Outbound {
                chat_id,
                body: String::from_str(body),
                reply_to_message_id: None,
                forwarded_from_message_id: None,
            },
        ),
        Err(e) => Err(e),
    }
}

/// Start of `reply`: the body is validated; next, look up the chat.
pub fn begin_reply(chat_id: u128, reply_to_message_id: u128, body: &str) -> (r: Result<
    Outbound,
    AppError,
>)
    ensures
        match body_check(body@) {
            Ok(()) => r matches Ok(o) && o.chat_id == chat_id && o.body@ == body@
                && o.reply_to_message_id == Some(reply_to_message_id)
                && o.forwarded_from_message_id is None,
            Err(ev) => r matches Err(e) && e@ == ev,
        },
{
    match validate_body(body) {
        Ok(()) => Ok(
            Outbound {
                chat_id,
                body: String::from_str(body),
                reply_to_message_id: Some(reply_to_message_id),
                forwarded_from_message_id: None,
            },
        ),
        Err(e) => Err(e),
    }
}

/// `forward`: given the body of the source message (looked up by id and
/// source chat), the copy to persist into `dst_chat_id`, or `NotFound`.
pub fn forward_from(src_body: Option<String>, src_mid: u128, dst_chat_id: u128) -> (r: Result<
    Outbound,
    AppError,
>)
    ensures
        match src_body {
            None => r matches Err(e) && e@ == ErrorView::NotFound,
            Some(b) => r matches Ok(o) && o.chat_id == dst_chat_id && o.body@ == b@
                && o.reply_to_message_id is None && o.forwarded_from_message_id == Some(src_mid),
        },
{
    match src_body {
        None => Err(AppError::NotFound),
        Some(body) => Ok(
            Outbound {
                chat_id: dst_chat_id,
                body,
                reply_to_message_id: None,
                forwarded_from_message_id: Some(src_mid),
            },
        ),
    }
}

/// The WA command that dispatches a plain send of `body` to `chat`.
pub fn send_text_command(chat: &Chat, body: &str) -> (c: WaCmd)
    ensures
        c matches WaCmd::SendText { jid, body: b, reply_to_external_id } && jid@ == chat.wa_jid@
            && b@ == body@ && reply_to_external_id is None,
{
    WaCmd::SendText {
        jid: chat.wa_jid.clone(),
        body: String::from_str(body),
        reply_to_external_id: None,
    }
}

/// A persisted outbound message and the event announcing it.
#[derive(Debug)]
pub struct OutboundRecord {
    pub message: Message,
    pub event: Event,
}

/// An equal copy of a message.
pub fn copy_message(m: &Message) -> (r: Message)
    ensures
        r == *m,
{
    Message {
        id: m.id,
        chat_id: m.chat_id,
        external_id: match &m.external_id {
            Some(s) => Some(s.clone()),
            None => None,
        },
        direction: m.direction,
        body: m.body.clone(),
        reply_to_message_id: m.reply_to_message_id,
        forwarded_from_message_id: m.forwarded_from_message_id,
        ts: m.ts,
    }
}

/// What the outgoing message persisted for `o` at `now` is.
pub open spec fn recorded(o: Outbound, now: i64, r: OutboundRecord) -> bool {
    &&& is_v4(r.message.id)
    &&& r.message.chat_id == o.chat_id
    &&& r.message.external_id is None
    &&& r.message.direction == Direction::Out
    &&& r.message.body@ == o.body@
    &&& r.message.reply_to_message_id == o.reply_to_message_id
    &&& r.message.forwarded_from_message_id == o.forwarded_from_message_id
    &&& r.message.ts == now
    &&& r.event == (Event::NewMessage { chat_id: o.chat_id, message: r.message })
}

impl Outbound {
    /// `insert_outbound` at the current instant.
    pub fn into_record(self) -> (r: OutboundRecord)
        ensures
            exists|t: i64| #![trigger recorded(self, t, r)] representable(t as int) && recorded(self, t, r),
    {
        let now = now_micros();
        self.into_record_at(now)
    }

    /// `insert_outbound`: the outgoing message stamped at `now` with a fresh
    /// id, and the `NewMessage` event to publish once it is stored (with
    /// the chat's `last_message_at` set to `now`).
    pub fn into_record_at(self, now: i64) -> (r: OutboundRecord)
        ensures
            recorded(self, now, r),
            r.message.chat_id == self.chat_id,
            r.message.body@ == self.body@,
            r.message.reply_to_message_id == self.reply_to_message_id,
            r.message.forwarded_from_message_id == self.forwarded_from_message_id,
            r.message.direction == Direction::Out,
            r.message.ts == now,
    {
        let id = new_uuid();
        let message = Message {
            id,
            chat_id: self.chat_id,
            external_id: None,
            direction: Direction::Out,
            body: self.body,
            reply_to_message_id: self.reply_to_message_id,
            forwarded_from_message_id: self.forwarded_from_message_id,
            ts: now,
        };
        let event = Event::NewMessage { chat_id: self.chat_id, message: copy_message(&message) };
        OutboundRecord { message, event }
    }
}

/// A body is accepted exactly when it is non-empty and at most 65 535
/// UTF-8 bytes long.
pub proof fn body_accepted_iff_within_bounds(body: Seq<char>)
    ensures
        body_check(body) is Ok <==> (body.len() > 0 && encode_utf8(body).len() <= 65_535),
        body.len() == 0 ==> body_check(body) == Err::<(), ErrorView>(
            ErrorView::Validation("body empty"@),
        ),
        body.len() > 0 && encode_utf8(body).len() > 65_535 ==> body_check(body) == Err::<
            (),
            ErrorView,
        >(ErrorView::Validation("body > 65535 bytes"@)),
{
}

/// The message recorded for an outbound keeps its links as given: a reply
/// to `m` is stored and announced with `reply_to_message_id == Some(m)` and
/// no forward link, a forward of `m` with `forwarded_from_message_id ==
/// Some(m)` and no reply link, and a plain send with neither; the body,
/// chat and instant are the outbound's, and the announced event carries
/// the same message.
pub proof fn recorded_message_keeps_links(o: Outbound, now: i64, r: OutboundRecord, m: u128)
    requires
        recorded(o, now, r),
    ensures
        r.message.reply_to_message_id == o.reply_to_message_id,
        r.message.forwarded_from_message_id == o.forwarded_from_message_id,
        r.message.chat_id == o.chat_id,
        r.message.body@ == o.body@,
        r.message.ts == now,
        r.message.direction == Direction::Out,
        o.reply_to_message_id == Some(m) && o.forwarded_from_message_id is None ==> (
        r.message.reply_to_message_id == Some(m) && r.message.forwarded_from_message_id is None),
        o.forwarded_from_message_id == Some(m) && o.reply_to_message_id is None ==> (
        r.message.forwarded_from_message_id == Some(m) && r.message.reply_to_message_id is None),
        r.event matches Event::NewMessage { chat_id, message } && chat_id == o.chat_id
            && message.reply_to_message_id == o.reply_to_message_id
            && message.forwarded_from_message_id == o.forwarded_from_message_id,
{
}

/// Decoding a chat list is row by row: when every row decodes, the
/// list has exactly one chat per row, in row order (so nothing is dropped,
/// added or reordered); when the list decodes, every row does.
pub proof fn chat_rows_decode_one_per_row(rows: Seq<ChatRow>)
    ensures
        (forall|i: int| 0 <= i < rows.len() ==> chat_row_parse(#[trigger] rows[i]) is Ok) ==> (
        chat_rows_parse(rows) matches Ok(vs) && vs.len() == rows.len() && forall|i: int|
            0 <= i < rows.len() ==> chat_row_parse(#[trigger] rows[i]) == Ok::<_, ErrorView>(vs[i])),
        chat_rows_parse(rows) is Ok ==> forall|i: int|
            0 <= i < rows.len() ==> (chat_row_parse(#[trigger] rows[i]) is Ok),
    decreases rows.len(),
{
    if rows.len() > 0 {
        let init = rows.drop_last();
        chat_rows_decode_one_per_row(init);
        assert forall|i: int| 0 <= i < init.len() implies init[i] == rows[i] by {}
        if chat_rows_parse(rows) is Ok {
            assert forall|i: int| 0 <= i < rows.len() implies (chat_row_parse(#[trigger] rows[i]) is Ok) by {
                if i < init.len() {
                    assert(init[i] == rows[i]);
                }
            }
        }
        if forall|i: int| 0 <= i < rows.len() ==> chat_row_parse(#[trigger] rows[i]) is Ok {
            assert forall|i: int| 0 <= i < init.len() implies chat_row_parse(#[trigger] init[i]) is Ok by {
                assert(init[i] == rows[i]);
            }
            assert(chat_row_parse(rows[rows.len() - 1]) is Ok);
            let vs = chat_rows_parse(rows)->Ok_0;
            assert forall|i: int| 0 <= i < rows.len() implies chat_row_parse(#[trigger] rows[i]) == Ok::<_, ErrorView>(vs[i]) by {
                if i < init.len() {
                    assert(init[i] == rows[i]);
                }
            }
        }
    }
}

/// Decoding a message list is row by row: when every row decodes, the
/// list has exactly one message per row, in row order (so nothing is dropped,
/// added or reordered); when the list decodes, every row does.
pub proof fn message_rows_decode_one_per_row(rows: Seq<MessageRow>)
    ensures
        (forall|i: int| 0 <= i < rows.len() ==> message_row_parse(#[trigger] rows[i]) is Ok) ==> (
        message_rows_parse(rows) matches Ok(vs) && vs.len() == rows.len() && forall|i: int|
            0 <= i < rows.len() ==> message_row_parse(#[trigger] rows[i]) == Ok::<_, ErrorView>(vs[i])),
        message_rows_parse(rows) is Ok ==> forall|i: int|
            0 <= i < rows.len() ==> (message_row_parse(#[trigger] rows[i]) is Ok),
    decreases rows.len(),
{
    if rows.len() > 0 {
        let init = rows.drop_last();
        message_rows_decode_one_per_row(init);
        assert forall|i: int| 0 <= i < init.len() implies init[i] == rows[i] by {}
        if message_rows_parse(rows) is Ok {
            assert forall|i: int| 0 <= i < rows.len() implies (message_row_parse(#[trigger] rows[i]) is Ok) by {
                if i < init.len() {
                    assert(init[i] == rows[i]);
                }
            }
        }
        if forall|i: int| 0 <= i < rows.len() ==> message_row_parse(#[trigger] rows[i]) is Ok {
            assert forall|i: int| 0 <= i < init.len() implies message_row_parse(#[trigger] init[i]) is Ok by {
                assert(init[i] == rows[i]);
            }
            assert(message_row_parse(rows[rows.len() - 1]) is Ok);
            let vs = message_rows_parse(rows)->Ok_0;
            assert forall|i: int| 0 <= i < rows.len() implies message_row_parse(#[trigger] rows[i]) == Ok::<_, ErrorView>(vs[i]) by {
                if i < init.len() {
                    assert(init[i] == rows[i]);
                }
            }
        }
    }
}

} // verus!
