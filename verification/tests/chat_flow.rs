use whatsapp_web_shared_backend::application::chat_service::{
    begin_reply, begin_send, chat_from_row, chats_from_rows, clamp_limit, find_chat,
    forward_from, messages_from_rows, page_limit, phone_chat_target, row_to_message,
    send_text_command, validate_body, ChatRow, MessageRow, NewChatOutcome, MAX_BODY_BYTES,
};
use whatsapp_web_shared_backend::domain::events::Event;
use whatsapp_web_shared_backend::domain::message::Direction;
use whatsapp_web_shared_backend::error::AppError;
use whatsapp_web_shared_backend::infrastructure::wa_client::WaCmd;
use whatsapp_web_shared_backend::storage::{chat_insert, instant_text, message_insert, uuid_text};

const JAN_2024: i64 = 1_704_067_200_000_000;

#[test]
fn rejects_empty_body() {
    assert!(validate_body("").is_err());
}

#[test]
fn accepts_normal_body() {
    assert!(validate_body("hello").is_ok());
}

#[test]
fn rejects_oversized_body() {
    let s = "a".repeat(MAX_BODY_BYTES + 1);
    assert!(validate_body(&s).is_err());
}

#[test]
fn body_limit_counts_bytes() {
    assert!(validate_body(&"a".repeat(MAX_BODY_BYTES)).is_ok());
    match validate_body(&"é".repeat(32_768)) {
        Err(AppError::Validation(m)) => assert_eq!(m, "body > 65535 bytes"),
        _ => panic!("expected validation error"),
    }
    match validate_body("") {
        Err(AppError::Validation(m)) => assert_eq!(m, "body empty"),
        _ => panic!("expected validation error"),
    }
    assert!(validate_body("👋").is_ok());
}

#[test]
fn page_size_is_clamped() {
    assert_eq!(clamp_limit(0), 1);
    assert_eq!(clamp_limit(1), 1);
    assert_eq!(clamp_limit(77), 77);
    assert_eq!(clamp_limit(200), 200);
    assert_eq!(clamp_limit(5000), 200);
    assert_eq!(page_limit(None), 50);
    assert_eq!(page_limit(Some(0)), 1);
}

fn chat_row(id: u128, last: Option<i64>, created: i64) -> ChatRow {
    ChatRow {
        id: uuid_text(id),
        wa_jid: "1@s.whatsapp.net".into(),
        display_name: "+1".into(),
        last_message_at: last.map(instant_text),
        created_at: instant_text(created),
    }
}

#[test]
fn chat_rows_convert_in_order_or_fail_on_first_bad_row() {
    let rows = vec![chat_row(3, Some(JAN_2024 + 5), JAN_2024), chat_row(4, None, JAN_2024 - 1)];
    let chats = chats_from_rows(&rows).unwrap();
    assert_eq!(chats.len(), 2);
    assert_eq!((chats[0].id, chats[0].last_message_at, chats[0].created_at), (3, Some(JAN_2024 + 5), JAN_2024));
    assert_eq!((chats[1].id, chats[1].last_message_at), (4, None));
    let mut bad = chat_row(5, None, JAN_2024);
    bad.created_at = "not a time".into();
    let rows = vec![chat_row(3, None, JAN_2024), bad, ChatRow { id: "nope".into(), ..chat_row(6, None, JAN_2024) }];
    match chats_from_rows(&rows) {
        Err(AppError::Internal(m)) => assert!(!m.is_empty()),
        _ => panic!("expected the created_at error"),
    }
    assert!(chats_from_rows(&vec![]).unwrap().is_empty());
    assert!(matches!(find_chat(None), Err(AppError::NotFound)));
    assert_eq!(find_chat(Some(chat_row(9, None, JAN_2024))).unwrap().id, 9);
}

fn message_row(dir: &str) -> MessageRow {
    MessageRow {
        id: uuid_text(10),
        chat_id: uuid_text(11),
        external_id: Some("ext".into()),
        direction: dir.into(),
        body: "hi".into(),
        reply_to_message_id: Some(uuid_text(12)),
        forwarded_from_message_id: None,
        ts: instant_text(JAN_2024),
    }
}

#[test]
fn message_rows_convert() {
    let m = row_to_message(&message_row("in")).unwrap();
    assert_eq!((m.id, m.chat_id, m.direction, m.ts), (10, 11, Direction::In, JAN_2024));
    assert_eq!(m.external_id.as_deref(), Some("ext"));
    assert_eq!(m.reply_to_message_id, Some(12));
    assert_eq!(m.forwarded_from_message_id, None);
    match row_to_message(&message_row("sideways")) {
        Err(AppError::Validation(msg)) => assert_eq!(msg, "invalid direction tag \"sideways\""),
        _ => panic!("expected a validation error"),
    }
    let all = messages_from_rows(&vec![message_row("out"), message_row("in")]).unwrap();
    assert_eq!(all.len(), 2);
    assert_eq!(all[0].direction, Direction::Out);
}

#[test]
fn phone_numbers_become_chat_targets() {
    let t = phone_chat_target("+1 201-555-0123").unwrap();
    assert_eq!(t.jid.as_str(), "12015550123@s.whatsapp.net");
    assert_eq!(t.display, "+12015550123");
    match phone_chat_target("not a phone") {
        Err(AppError::Validation(m)) => assert!(m.starts_with("phone: ") || m == "phone not valid"),
        _ => panic!("expected a validation error"),
    }
    match phone_chat_target("+1 000") {
        Err(AppError::Validation(_)) => {}
        _ => panic!("expected a validation error"),
    }
}

#[test]
fn new_chat_upserts_by_jid() {
    let t = phone_chat_target("+12015550123").unwrap();
    match t.resolve_at(None, JAN_2024).unwrap() {
        NewChatOutcome::Created { chat, event } => {
            assert_eq!(chat.wa_jid, "12015550123@s.whatsapp.net");
            assert_eq!(chat.display_name, "+12015550123");
            assert_eq!(chat.created_at, JAN_2024);
            assert!(chat.last_message_at.is_none());
            match event {
                Event::ChatUpserted { chat: c } => assert_eq!(c.id, chat.id),
                _ => panic!("expected ChatUpserted"),
            }
            let stored = chat_insert(&chat);
            let back = chat_from_row(&ChatRow {
                id: stored.id,
                wa_jid: stored.wa_jid,
                display_name: stored.display_name,
                last_message_at: None,
                created_at: stored.created_at,
            })
            .unwrap();
            assert_eq!((back.id, back.created_at), (chat.id, chat.created_at));
        }
        NewChatOutcome::Existing(_) => panic!("expected a new chat"),
    }
    let t = phone_chat_target("+12015550123").unwrap();
    match t.resolve_at(Some(chat_row(77, None, JAN_2024)), JAN_2024).unwrap() {
        NewChatOutcome::Existing(c) => assert_eq!(c.id, 77),
        NewChatOutcome::Created { .. } => panic!("expected the stored chat"),
    }
}

#[test]
fn send_reply_forward_build_outbound_messages() {
    assert!(matches!(begin_send(1, ""), Err(AppError::Validation(_))));
    let o = begin_send(1, "hello").unwrap();
    assert_eq!((o.chat_id, o.reply_to_message_id, o.forwarded_from_message_id), (1, None, None));
    let rec = o.into_record_at(JAN_2024);
    assert_eq!(rec.message.direction, Direction::Out);
    assert_eq!(rec.message.body, "hello");
    assert_eq!(rec.message.ts, JAN_2024);
    assert!(rec.message.external_id.is_none());
    match rec.event {
        Event::NewMessage { chat_id, message } => {
            assert_eq!(chat_id, 1);
            assert_eq!(message.id, rec.message.id);
        }
        _ => panic!("expected NewMessage"),
    }
    let stored = message_insert(&rec.message);
    assert_eq!(stored.direction, "out");
    let back = row_to_message(&MessageRow {
        id: stored.id,
        chat_id: stored.chat_id,
        external_id: None,
        direction: stored.direction.to_string(),
        body: stored.body,
        reply_to_message_id: stored.reply_to_message_id,
        forwarded_from_message_id: stored.forwarded_from_message_id,
        ts: stored.ts,
    })
    .unwrap();
    assert_eq!((back.id, back.chat_id, back.ts), (rec.message.id, 1, JAN_2024));

    let r = begin_reply(2, 99, "re").unwrap();
    assert_eq!((r.chat_id, r.reply_to_message_id), (2, Some(99)));
    assert!(matches!(begin_reply(2, 99, ""), Err(AppError::Validation(_))));

    assert!(matches!(forward_from(None, 5, 6), Err(AppError::NotFound)));
    let f = forward_from(Some("copied".into()), 5, 6).unwrap();
    assert_eq!((f.chat_id, f.body.as_str(), f.forwarded_from_message_id), (6, "copied", Some(5)));
    assert!(begin_send(3, "x").unwrap().into_record().message.ts > JAN_2024);
}

#[test]
fn send_dispatches_plain_text_to_the_chat_jid() {
    let chat = find_chat(Some(chat_row(1, None, JAN_2024))).unwrap();
    match send_text_command(&chat, "yo") {
        WaCmd::SendText { jid, body, reply_to_external_id } => {
            assert_eq!(jid, "1@s.whatsapp.net");
            assert_eq!(body, "yo");
            assert!(reply_to_external_id.is_none());
        }
        _ => panic!("expected SendText"),
    }
}
