use whatsapp_web_shared_backend::application::wa_session_service::{
    forward_step, qr_response, ForwardAction, RecvOutcome,
};
use whatsapp_web_shared_backend::application::auth_service::{
    begin_code_request_at, session_expiry_in_range,
};
use whatsapp_web_shared_backend::clock::{add_seconds, MAX_MICROS, MIN_MICROS};
use whatsapp_web_shared_backend::config::{
    email_mode_from, env_bool, env_u32, env_u64, parse_unsigned, EmailMode, RawEnv, Settings,
};
use whatsapp_web_shared_backend::application::auth_service::{mint_session_at, user_from_row, UserRow};
use whatsapp_web_shared_backend::application::chat_service::forward_from;
use whatsapp_web_shared_backend::domain::events::Event;
use whatsapp_web_shared_backend::domain::wa::WaConnState;
use whatsapp_web_shared_backend::error::AppError;
use whatsapp_web_shared_backend::storage::{instant_text, uuid_text};
use whatsapp_web_shared_backend::infrastructure::email::{build, code_log_line, EmailTransport};
use whatsapp_web_shared_backend::infrastructure::session_store::{session_path, session_tmp_path};
use whatsapp_web_shared_backend::infrastructure::wa_client::{StubWa, WaCmd, WaEvent, WaReply, STUB_QR};
use whatsapp_web_shared_backend::routes::auth::{session_cookie, SameSite};
use whatsapp_web_shared_backend::routes::health::health_body;
use whatsapp_web_shared_backend::routes::ws::{ws_open, ws_step, WsAction, WsInput, WsOpen};
use whatsapp_web_shared_backend::startup::{cookie_key_bytes, warn_if_cookie_key_weak, CookieKeyWarning};

#[test]
fn stub_adapter_lifecycle() {
    let mut wa = StubWa::new();
    assert_eq!(wa.state, WaConnState::Disconnected);
    assert!(wa.qr.is_none());
    let evs = wa.announce();
    assert_eq!(wa.state, WaConnState::WaitingQr);
    assert_eq!(wa.qr.as_deref(), Some(STUB_QR));
    assert!(matches!(&evs[0], WaEvent::StateChanged(WaConnState::WaitingQr)));
    assert!(matches!(&evs[1], WaEvent::QrUpdated(q) if q == STUB_QR));

    let (reply, evs) = wa.handle_at(WaCmd::GetState, 1);
    assert!(matches!(reply, WaReply::State(WaConnState::WaitingQr)));
    assert!(evs.is_empty());

    let (reply, evs) = wa.handle_at(
        WaCmd::SendText { jid: "j@s.whatsapp.net".into(), body: "hi".into(), reply_to_external_id: None },
        42,
    );
    let id = match reply {
        WaReply::Sent(Ok(id)) => id,
        _ => panic!("expected a sent id"),
    };
    assert!(id.starts_with("stub-"));
    assert_eq!(id.len(), 5 + 32);
    match &evs[0] {
        WaEvent::MessageReceived { external_id, jid, body, ts, from_me, reply_to_external_id } => {
            assert_eq!(external_id, &id);
            assert_eq!(jid, "j@s.whatsapp.net");
            assert_eq!(body, "hi");
            assert_eq!(*ts, 42);
            assert!(*from_me);
            assert!(reply_to_external_id.is_none());
        }
        _ => panic!("expected an echo"),
    }

    let (reply, evs) = wa.handle(WaCmd::Reconnect);
    assert!(matches!(reply, WaReply::Reconnected(Ok(()))));
    assert_eq!(wa.state, WaConnState::Connected);
    assert!(wa.qr.is_none());
    assert!(matches!(&evs[0], WaEvent::StateChanged(WaConnState::Connected)));
}

#[test]
fn forwarder_republishes_state_and_qr_only() {
    match forward_step(RecvOutcome::Event(WaEvent::StateChanged(WaConnState::Connected))) {
        ForwardAction::Publish { event: Event::WaStateChange { state }, warn_lag } => {
            assert_eq!(state, WaConnState::Connected);
            assert!(!warn_lag);
        }
        _ => panic!("expected a state change"),
    }
    assert!(matches!(
        forward_step(RecvOutcome::Event(WaEvent::QrUpdated("q".into()))),
        ForwardAction::Publish { event: Event::QrUpdate { .. }, warn_lag: false }
    ));
    assert!(matches!(
        forward_step(RecvOutcome::Event(WaEvent::ChatMetaUpdated { jid: "j".into(), display_name: "d".into() })),
        ForwardAction::Skip
    ));
    assert!(matches!(
        forward_step(RecvOutcome::Lagged(3)),
        ForwardAction::Publish { event: Event::WsLag { dropped: 3 }, warn_lag: true }
    ));
    assert!(matches!(forward_step(RecvOutcome::Closed), ForwardAction::Stop));
}

#[test]
fn qr_endpoint_decisions() {
    match qr_response(&WaConnState::Connected, Some("q".into())) {
        Err(AppError::Conflict(m)) => assert_eq!(m, "already connected"),
        _ => panic!("expected a conflict"),
    }
    assert_eq!(qr_response(&WaConnState::WaitingQr, Some("q".into())).unwrap(), "q");
    assert!(matches!(qr_response(&WaConnState::WaitingQr, None), Err(AppError::NotFound)));
}

#[test]
fn websocket_decisions() {
    assert!(matches!(ws_open(true), WsOpen::Serve));
    assert!(matches!(ws_open(false), WsOpen::Close { code: 4401, reason: "unauthenticated" }));
    assert!(matches!(ws_step(WsInput::Lagged(7)), WsAction::Notify(Event::WsLag { dropped: 7 })));
    assert!(matches!(ws_step(WsInput::Ping(vec![1, 2])), WsAction::Pong(p) if p == vec![1, 2]));
    assert!(matches!(ws_step(WsInput::ClientClosed), WsAction::Stop));
    assert!(matches!(ws_step(WsInput::BroadcastClosed), WsAction::Stop));
    assert!(matches!(ws_step(WsInput::ClientError), WsAction::Stop));
    assert!(matches!(ws_step(WsInput::OtherFrame), WsAction::Continue));
    assert!(matches!(
        ws_step(WsInput::Event(Event::QrUpdate { qr: "x".into() })),
        WsAction::Forward(Event::QrUpdate { .. })
    ));
}

#[test]
fn session_cookie_attributes() {
    let c = session_cookie("tok".into(), true, 30);
    assert_eq!(c.name, "sid");
    assert_eq!(c.value, "tok");
    assert!(c.http_only);
    assert!(c.secure);
    assert_eq!(c.same_site, SameSite::Lax);
    assert_eq!(c.path, "/");
    assert_eq!(c.max_age_secs, 30 * 24 * 3600);
}

#[test]
fn env_parsing() {
    assert!(env_bool(Some("1"), false));
    assert!(env_bool(Some("on"), false));
    assert!(env_bool(Some("TRUE"), false));
    assert!(!env_bool(Some("True"), true));
    assert!(env_bool(None, true));
    assert_eq!(env_u32(Some("42"), 5), 42);
    assert_eq!(env_u32(Some("+42"), 5), 42);
    assert_eq!(env_u32(Some("+"), 5), 5);
    assert_eq!(env_u32(Some(""), 5), 5);
    assert_eq!(env_u32(Some(" 4"), 5), 5);
    assert_eq!(env_u32(Some("-1"), 5), 5);
    assert_eq!(env_u32(Some("4294967295"), 5), u32::MAX);
    assert_eq!(env_u32(Some("4294967296"), 5), 5);
    assert_eq!(env_u64(Some("18446744073709551615"), 1), u64::MAX);
    assert_eq!(env_u64(Some("18446744073709551616"), 1), 1);
    assert_eq!(parse_unsigned("007", 10), Some(7));
    assert_eq!(parse_unsigned("11", 10), None);
    assert_eq!(email_mode_from(Some("SmTp")), EmailMode::Smtp);
    assert_eq!(email_mode_from(Some("smtp ")), EmailMode::Stdout);
    assert_eq!(email_mode_from(None), EmailMode::Stdout);
}

#[test]
fn settings_defaults_and_overrides() {
    let s = Settings::resolve(&RawEnv::default());
    assert_eq!(s.bind_addr, "0.0.0.0:8080");
    assert_eq!(s.database_url, "sqlite::memory:");
    assert_eq!(s.wa_session_path, "./wa-session");
    assert_eq!(s.cookie_key_hex, "0".repeat(64));
    assert!(!s.cookie_secure);
    assert_eq!((s.session_ttl_days, s.auth_code_ttl_secs, s.rate_limit_codes_per_hour), (30, 300, 5));
    assert_eq!(s.frontend_origin, "http://localhost:3000");
    assert_eq!(s.email_mode, EmailMode::Stdout);
    assert_eq!(s.smtp.port, 587);
    assert_eq!(s.smtp.from, "noreply@example.com");
    assert_eq!(s.smtp.host, "");
    let raw = RawEnv {
        smtp_port: Some("70000".into()),
        email_mode: Some("smtp".into()),
        smtp_host: Some("mail".into()),
        cookie_secure: Some("yes".into()),
        ..RawEnv::default()
    };
    let s = Settings::resolve(&raw);
    assert_eq!(s.smtp.port, (70000u32 % 65536) as u16);
    assert!(s.cookie_secure);
    match build(&s).transport {
        EmailTransport::Smtp(sender) => assert_eq!(sender.from, "noreply@example.com"),
        _ => panic!("expected smtp"),
    }
    let no_host = Settings::resolve(&RawEnv { email_mode: Some("smtp".into()), ..RawEnv::default() });
    let choice = build(&no_host);
    assert!(matches!(choice.transport, EmailTransport::Stdout(_)));
    assert!(choice.fell_back);
    assert_eq!(code_log_line("a@b.c", "123456"), "CODE email=a@b.c code=123456");
}

#[test]
fn cookie_key_checks() {
    assert_eq!(warn_if_cookie_key_weak("abc"), Some(CookieKeyWarning::WrongLength(3)));
    assert_eq!(warn_if_cookie_key_weak(&"0".repeat(64)), Some(CookieKeyWarning::AllZero));
    assert_eq!(warn_if_cookie_key_weak(&"ab".repeat(32)), None);
    let k = cookie_key_bytes(&"0f".repeat(32)).unwrap();
    assert_eq!(k.len(), 64);
    assert!(k.iter().all(|b| *b == 0x0f));
    assert_eq!(cookie_key_bytes("123").err().unwrap(), "COOKIE_KEY hex: Odd number of digits");
    assert_eq!(cookie_key_bytes("abcd").err().unwrap(), "COOKIE_KEY must decode to 32 bytes");
    assert_eq!(
        cookie_key_bytes("zz").err().unwrap(),
        "COOKIE_KEY hex: Invalid character 'z' at position 0"
    );
}

#[test]
fn outside_codecs() {
    // hex: a session token is the lowercase hex of 32 bytes, which decodes
    // back to 32 bytes; a mixed-case key decodes digit pair by digit pair.
    let s = mint_session_at(1, 1, 0);
    assert_eq!(s.token.len(), 64);
    assert!(s.token.chars().all(|c| c.is_ascii_digit() || ('a'..='f').contains(&c)));
    assert_eq!(cookie_key_bytes(&s.token).unwrap().len(), 64);
    let k = cookie_key_bytes(&"0A0b".repeat(16)).unwrap();
    assert_eq!(&k[..4], &[10, 11, 10, 11]);

    // uuid: stored text is hyphenated and reads back; bad text is refused.
    let u: u128 = 0xa1a2a3a4b1b2c1c2d1d2d3d4d5d6d7d8;
    assert_eq!(uuid_text(u), "a1a2a3a4-b1b2-c1c2-d1d2-d3d4d5d6d7d8");
    let row = |id: &str, at: &str| UserRow { id: id.into(), email: "e@x".into(), created_at: at.into() };
    let back = user_from_row(row("a1a2a3a4-b1b2-c1c2-d1d2-d3d4d5d6d7d8", "2024-01-01T00:00:00Z")).unwrap();
    assert_eq!(back.id, u);
    assert!(matches!(user_from_row(row("xyz", "2024-01-01T00:00:00Z")), Err(AppError::Internal(_))));

    // fresh ids are version 4, RFC 4122 variant, and differ.
    let fresh = || forward_from(Some("x".into()), 1, 2).unwrap().into_record_at(0).message.id;
    let (a, b) = (fresh(), fresh());
    for v in [a, b] {
        assert_eq!((v >> 76) & 0xf, 4);
        assert_eq!((v >> 62) & 0x3, 2);
    }
    assert_ne!(a, b);

    // chrono: RFC 3339 in and out.
    assert_eq!(back.created_at, 1_704_067_200_000_000);
    let offset = user_from_row(row(&uuid_text(u), "2024-01-01 01:00:00+01:00")).unwrap();
    assert_eq!(offset.created_at, 1_704_067_200_000_000);
    assert!(matches!(user_from_row(row(&uuid_text(u), "tomorrow")), Err(AppError::Internal(_))));
    assert_eq!(instant_text(1_704_067_200_000_000), "2024-01-01T00:00:00+00:00");

    assert_eq!(add_seconds(0, 300), 300_000_000);
    assert_eq!(add_seconds(MAX_MICROS - 1_000_000, 1), MAX_MICROS);
}

#[test]
fn chrono_range_bounds() {
    // chrono's first instant is midnight of -262143-01-01
    assert_eq!(MIN_MICROS, -8_334_601_228_800_000_000);
    assert!(!instant_text(MIN_MICROS).is_empty());
    // every representable instant reads back from its stored text, signed
    // years included
    let read = |t: &str| {
        user_from_row(UserRow { id: uuid_text(1), email: "e@x".into(), created_at: t.into() })
            .map(|u| u.created_at)
    };
    for t in [MIN_MICROS, -62_167_219_200_000_001, 253_402_300_800_000_000, MAX_MICROS, 0] {
        assert_eq!(read(&instant_text(t)).unwrap(), t);
    }
    assert!(instant_text(MIN_MICROS).starts_with("-262143-01-01T"));
    assert!(instant_text(MAX_MICROS).starts_with("+262142-12-31T"));
    // a leap second on chrono's last day parses past its last instant
    assert_eq!(read("+262142-12-31T23:59:60.5Z").unwrap(), MAX_MICROS + 500_001);
    // the rate window opens exactly when its start is still an instant
    let q = begin_code_request_at("a@b.c", MIN_MICROS + 3_600_000_000).unwrap();
    assert_eq!(q.since, MIN_MICROS);
    assert!(begin_code_request_at("a@b.c", MIN_MICROS + 3_599_999_999).is_err());
    // a session may end on the last instant, not past it
    assert!(session_expiry_in_range(MAX_MICROS - 86_400_000_000, 1));
    assert!(!session_expiry_in_range(MAX_MICROS - 86_399_999_999, 1));
    assert!(!session_expiry_in_range(MIN_MICROS, u32::MAX));
}

#[test]
fn session_file_paths() {
    assert_eq!(session_path("/wa-session"), "/wa-session/session.bin");
    assert_eq!(session_tmp_path("./wa-session"), "./wa-session/session.bin.tmp");
    assert_eq!(session_path("dir/"), "dir/session.bin");
}

#[test]
fn health_is_always_ok() {
    let b = health_body(WaConnState::WaitingQr);
    assert!(b.ok);
    assert_eq!(b.wa, WaConnState::WaitingQr);
    let b = health_body(WaConnState::Error("boom".to_string()));
    assert!(b.ok);
    assert_eq!(b.wa, WaConnState::Error("boom".to_string()));
}
