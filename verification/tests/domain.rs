use whatsapp_web_shared_backend::domain::auth::MagicCode;
use whatsapp_web_shared_backend::domain::chat::Jid;
use whatsapp_web_shared_backend::domain::message::Direction;
use whatsapp_web_shared_backend::domain::user::Email;
use whatsapp_web_shared_backend::domain::wa::WaConnState;

#[test]
fn accepts_six_digits() {
    assert!(MagicCode::parse("123456").is_ok());
}

#[test]
fn rejects_too_short() {
    assert!(MagicCode::parse("12345").is_err());
}

#[test]
fn rejects_non_digits() {
    assert!(MagicCode::parse("12345a").is_err());
}

#[test]
fn debug_redacts() {
    let c = MagicCode::parse("123456").unwrap();
    assert_eq!(c.debug_string(), "MagicCode(******)");
}

#[test]
fn display_redacts() {
    let c = MagicCode::parse("654321").unwrap();
    assert_eq!(c.to_string(), "******");
    assert_eq!(c.expose(), "654321");
}

#[test]
fn magic_code_is_trimmed_and_reports_its_message() {
    let c = MagicCode::parse("  042042\n").unwrap();
    assert_eq!(c.expose(), "042042");
    assert_eq!(
        MagicCode::parse("1234567").err().unwrap(),
        "code must be exactly 6 digits"
    );
    // six characters but not six ASCII digits
    assert!(MagicCode::parse("１２３４５６").is_err());
}

#[test]
fn accepts_user_jid() {
    assert!(Jid::parse("1234567890@s.whatsapp.net").is_ok());
}

#[test]
fn rejects_no_at() {
    assert!(Jid::parse("1234567890").is_err());
}

#[test]
fn chat_rejects_empty() {
    assert!(Jid::parse("  ").is_err());
}

#[test]
fn jid_messages_and_round_trip() {
    assert_eq!(Jid::parse("").err().unwrap(), "jid must not be empty");
    assert_eq!(Jid::parse("abc").err().unwrap(), "jid must contain '@'");
    let j = Jid::parse("\t42@g.us ").unwrap();
    assert_eq!(j.as_str(), "42@g.us");
    let again = Jid::parse(j.as_str()).unwrap();
    assert_eq!(again.into_inner(), "42@g.us");
}

#[test]
fn jid_must_name_a_whatsapp_domain() {
    let shape = "jid must be user@s.whatsapp.net or group@g.us";
    assert_eq!(Jid::parse("a@b").err().unwrap(), shape);
    assert_eq!(Jid::parse("@s.whatsapp.net").err().unwrap(), shape);
    assert_eq!(Jid::parse("@g.us").err().unwrap(), shape);
    assert_eq!(Jid::parse("a@b@g.us").err().unwrap(), shape);
    assert_eq!(Jid::parse("1@s.whatsapp.net.evil").err().unwrap(), shape);
    assert!(Jid::parse("120363@g.us").is_ok());
    assert!(Jid::parse("1@s.whatsapp.net").is_ok());
}

#[test]
fn accepts_simple_email() {
    assert!(Email::parse("foo@bar.com").is_ok());
}

#[test]
fn normalizes_case_and_whitespace() {
    let e = Email::parse("  Foo@BAR.com  ").unwrap();
    assert_eq!(e.as_str(), "foo@bar.com");
}

#[test]
fn rejects_missing_at() {
    assert!(Email::parse("noat").is_err());
}

#[test]
fn user_rejects_empty() {
    assert!(Email::parse("   ").is_err());
}

#[test]
fn email_messages_length_limit_and_idempotence() {
    assert_eq!(Email::parse(" ").err().unwrap(), "email must not be empty");
    assert_eq!(Email::parse("x").err().unwrap(), "email must contain '@'");
    let long_ok = format!("{}@b", "a".repeat(318));
    assert_eq!(long_ok.len(), 320);
    assert!(Email::parse(&long_ok).is_ok());
    let too_long = format!("{}@b", "a".repeat(319));
    assert_eq!(Email::parse(&too_long).err().unwrap(), "email too long (>320 chars)");
    // 160 two-byte characters are 320 bytes; one more '@' passes the limit
    let wide = format!("{}@", "é".repeat(160));
    assert_eq!(Email::parse(&wide).err().unwrap(), "email too long (>320 chars)");
    let e = Email::parse("\u{3000}MiXeD@Example.ORG\u{a0}").unwrap();
    assert_eq!(e.as_str(), "mixed@example.org");
    let again = Email::parse(e.as_str()).unwrap();
    assert_eq!(again.into_inner(), "mixed@example.org");
}

#[test]
fn direction_tags_round_trip() {
    assert_eq!(Direction::In.as_str(), "in");
    assert_eq!(Direction::Out.as_str(), "out");
    assert_eq!(Direction::from_db(Direction::In.as_str()).unwrap(), Direction::In);
    assert_eq!(Direction::from_db(Direction::Out.as_str()).unwrap(), Direction::Out);
    assert_eq!(
        Direction::from_db("up").err().unwrap(),
        "invalid direction tag \"up\""
    );
}

#[test]
fn wa_state_tags() {
    assert_eq!(WaConnState::Disconnected.tag(), "Disconnected");
    assert_eq!(WaConnState::WaitingQr.tag(), "WaitingQr");
    assert_eq!(WaConnState::Connecting.tag(), "Connecting");
    assert_eq!(WaConnState::Connected.tag(), "Connected");
    assert_eq!(WaConnState::LoggedOut.tag(), "LoggedOut");
    assert_eq!(WaConnState::Error("boom".to_string()).tag(), "Error");
    assert!(WaConnState::Connected.is_connected());
    assert!(!WaConnState::WaitingQr.is_connected());
}
