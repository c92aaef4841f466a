use whatsapp_web_shared_backend::error::{AppError, AuthReason, ErrorReply, LogLevel};

fn reply(e: AppError) -> (u16, &'static str, Option<String>, LogLevel) {
    let r = ErrorReply::from_error(&e);
    (r.status, r.code, r.message, r.log)
}

#[test]
fn each_error_maps_to_its_reply() {
    assert_eq!(reply(AppError::Db("disk".into())), (500, "db_error", None, LogLevel::Error));
    assert_eq!(reply(AppError::Wa("down".into())), (502, "wa_unavailable", None, LogLevel::Warn));
    assert_eq!(
        reply(AppError::Auth(AuthReason::InvalidCode)),
        (400, "invalid_code", None, LogLevel::Silent)
    );
    assert_eq!(
        reply(AppError::Auth(AuthReason::ExpiredCode)),
        (400, "invalid_code", None, LogLevel::Silent)
    );
    assert_eq!(
        reply(AppError::Auth(AuthReason::NoSession)),
        (401, "unauthenticated", None, LogLevel::Silent)
    );
    assert_eq!(
        reply(AppError::Auth(AuthReason::SessionExpired)),
        (401, "unauthenticated", None, LogLevel::Silent)
    );
    assert_eq!(
        reply(AppError::Validation("bad phone".into())),
        (422, "validation_error", Some("bad phone".to_string()), LogLevel::Silent)
    );
    assert_eq!(reply(AppError::Email("smtp".into())), (500, "email_failed", None, LogLevel::Error));
    assert_eq!(reply(AppError::NotFound), (404, "not_found", None, LogLevel::Silent));
    assert_eq!(
        reply(AppError::Conflict("already connected".into())),
        (409, "conflict", None, LogLevel::Silent)
    );
    assert_eq!(reply(AppError::RateLimited), (429, "rate_limited", None, LogLevel::Silent));
    assert_eq!(reply(AppError::Internal("x".into())), (500, "internal", None, LogLevel::Error));
}
