//! Magic-code auth flow: request a code, verify it, resolve the user,
//! mint a session, and resolve the user behind a session token.
//!
//! The flow is split at every database round-trip. `app/` runs the query
//! that each step names and hands the result to the next step.

use crate::clock::{
    add_seconds, can_add_seconds, checked_add_seconds, checked_sub_seconds, datetime_parsed,
    now_micros, parse_timestamp, plus_seconds, representable, MICROS_PER_SEC,
};
use crate::crypto::{
    argon2_accepts, argon2_hash, argon2_max_pwd_len, argon2_verify,
    hex_encode, phc_shaped, random_bytes_32, random_u32,
};
use crate::domain::auth::{magic_code_parse, AuthCode, AuthSession, MagicCode};
use crate::domain::user::{email_parse, Email, User};
use crate::error::{AppError, AuthReason, ErrorView};
use crate::ids::{is_v4, new_uuid, parse_uuid, uuid_parsed};
use crate::text::{fixed_digits, hex_lower, is_ascii_digit, render_fixed, trimmed};
use vstd::prelude::*;
use vstd::utf8::encode_utf8;

verus! {

/// Seconds in the rolling rate-limit window.
pub const RATE_WINDOW_SECS: i64 = 3600;

/// Seconds in a day, for the session TTL.
pub const SECS_PER_DAY: i64 = 86400;

/// Number of distinct magic codes.
pub const CODE_SPACE: u32 = 1_000_000;

/// The policy knobs of the auth flow.
#[derive(Debug, Clone, Copy)]
pub struct AuthPolicy {
    /// Max magic-code requests per email per rolling hour.
    pub rate_limit_codes_per_hour: u32,
    /// Magic-code TTL in seconds.
    pub auth_code_ttl_secs: u64,
    /// Session TTL in days.
    pub session_ttl_days: u32,
}

// ---------- code generation and hashing ----------

/// The code text drawn from a random `u32`: the draw modulo one million as
/// six zero-padded decimal digits.
pub open spec fn code_from_draw(n: u32) -> Seq<char> {
    fixed_digits((n % CODE_SPACE) as nat, 10, 6)
}

/// Zero-padded decimal digits are ASCII digits, `width` of them.
pub proof fn lemma_decimal_digits(v: nat, width: nat)
    ensures
        fixed_digits(v, 10, width).len() == width,
        forall|i: int|
            0 <= i < width ==> is_ascii_digit(#[trigger] fixed_digits(v, 10, width)[i]),
    decreases width,
{
    if width > 0 {
        lemma_decimal_digits(v / 10, (width - 1) as nat);
        let d = v % 10;
        assert(d < 10);
        let s = fixed_digits(v, 10, width);
        assert forall|i: int| 0 <= i < width implies is_ascii_digit(#[trigger] s[i]) by {
            if i < width - 1 {
                assert(s[i] == fixed_digits(v / 10, 10, (width - 1) as nat)[i]);
            }
        }
    }
}

/// A six-digit code text is a valid magic code as it stands.
pub proof fn lemma_six_digits_parse(t: Seq<char>)
    requires
        t.len() == 6,
        forall|i: int| 0 <= i < t.len() ==> is_ascii_digit(#[trigger] t[i]),
    ensures
        magic_code_parse(t) == Ok::<Seq<char>, Seq<char>>(t),
{
    assert(!crate::text::is_white_space(t[0]) && !crate::text::is_white_space(t.last())) by {
        assert(is_ascii_digit(t[0]));
        assert(is_ascii_digit(t[5]));
    }
    crate::text::lemma_trimmed_fixed(t);
    crate::domain::auth::lemma_digits_bytes(t);
}

/// The magic code for a drawn `u32`: the draw modulo one million as six
/// zero-padded decimal digits.
pub fn code_for_draw(draw: u32) -> (c: MagicCode)
    ensures
        c@ == code_from_draw(draw),
        c@ == fixed_digits((draw % 1_000_000) as nat, 10, 6),
        magic_code_parse(c@) == Ok::<Seq<char>, Seq<char>>(c@),
{
    let n = draw % CODE_SPACE;
    let s = render_fixed(n as u128, 10, 6);
    proof {
        assert(s@ == code_from_draw(draw));
        lemma_decimal_digits(n as nat, 6);
        lemma_six_digits_parse(s@);
    }
    MagicCode::from_trusted(s)
}

/// A valid magic code is six bytes long, well within argon2's limit.
proof fn lemma_digits_bytes_of_code(c: Seq<char>)
    requires
        magic_code_parse(c) == Ok::<Seq<char>, Seq<char>>(c),
    ensures
        encode_utf8(c).len() <= argon2_max_pwd_len(),
{
}

/// Six ASCII digits drawn uniformly from `OsRng` (`n % 1_000_000`).
pub fn generate_magic_code() -> (c: MagicCode)
    ensures
        exists|n: u32| c@ == code_from_draw(n),
        magic_code_parse(c@) == Ok::<Seq<char>, Seq<char>>(c@),
{
    code_for_draw(random_u32())
}

/// Whether a stored hash is an argon2id PHC string with the default
/// parameters.
pub open spec fn is_default_argon2id_phc(h: Seq<char>) -> bool {
    &&& h.len() > crate::crypto::argon2id_default_prefix().len()
    &&& h.subrange(0, crate::crypto::argon2id_default_prefix().len() as int)
        == crate::crypto::argon2id_default_prefix()
}

/// argon2id PHC string of a code; a hashing failure is an internal error
/// (it cannot happen for a code of at most `MAX_PWD_LEN` bytes).
pub fn hash_code(code: &str) -> (r: Result<String, AppError>)
    ensures
        encode_utf8(code@).len() <= argon2_max_pwd_len() ==> (r is Ok),
        r matches Ok(h) ==> (argon2_accepts(encode_utf8(code@), h@) && is_default_argon2id_phc(h@)),
        r matches Err(e) ==> exists|t: Seq<char>| e@ == ErrorView::Internal("argon2 hash: "@ + t),
{
    match argon2_hash(code) {
        Ok(h) => Ok(h),
        Err(e) => {
            let mut m = String::from_str("argon2 hash: ");
            m.append(e.as_str());
            Err(AppError::Internal(m))
        },
    }
}

/// Whether `hash` is an argon2 PHC string that accepts `code`; a text
/// without a leading `$` is never one.
pub fn verify_code_hash(code: &str, hash: &str) -> (r: bool)
    ensures
        r == argon2_accepts(encode_utf8(code@), hash@),
        !phc_shaped(hash@) ==> !r,
{
    argon2_verify(code, hash)
}

// ---------- log tag ----------

pub const FNV_OFFSET: u64 = 0xcbf29ce484222325;

pub const FNV_PRIME: u64 = 0x100000001b3;

/// 64-bit FNV-1a of a byte sequence.
pub open spec fn fnv1a64(bytes: Seq<u8>) -> u64
    decreases bytes.len(),
{
    if bytes.len() == 0 {
        FNV_OFFSET
    } else {
        (fnv1a64(bytes.drop_last()) ^ (bytes.last() as u64)).wrapping_mul(FNV_PRIME)
    }
}

/// Low-sensitivity log tag for an email: FNV-1a of its UTF-8 bytes as 16
/// lowercase hex digits. Only for grouping log lines, not for security.
pub fn hash_for_log(email: &str) -> (r: String)
    ensures
        r@ == fixed_digits(fnv1a64(encode_utf8(email@)) as nat, 16, 16),
{
    let bytes = email.as_bytes();
    let mut acc: u64 = FNV_OFFSET;
    let mut i: usize = 0;
    assert(bytes@.subrange(0, 0) =~= Seq::<u8>::empty());
    while i < bytes.len()
        invariant
            i <= bytes@.len(),
            acc == fnv1a64(bytes@.subrange(0, i as int)),
        decreases bytes@.len() - i,
    {
        acc = acc ^ (bytes[i] as u64);
        acc = acc.wrapping_mul(FNV_PRIME);
        assert(bytes@.subrange(0, i + 1).drop_last() =~= bytes@.subrange(0, i as int));
        i = i + 1;
    }
    assert(bytes@.subrange(0, bytes@.len() as int) =~= bytes@);
    render_fixed(acc as u128, 16, 16)
}

// ---------- request_code ----------

/// A validated code request, awaiting the count of codes issued to
/// `email` after `since` (the rolling rate-limit window).
#[derive(Debug)]
pub struct CodeRequest {
    pub email: Email,
    pub since: i64,
    /// The instant the request was made; a code issued for it is created
    /// at this instant.
    pub requested_at: i64,
}

/// A freshly issued code: the row to insert and the code to send.
pub struct IssuedCode {
    pub record: AuthCode,
    pub code: MagicCode,
}

/// The outcome of starting a code request for `raw` at `now`.
pub open spec fn code_request_started(raw: Seq<char>, now: i64, r: Result<CodeRequest, AppError>) -> bool {
    match email_parse(raw) {
        Err(m) => r matches Err(e) && e@ == ErrorView::Validation(m),
        Ok(em) => if representable(now - RATE_WINDOW_SECS * MICROS_PER_SEC) {
            r matches Ok(q) && q.email@ == em && q.since == now - RATE_WINDOW_SECS * MICROS_PER_SEC
                && q.requested_at == now
        } else {
            r matches Err(e) && e@ == ErrorView::Internal("clock skew"@)
        },
    }
}

/// Start of `request_code` at `now`: validate the email and open the
/// one-hour rate-limit window ending at `now`.
pub fn begin_code_request_at(raw_email: &str, now: i64) -> (r: Result<CodeRequest, AppError>)
    requires
        representable(now as int),
    ensures
        code_request_started(raw_email@, now, r),
        r matches Ok(q) ==> q.since == now - 3_600_000_000 && q.requested_at == now,
{
    let email = match Email::parse(raw_email) {
        Ok(e) => e,
        Err(m) => return Err(AppError::Validation(m)),
    };
    match checked_sub_seconds(now, RATE_WINDOW_SECS) {
        Some(since) => Ok(CodeRequest { email, since, requested_at: now }),
        None => Err(AppError::Internal(String::from_str("clock skew"))),
    }
}

/// Start of `request_code`, at the current instant.
pub fn begin_code_request(raw_email: &str) -> (r: Result<CodeRequest, AppError>)
    ensures
        exists|t: i64|
            #![trigger code_request_started(raw_email@, t, r)]
            representable(t as int) && code_request_started(raw_email@, t, r),
{
    let now = now_micros();
    begin_code_request_at(raw_email, now)
}

/// What an issued code satisfies: it is for `email`, its text is a draw,
/// its stored hash accepts it, and it expires `ttl_secs` after `now`.
pub open spec fn issued_for(ic: IssuedCode, email: Seq<char>, now: i64, ttl_secs: u64) -> bool {
    &&& ic.record.email@ == email
    &&& exists|n: u32| ic.code@ == code_from_draw(n)
    &&& magic_code_parse(ic.code@) == Ok::<Seq<char>, Seq<char>>(ic.code@)
    &&& argon2_accepts(encode_utf8(ic.code@), ic.record.code_hash@)
    &&& is_default_argon2id_phc(ic.record.code_hash@)
    &&& is_v4(ic.record.id)
    &&& ic.record.expires_at == plus_seconds(now as int, (ttl_secs as i64) as int)
    &&& ic.record.created_at == now
    &&& !ic.record.consumed
}

impl CodeRequest {
    /// Whether a code issued for this request can carry its expiry
    /// (`requested_at` plus the TTL stays in chrono's range; chrono panics
    /// otherwise).
    pub fn expiry_in_range(&self, policy: &AuthPolicy) -> (r: bool)
        requires
            representable(self.requested_at as int),
        ensures
            r == can_add_seconds(self.requested_at as int, (policy.auth_code_ttl_secs as i64) as int),
    {
        checked_add_seconds(self.requested_at, policy.auth_code_ttl_secs as i64).is_some()
    }

    /// Given the number of codes issued in the window, refuse at the rate
    /// limit or issue a fresh code.
    pub fn issue(self, recent: i64, policy: &AuthPolicy) -> (r: Result<IssuedCode, AppError>)
        requires
            representable(self.requested_at as int),
            (recent as u32) < policy.rate_limit_codes_per_hour ==> can_add_seconds(
                self.requested_at as int,
                (policy.auth_code_ttl_secs as i64) as int,
            ),
        ensures
            (recent as u32) >= policy.rate_limit_codes_per_hour ==> (r matches Err(e) && e@
                == ErrorView::RateLimited),
            (recent as u32) < policy.rate_limit_codes_per_hour ==> (r matches Ok(ic) && issued_for(
                ic,
                self.email@,
                self.requested_at,
                policy.auth_code_ttl_secs,
            )),
            r matches Ok(ic) ==> ic.record.created_at == self.requested_at
                && ic.record.expires_at == self.requested_at + (policy.auth_code_ttl_secs as i64)
                * 1_000_000 && ic.record.email@ == self.email@ && !ic.record.consumed,
    {
        if recent as u32 >= policy.rate_limit_codes_per_hour {
            return Err(AppError::RateLimited);
        }
        let code = generate_magic_code();
        proof {
            lemma_digits_bytes_of_code(code@);
        }
        let code_hash = match hash_code(code.expose()) {
            Ok(h) => h,
            Err(e) => return Err(e),
        };
        let id = new_uuid();
        let now = self.requested_at;
        let expires_at = add_seconds(now, policy.auth_code_ttl_secs as i64);
        let record = AuthCode {
            id,
            email: self.email.into_inner(),
            code_hash,
            expires_at,
            consumed: false,
            created_at: now,
        };
        Ok(IssuedCode { record, code })
    }
}

/// An issued code lives exactly its TTL: it is created at the request's
/// instant and expires `ttl_secs` seconds (as `i64`, as chrono is handed
/// it) after it, for every TTL; for a TTL up to `i64::MAX` seconds that is
/// `ttl_secs` seconds. It belongs to the requesting email and starts
/// unconsumed.
pub proof fn issued_code_lives_its_ttl(ic: IssuedCode, email: Seq<char>, requested_at: i64, ttl_secs: u64)
    requires
        issued_for(ic, email, requested_at, ttl_secs),
    ensures
        ic.record.created_at == requested_at,
        ic.record.expires_at == requested_at + (ttl_secs as i64) * 1_000_000,
        ttl_secs <= i64::MAX ==> ic.record.expires_at - ic.record.created_at == ttl_secs * 1_000_000,
        ic.record.email@ == email,
        !ic.record.consumed,
{
}

// ---------- verify_code ----------

/// A validated verification attempt, awaiting the newest unconsumed code
/// row for `email`.
pub struct CodeVerification {
    pub email: Email,
    pub code: MagicCode,
}

/// The newest unconsumed `auth_codes` row for an email, as stored.
#[derive(Debug)]
pub struct CodeRow {
    pub id: String,
    pub code_hash: String,
    pub expires_at: String,
}

/// A code that passed verification: the row to mark consumed, the email
/// whose user is to be resolved, and the instant of the check.
#[derive(Debug)]
pub struct VerifiedCode {
    pub code_id: String,
    pub email: Email,
    pub checked_at: i64,
}

/// Start of `verify_code`: validate the email and the code's shape.
pub fn begin_code_verification(raw_email: &str, raw_code: &str) -> (r: Result<
    CodeVerification,
    AppError,
>)
    ensures
        match email_parse(raw_email@) {
            Err(m) => r matches Err(e) && e@ == ErrorView::Validation(m),
            Ok(em) => match magic_code_parse(raw_code@) {
                Err(_) => r matches Err(e) && e@ == ErrorView::Auth(AuthReason::InvalidCode),
                Ok(c) => r matches Ok(v) && v.email@ == em && v.code@ == c,
            },
        },
{
    let email = match Email::parse(raw_email) {
        Ok(e) => e,
        Err(m) => return Err(AppError::Validation(m)),
    };
    let code = match MagicCode::parse(raw_code) {
        Ok(c) => c,
        Err(_) => return Err(AppError::Auth(AuthReason::InvalidCode)),
    };
    Ok(CodeVerification { email, code })
}

/// The outcome of checking `code` against the newest unconsumed row at
/// `now`: the id of the row to consume, or the refusal. A code that does
/// not match is invalid; `ExpiredCode` is for a code that matched a row
/// whose TTL has passed.
pub open spec fn code_check(code: Seq<char>, newest: Option<CodeRow>, now: int) -> Result<
    Seq<char>,
    ErrorView,
> {
    match newest {
        None => Err(ErrorView::Auth(AuthReason::InvalidCode)),
        Some(row) => if !argon2_accepts(encode_utf8(code), row.code_hash@) {
            Err(ErrorView::Auth(AuthReason::InvalidCode))
        } else {
            match datetime_parsed(row.expires_at@) {
                Err(_) => Err(ErrorView::Internal("bad expires_at in db"@)),
                Ok(expires) => if expires < now {
                    Err(ErrorView::Auth(AuthReason::ExpiredCode))
                } else {
                    Ok(row.id@)
                },
            }
        },
    }
}

/// The outcome of checking verification `v` against `newest` at `now`.
pub open spec fn code_checked(
    v: CodeVerification,
    newest: Option<CodeRow>,
    now: i64,
    r: Result<VerifiedCode, AppError>,
) -> bool {
    match code_check(v.code@, newest, now as int) {
        Ok(id) => r matches Ok(x) && x.code_id@ == id && x.email@ == v.email@ && x.checked_at == now,
        Err(ev) => r matches Err(e) && e@ == ev,
    }
}

impl CodeVerification {
    /// Check the code against the newest unconsumed row for the email at
    /// `now`.
    pub fn check_at(self, newest: Option<CodeRow>, now: i64) -> (r: Result<VerifiedCode, AppError>)
        ensures
            code_checked(self, newest, now, r),
    {
        let row = match newest {
            Some(row) => row,
            None => return Err(AppError::Auth(AuthReason::InvalidCode)),
        };
        if !verify_code_hash(self.code.expose(), row.code_hash.as_str()) {
            return Err(AppError::Auth(AuthReason::InvalidCode));
        }
        let expires = match parse_timestamp(row.expires_at.as_str()) {
            Ok(t) => t,
            Err(_) => return Err(AppError::Internal(String::from_str("bad expires_at in db"))),
        };
        if expires < now {
            return Err(AppError::Auth(AuthReason::ExpiredCode));
        }
        Ok(VerifiedCode { code_id: row.id, email: self.email, checked_at: now })
    }

    /// Check the code against the newest unconsumed row for the email, at
    /// the current instant.
    pub fn check(self, newest: Option<CodeRow>) -> (r: Result<VerifiedCode, AppError>)
        ensures
            exists|t: i64|
                #![trigger code_checked(self, newest, t, r)]
                representable(t as int) && code_checked(self, newest, t, r),
    {
        let now = now_micros();
        self.check_at(newest, now)
    }
}

/// A code issued by [`CodeRequest::issue`], typed back for the same email
/// before it expires, is accepted: its stored row (hash unchanged, expiry
/// text reading back as the issued expiry) passes the check.
pub proof fn issued_code_is_accepted_until_expiry(
    ic: IssuedCode,
    email: Seq<char>,
    issued_at: i64,
    ttl_secs: u64,
    row: CodeRow,
    now: int,
)
    requires
        issued_for(ic, email, issued_at, ttl_secs),
        row.code_hash@ == ic.record.code_hash@,
        datetime_parsed(row.expires_at@) == Ok::<i64, Seq<char>>(ic.record.expires_at),
        now <= ic.record.expires_at,
    ensures
        magic_code_parse(ic.code@) == Ok::<Seq<char>, Seq<char>>(ic.code@),
        code_check(ic.code@, Some(row), now) == Ok::<Seq<char>, ErrorView>(row.id@),
{
}

/// After its expiry, a stored code typed back correctly is refused as
/// expired.
pub proof fn matched_code_is_refused_after_expiry(code: Seq<char>, row: CodeRow, expires: i64, now: int)
    requires
        argon2_accepts(encode_utf8(code), row.code_hash@),
        datetime_parsed(row.expires_at@) == Ok::<i64, Seq<char>>(expires),
        expires < now,
    ensures
        code_check(code, Some(row), now) == Err::<Seq<char>, ErrorView>(
            ErrorView::Auth(AuthReason::ExpiredCode),
        ),
{
}

/// A code the stored hash does not accept is refused as invalid, expired
/// row or not.
pub proof fn unmatched_code_is_invalid(code: Seq<char>, row: CodeRow, now: int)
    requires
        !argon2_accepts(encode_utf8(code), row.code_hash@),
    ensures
        code_check(code, Some(row), now) == Err::<Seq<char>, ErrorView>(
            ErrorView::Auth(AuthReason::InvalidCode),
        ),
{
}

/// A magic code works only once: once its row is consumed and the email
/// has no other unconsumed row, typing it again is refused as invalid.
pub proof fn consumed_code_is_refused(code: Seq<char>, now: int)
    ensures
        code_check(code, None, now) == Err::<Seq<char>, ErrorView>(
            ErrorView::Auth(AuthReason::InvalidCode),
        ),
{
}

// ---------- users and sessions ----------

/// A `users` row as stored.
#[derive(Debug)]
pub struct UserRow {
    pub id: String,
    pub email: String,
    pub created_at: String,
}

/// An `auth_sessions` row as looked up by token.
#[derive(Debug)]
pub struct SessionRow {
    pub user_id: String,
    pub expires_at: String,
}

/// Id, email and creation instant of a user.
pub open spec fn user_view(u: User) -> (u128, Seq<char>, i64) {
    (u.id, u.email@, u.created_at)
}

/// The user a stored row describes, or the internal error of its first
/// field that does not parse.
pub open spec fn user_row_parse(row: UserRow) -> Result<(u128, Seq<char>, i64), ErrorView> {
    match uuid_parsed(row.id@) {
        Err(m) => Err(ErrorView::Internal(m)),
        Ok(id) => match datetime_parsed(row.created_at@) {
            Err(m) => Err(ErrorView::Internal(m)),
            Ok(t) => Ok((id, row.email@, t)),
        },
    }
}

/// Build a user from its stored row.
pub fn user_from_row(row: UserRow) -> (r: Result<User, AppError>)
    ensures
        match user_row_parse(row) {
            Ok(v) => r matches Ok(u) && user_view(u) == v,
            Err(ev) => r matches Err(e) && e@ == ev,
        },
{
    let id = match parse_uuid(row.id.as_str()) {
        Ok(id) => id,
        Err(m) => return Err(AppError::Internal(m)),
    };
    let created_at = match parse_timestamp(row.created_at.as_str()) {
        Ok(t) => t,
        Err(m) => return Err(AppError::Internal(m)),
    };
    Ok(User { id, email: row.email, created_at })
}

/// The user a verified code logs in: the existing row, or a new user to
/// insert.
#[derive(Debug)]
pub enum UserResolution {
    Existing(User),
    Created(User),
}

/// The user a verified code for `email` logs in, given the existing row,
/// at `now`.
pub open spec fn user_resolved(
    email: Seq<char>,
    existing: Option<UserRow>,
    now: i64,
    r: Result<UserResolution, AppError>,
) -> bool {
    match existing {
        Some(row) => match user_row_parse(row) {
            Ok(v) => r matches Ok(UserResolution::Existing(u)) && user_view(u) == v,
            Err(ev) => r matches Err(e) && e@ == ev,
        },
        None => r matches Ok(UserResolution::Created(u)) && u.email@ == email && u.created_at == now
            && is_v4(u.id),
    }
}

impl VerifiedCode {
    /// Upsert by email at `now`: given the existing `users` row (if any),
    /// the user to log in.
    pub fn resolve_user_at(&self, existing: Option<UserRow>, now: i64) -> (r: Result<
        UserResolution,
        AppError,
    >)
        ensures
            user_resolved(self.email@, existing, now, r),
    {
        match existing {
            Some(row) => match user_from_row(row) {
                Ok(u) => Ok(UserResolution::Existing(u)),
                Err(e) => Err(e),
            },
            None => {
                let id = new_uuid();
                Ok(
                    UserResolution::Created(
                        User { id, email: String::from_str(self.email.as_str()), created_at: now },
                    ),
                )
            },
        }
    }

    /// Upsert by email at the current instant.
    pub fn resolve_user(&self, existing: Option<UserRow>) -> (r: Result<UserResolution, AppError>)
        ensures
            exists|t: i64|
                #![trigger user_resolved(self.email@, existing, t, r)]
                representable(t as int) && user_resolved(self.email@, existing, t, r),
    {
        let now = now_micros();
        self.resolve_user_at(existing, now)
    }
}

impl UserResolution {
    /// The user, existing or created.
    pub fn user(&self) -> (r: &User)
        ensures
            match self {
                UserResolution::Existing(u) => r == u,
                UserResolution::Created(u) => r == u,
            },
    {
        match self {
            UserResolution::Existing(u) => u,
            UserResolution::Created(u) => u,
        }
    }
}

/// Whether a session for `ttl_days` days starting at `now` can be minted
/// (chrono panics past its range).
pub open spec fn session_expiry_ok(now: int, ttl_days: u32) -> bool {
    can_add_seconds(now, ttl_days * SECS_PER_DAY)
}

/// Whether a session of `ttl_days` days starting at `now` stays in
/// chrono's range.
pub fn session_expiry_in_range(now: i64, ttl_days: u32) -> (r: bool)
    requires
        representable(now as int),
    ensures
        r == session_expiry_ok(now as int, ttl_days),
{
    checked_add_seconds(now, (ttl_days as i64) * SECS_PER_DAY).is_some()
}

/// The server session for `user_id` whose token is `bytes` as lowercase
/// hex, valid for `ttl_days` days from `now`.
pub fn session_with_token_bytes(user_id: u128, bytes: &[u8], ttl_days: u32, now: i64) -> (s: AuthSession)
    requires
        representable(now as int),
        session_expiry_ok(now as int, ttl_days),
    ensures
        s.user_id == user_id,
        s.created_at == now,
        s.expires_at == plus_seconds(now as int, ttl_days * SECS_PER_DAY),
        s.expires_at == now + ttl_days * 86_400_000_000,
        s.token@ == hex_lower(bytes@),
{
    let token = hex_encode(bytes);
    let expires_at = add_seconds(now, (ttl_days as i64) * SECS_PER_DAY);
    AuthSession { token, user_id, created_at: now, expires_at }
}

/// A new server session for `user_id`: 32 random bytes as a 64-digit
/// lowercase hex token, valid for `ttl_days` days from `now`.
pub fn mint_session_at(user_id: u128, ttl_days: u32, now: i64) -> (s: AuthSession)
    requires
        representable(now as int),
        session_expiry_ok(now as int, ttl_days),
    ensures
        s.user_id == user_id,
        s.created_at == now,
        s.expires_at == plus_seconds(now as int, ttl_days * SECS_PER_DAY),
        s.expires_at == now + ttl_days * 86_400_000_000,
        exists|b: Seq<u8>| b.len() == 32 && s.token@ == hex_lower(b),
{
    let bytes = random_bytes_32();
    session_with_token_bytes(user_id, bytes.as_slice(), ttl_days, now)
}

/// The session minted for `user_id` at `now`: `None` exactly when its
/// expiry would leave chrono's range (chrono panics there), else a session
/// valid for `ttl_days` days from `now` with a 64-digit hex token.
pub open spec fn session_minted(user_id: u128, ttl_days: u32, now: i64, r: Option<AuthSession>) -> bool {
    if session_expiry_ok(now as int, ttl_days) {
        r matches Some(s) && s.user_id == user_id && s.created_at == now
            && s.expires_at == plus_seconds(now as int, ttl_days * SECS_PER_DAY)
            && exists|b: Seq<u8>| b.len() == 32 && s.token@ == hex_lower(b)
    } else {
        r is None
    }
}

/// A new server session for `user_id` starting at the current instant, or
/// `None` when its expiry would leave chrono's range.
pub fn mint_session(user_id: u128, ttl_days: u32) -> (r: Option<AuthSession>)
    ensures
        exists|t: i64|
            #![trigger session_minted(user_id, ttl_days, t, r)]
            representable(t as int) && session_minted(user_id, ttl_days, t, r),
{
    let now = now_micros();
    let r = if session_expiry_in_range(now, ttl_days) {
        Some(mint_session_at(user_id, ttl_days, now))
    } else {
        None
    };
    assert(session_minted(user_id, ttl_days, now, r));
    r
}

// ---------- current_user ----------

/// The id of the user a session row grants, or the refusal.
pub open spec fn session_check(row: Option<SessionRow>, now: int) -> Result<Seq<char>, ErrorView> {
    match row {
        None => Err(ErrorView::Auth(AuthReason::NoSession)),
        Some(s) => match datetime_parsed(s.expires_at@) {
            Err(_) => Err(ErrorView::Internal("bad session expires_at"@)),
            Ok(expires) => if expires < now {
                Err(ErrorView::Auth(AuthReason::SessionExpired))
            } else {
                Ok(s.user_id@)
            },
        },
    }
}

/// Check the session row found for a token at `now`; on success, the
/// user id to look up.
pub fn check_session_at(row: Option<SessionRow>, now: i64) -> (r: Result<String, AppError>)
    ensures
        session_checked(row, now, r),
{
    let s = match row {
        Some(s) => s,
        None => return Err(AppError::Auth(AuthReason::NoSession)),
    };
    let expires = match parse_timestamp(s.expires_at.as_str()) {
        Ok(t) => t,
        Err(_) => return Err(AppError::Internal(String::from_str("bad session expires_at"))),
    };
    if expires < now {
        return Err(AppError::Auth(AuthReason::SessionExpired));
    }
    Ok(s.user_id)
}

/// The outcome of checking a session row at `now`.
pub open spec fn session_checked(row: Option<SessionRow>, now: i64, r: Result<String, AppError>) -> bool {
    match session_check(row, now as int) {
        Ok(id) => r matches Ok(u) && u@ == id,
        Err(ev) => r matches Err(e) && e@ == ev,
    }
}

/// Check the session row found for a token at the current instant.
pub fn check_session(row: Option<SessionRow>) -> (r: Result<String, AppError>)
    ensures
        exists|t: i64|
            #![trigger session_checked(row, t, r)]
            representable(t as int) && session_checked(row, t, r),
{
    let now = now_micros();
    check_session_at(row, now)
}

/// The user behind a valid session: a missing user row means no session.
pub fn session_user(row: Option<UserRow>) -> (r: Result<User, AppError>)
    ensures
        match row {
            None => r matches Err(e) && e@ == ErrorView::Auth(AuthReason::NoSession),
            Some(u) => match user_row_parse(u) {
                Ok(v) => r matches Ok(x) && user_view(x) == v,
                Err(ev) => r matches Err(e) && e@ == ev,
            },
        },
{
    match row {
        Some(u) => user_from_row(u),
        None => Err(AppError::Auth(AuthReason::NoSession)),
    }
}

/// A session is honoured until its expiry and refused after it.
pub proof fn session_valid_exactly_until_expiry(row: SessionRow, expires: i64, now: int)
    requires
        datetime_parsed(row.expires_at@) == Ok::<i64, Seq<char>>(expires),
    ensures
        now <= expires ==> session_check(Some(row), now) == Ok::<Seq<char>, ErrorView>(
            row.user_id@,
        ),
        now > expires ==> session_check(Some(row), now) == Err::<Seq<char>, ErrorView>(
            ErrorView::Auth(AuthReason::SessionExpired),
        ),
{
}

} // verus!
