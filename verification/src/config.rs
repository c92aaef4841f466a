//! Runtime configuration: the raw environment values and how each knob is
//! resolved from them, defaults included. Reading the environment is
//! `app/`'s part; it hands the raw values in.

use crate::text::{ascii_lower, fixed_digits, push_char, str_eq, to_ascii_lowercase};
use vstd::prelude::*;

verus! {

/// Transport selection for outbound magic-code mail.
#[derive(Debug, Clone, Copy, PartialEq, Eq, Structural)]
pub enum EmailMode {
    /// Log the code to stdout (dev + CI).
    Stdout,
    /// Real SMTP relay.
    Smtp,
}

/// SMTP host/port/user/pass/from, only meaningful in [`EmailMode::Smtp`].
#[derive(Debug, Clone, Default)]
pub struct SmtpConfig {
    pub host: String,
    pub port: u16,
    pub user: String,
    pub pass: String,
    pub from: String,
}

/// The value of each configuration variable, `None` when unset (or not
/// valid Unicode).
#[derive(Debug, Clone, Default)]
pub struct RawEnv {
    pub bind_addr: Option<String>,
    pub database_url: Option<String>,
    pub wa_session_path: Option<String>,
    pub cookie_key: Option<String>,
    pub cookie_secure: Option<String>,
    pub session_ttl_days: Option<String>,
    pub auth_code_ttl_secs: Option<String>,
    pub rate_limit_codes_per_hour: Option<String>,
    pub frontend_origin: Option<String>,
    pub email_mode: Option<String>,
    pub smtp_host: Option<String>,
    pub smtp_port: Option<String>,
    pub smtp_user: Option<String>,
    pub smtp_pass: Option<String>,
    pub smtp_from: Option<String>,
}

/// Every env-configurable knob, resolved. `bind_addr` is the `host:port`
/// text; `app/` parses it as a socket address.
#[derive(Debug, Clone)]
pub struct Settings {
    pub bind_addr: String,
    pub database_url: String,
    pub wa_session_path: String,
    /// 32-byte cookie master key, hex-encoded (64 chars).
    pub cookie_key_hex: String,
    pub cookie_secure: bool,
    pub session_ttl_days: u32,
    pub auth_code_ttl_secs: u64,
    pub rate_limit_codes_per_hour: u32,
    pub frontend_origin: String,
    pub email_mode: EmailMode,
    pub smtp: SmtpConfig,
}

/// Whether a flag value reads as true.
pub open spec fn truthy(v: Seq<char>) -> bool {
    v == "1"@ || v == "true"@ || v == "TRUE"@ || v == "yes"@ || v == "on"@
}

/// A boolean variable: its truthiness when set, else the default.
pub open spec fn flag_value(raw: Option<Seq<char>>, default: bool) -> bool {
    match raw {
        Some(v) => truthy(v),
        None => default,
    }
}

/// The value of a sequence of decimal digits.
pub open spec fn decimal_value(d: Seq<char>) -> nat
    decreases d.len(),
{
    if d.len() == 0 {
        0
    } else {
        decimal_value(d.drop_last()) * 10 + ((d.last() as nat) - ('0' as nat)) as nat
    }
}

/// The digit part of an unsigned number text: without one leading `+`.
pub open spec fn unsigned_digits(s: Seq<char>) -> Seq<char> {
    if s.len() > 0 && s[0] == '+' {
        s.drop_first()
    } else {
        s
    }
}

/// What `str::parse` gives for an unsigned integer type whose maximum is
/// `max`: an optional `+`, then one or more ASCII digits whose value is at
/// most `max`.
pub open spec fn unsigned_parse(s: Seq<char>, max: nat) -> Option<nat> {
    let d = unsigned_digits(s);
    if d.len() > 0 && (forall|i: int| 0 <= i < d.len() ==> crate::text::is_ascii_digit(#[trigger] d[i]))
        && decimal_value(d) <= max {
        Some(decimal_value(d))
    } else {
        None
    }
}

/// A numeric variable: its parsed value when set and parseable, else the
/// default.
pub open spec fn number_value(raw: Option<Seq<char>>, max: nat, default: nat) -> nat {
    match raw {
        Some(v) => match unsigned_parse(v, max) {
            Some(n) => n,
            None => default,
        },
        None => default,
    }
}

/// The view of an optional string.
pub open spec fn raw_view(o: Option<String>) -> Option<Seq<char>> {
    crate::text::opt_view(o)
}

/// Reads `true` for `1`, `true`, `TRUE`, `yes`, `on`; an unset variable
/// gives the default.
pub fn env_bool(raw: Option<&str>, default: bool) -> (r: bool)
    ensures
        r == flag_value(
            match raw {
                Some(v) => Some(v@),
                None => None,
            },
            default,
        ),
        raw is None ==> r == default,
        raw matches Some(v) && (v@ == "1"@ || v@ == "true"@ || v@ == "TRUE"@ || v@ == "yes"@
            || v@ == "on"@) ==> r,
        raw matches Some(v) && !(v@ == "1"@ || v@ == "true"@ || v@ == "TRUE"@ || v@ == "yes"@
            || v@ == "on"@) ==> !r,
{
    match raw {
        Some(v) => str_eq(v, "1") || str_eq(v, "true") || str_eq(v, "TRUE") || str_eq(v, "yes")
            || str_eq(v, "on"),
        None => default,
    }
}

proof fn lemma_decimal_prefix(d: Seq<char>, i: int)
    requires
        0 <= i <= d.len(),
        forall|k: int| 0 <= k < d.len() ==> crate::text::is_ascii_digit(#[trigger] d[k]),
    ensures
        decimal_value(d.subrange(0, i)) <= decimal_value(d),
    decreases d.len() - i,
{
    if i < d.len() {
        lemma_decimal_prefix(d, i + 1);
        let p = d.subrange(0, i + 1);
        assert(p.drop_last() =~= d.subrange(0, i));
        assert(crate::text::is_ascii_digit(p.last()));
    } else {
        assert(d.subrange(0, i) =~= d);
    }
}

/// `str::parse::<uN>()` for an unsigned type whose maximum is `max`.
pub fn parse_unsigned(s: &str, max: u64) -> (r: Option<u64>)
    ensures
        match unsigned_parse(s@, max as nat) {
            Some(n) => r == Some(n as u64),
            None => r is None,
        },
{
    let n = s.unicode_len();
    let start: usize = if n > 0 && s.get_char(0) == '+' {
        1
    } else {
        0
    };
    let ghost d = unsigned_digits(s@);
    assert(d =~= s@.subrange(start as int, n as int));
    if start == n {
        return None;
    }
    let mut acc: u64 = 0;
    let mut i: usize = start;
    assert(d.subrange(0, 0) =~= Seq::<char>::empty());
    while i < n
        invariant
            n == s@.len(),
            start <= i <= n,
            d == s@.subrange(start as int, n as int),
            d == unsigned_digits(s@),
            acc as nat == decimal_value(d.subrange(0, i - start)),
            acc <= max,
            forall|k: int| 0 <= k < i - start ==> crate::text::is_ascii_digit(#[trigger] d[k]),
        decreases n - i,
    {
        let c = s.get_char(i);
        assert(c == d[i - start]);
        if !('0' <= c && c <= '9') {
            assert(!crate::text::is_ascii_digit(d[i - start]));
            return None;
        }
        let v = (c as u32 - '0' as u32) as u64;
        let ghost p = d.subrange(0, i - start + 1);
        assert(p.drop_last() =~= d.subrange(0, i - start));
        assert(decimal_value(p) == acc * 10 + v);
        if v > max || acc > (max - v) / 10 {
            proof {
                if v <= max {
                    assert(acc * 10 + v > max) by (nonlinear_arith)
                        requires
                            acc > (max - v) / 10,
                            v <= max,
                    ;
                }
                if forall|k: int| 0 <= k < d.len() ==> crate::text::is_ascii_digit(#[trigger] d[k]) {
                    lemma_decimal_prefix(d, i - start + 1);
                }
            }
            return None;
        }
        proof {
            assert(acc * 10 + v <= max) by (nonlinear_arith)
                requires
                    acc <= (max - v) / 10,
                    v <= max,
            ;
        }
        acc = acc * 10 + v;
        i = i + 1;
    }
    assert(d.subrange(0, n - start) =~= d);
    Some(acc)
}

/// `std::env::var(key).ok().and_then(|v| v.parse::<u32>().ok()).unwrap_or(default)`
/// on the raw value.
pub fn env_u32(raw: Option<&str>, default: u32) -> (r: u32)
    ensures
        r as nat == number_value(
            match raw {
                Some(v) => Some(v@),
                None => None,
            },
            u32::MAX as nat,
            default as nat,
        ),
{
    match raw {
        Some(v) => match parse_unsigned(v, u32::MAX as u64) {
            Some(n) => n as u32,
            None => default,
        },
        None => default,
    }
}

/// As [`env_u32`] for `u64`.
pub fn env_u64(raw: Option<&str>, default: u64) -> (r: u64)
    ensures
        r as nat == number_value(
            match raw {
                Some(v) => Some(v@),
                None => None,
            },
            u64::MAX as nat,
            default as nat,
        ),
{
    match raw {
        Some(v) => match parse_unsigned(v, u64::MAX) {
            Some(n) => n,
            None => default,
        },
        None => default,
    }
}

/// `smtp` in any ASCII case selects SMTP; anything else, or unset, stdout.
pub open spec fn email_mode_value(raw: Option<Seq<char>>) -> EmailMode {
    match raw {
        Some(v) => if ascii_lower(v) == "smtp"@ {
            EmailMode::Smtp
        } else {
            EmailMode::Stdout
        },
        None => EmailMode::Stdout,
    }
}

/// The email transport mode of an `EMAIL_MODE` value.
pub fn email_mode_from(raw: Option<&str>) -> (r: EmailMode)
    ensures
        r == email_mode_value(
            match raw {
                Some(v) => Some(v@),
                None => None,
            },
        ),
{
    match raw {
        Some(v) => {
            let l = to_ascii_lowercase(v);
            if str_eq(l.as_str(), "smtp") {
                EmailMode::Smtp
            } else {
                EmailMode::Stdout
            }
        },
        None => EmailMode::Stdout,
    }
}

/// The raw value, or the default text.
pub open spec fn text_value(raw: Option<Seq<char>>, default: Seq<char>) -> Seq<char> {
    match raw {
        Some(v) => v,
        None => default,
    }
}

fn or_default(raw: &Option<String>, default: &str) -> (r: String)
    ensures
        r@ == text_value(raw_view(*raw), default@),
{
    match raw {
        Some(v) => v.clone(),
        None => String::from_str(default),
    }
}

fn as_opt_str(raw: &Option<String>) -> (r: Option<&str>)
    ensures
        match r {
            Some(v) => raw_view(*raw) == Some(v@),
            None => raw_view(*raw) is None,
        },
{
    match raw {
        Some(v) => Some(v.as_str()),
        None => None,
    }
}

/// The development cookie key: 64 `0` characters.
pub open spec fn zero_key() -> Seq<char> {
    Seq::new(64, |i: int| '0')
}

fn zero_key_text() -> (r: String)
    ensures
        r@ == zero_key(),
{
    let mut r = String::new();
    let mut i: usize = 0;
    while i < 64
        invariant
            i <= 64,
            r@ == Seq::new(i as nat, |k: int| '0'),
        decreases 64 - i,
    {
        push_char(&mut r, '0');
        assert(r@ =~= Seq::new((i + 1) as nat, |k: int| '0'));
        i = i + 1;
    }
    r
}

impl Settings {
    /// Resolve every knob from the raw environment, with the defaults of
    /// an unset variable.
    pub fn resolve(raw: &RawEnv) -> (s: Settings)
        ensures
            s.bind_addr@ == text_value(raw_view(raw.bind_addr), "0.0.0.0:8080"@),
            s.database_url@ == text_value(raw_view(raw.database_url), "sqlite::memory:"@),
            s.wa_session_path@ == text_value(raw_view(raw.wa_session_path), "./wa-session"@),
            s.cookie_key_hex@ == text_value(raw_view(raw.cookie_key), zero_key()),
            s.cookie_secure == flag_value(raw_view(raw.cookie_secure), false),
            s.session_ttl_days as nat == number_value(
                raw_view(raw.session_ttl_days),
                u32::MAX as nat,
                30,
            ),
            s.auth_code_ttl_secs as nat == number_value(
                raw_view(raw.auth_code_ttl_secs),
                u64::MAX as nat,
                300,
            ),
            s.rate_limit_codes_per_hour as nat == number_value(
                raw_view(raw.rate_limit_codes_per_hour),
                u32::MAX as nat,
                5,
            ),
            s.frontend_origin@ == text_value(
                raw_view(raw.frontend_origin),
                "http://localhost:3000"@,
            ),
            s.email_mode == email_mode_value(raw_view(raw.email_mode)),
            s.smtp.host@ == text_value(raw_view(raw.smtp_host), ""@),
            s.smtp.port == (number_value(raw_view(raw.smtp_port), u32::MAX as nat, 587) as u16),
            s.smtp.user@ == text_value(raw_view(raw.smtp_user), ""@),
            s.smtp.pass@ == text_value(raw_view(raw.smtp_pass), ""@),
            s.smtp.from@ == text_value(raw_view(raw.smtp_from), "noreply@example.com"@),
    {
        let cookie_key_hex = match &raw.cookie_key {
            Some(v) => v.clone(),
            None => zero_key_text(),
        };
        let port = env_u32(as_opt_str(&raw.smtp_port), 587);
        Settings {
            bind_addr: or_default(&raw.bind_addr, "0.0.0.0:8080"),
            database_url: or_default(&raw.database_url, "sqlite::memory:"),
            wa_session_path: or_default(&raw.wa_session_path, "./wa-session"),
            cookie_key_hex,
            cookie_secure: env_bool(as_opt_str(&raw.cookie_secure), false),
            session_ttl_days: env_u32(as_opt_str(&raw.session_ttl_days), 30),
            auth_code_ttl_secs: env_u64(as_opt_str(&raw.auth_code_ttl_secs), 300),
            rate_limit_codes_per_hour: env_u32(as_opt_str(&raw.rate_limit_codes_per_hour), 5),
            frontend_origin: or_default(&raw.frontend_origin, "http://localhost:3000"),
            email_mode: email_mode_from(as_opt_str(&raw.email_mode)),
            smtp: SmtpConfig {
                host: or_default(&raw.smtp_host, ""),
                port: port as u16,
                user: or_default(&raw.smtp_user, ""),
                pass: or_default(&raw.smtp_pass, ""),
                from: or_default(&raw.smtp_from, "noreply@example.com"),
            },
        }
    }
}

/// A flag variable reads as true exactly when it is set to one of `1`,
/// `true`, `TRUE`, `yes`, `on`; any other value reads as false, and an
/// unset variable gives the default.
pub proof fn flag_true_exactly_for_listed_words(v: Seq<char>, default: bool)
    ensures
        v == "1"@ ==> flag_value(Some(v), default),
        v == "true"@ ==> flag_value(Some(v), default),
        v == "TRUE"@ ==> flag_value(Some(v), default),
        v == "yes"@ ==> flag_value(Some(v), default),
        v == "on"@ ==> flag_value(Some(v), default),
        !(v == "1"@ || v == "true"@ || v == "TRUE"@ || v == "yes"@ || v == "on"@) ==> !flag_value(
            Some(v),
            default,
        ),
        flag_value(None, default) == default,
{
}

/// Ten to the power `w`.
pub open spec fn ten_to(w: nat) -> nat
    decreases w,
{
    if w == 0 {
        1
    } else {
        10 * ten_to((w - 1) as nat)
    }
}

proof fn lemma_ten_to_positive(w: nat)
    ensures
        ten_to(w) > 0,
    decreases w,
{
    if w > 0 {
        lemma_ten_to_positive((w - 1) as nat);
    }
}

/// The `w` zero-padded decimal digits of `v` are ASCII digits whose value
/// is `v` modulo ten to the `w`.
proof fn lemma_decimal_text_value(v: nat, w: nat)
    ensures
        fixed_digits(v, 10, w).len() == w,
        forall|i: int| 0 <= i < w ==> crate::text::is_ascii_digit(#[trigger] fixed_digits(v, 10, w)[i]),
        decimal_value(fixed_digits(v, 10, w)) == v % ten_to(w),
    decreases w,
{
    if w > 0 {
        let pw = (w - 1) as nat;
        lemma_decimal_text_value(v / 10, pw);
        lemma_ten_to_positive(pw);
        let s = fixed_digits(v, 10, w);
        let init = fixed_digits(v / 10, 10, pw);
        assert(s.drop_last() =~= init);
        assert forall|i: int| 0 <= i < w implies crate::text::is_ascii_digit(#[trigger] s[i]) by {
            if i < pw {
                assert(s[i] == init[i]);
            }
        }
        assert((s.last() as nat) - ('0' as nat) == v % 10);
        vstd::arithmetic::div_mod::lemma_mod_breakdown(v as int, 10, ten_to(pw) as int);
    }
}

/// A numeric variable reads as the number its decimal text writes, with
/// or without leading zeros and with or without one leading `+`, whenever
/// that number fits the type; a number past the type's maximum, or an
/// unset variable, gives the default.
pub proof fn number_reads_its_decimal_text(n: nat, w: nat, max: nat, default: nat)
    requires
        0 < w,
        n < ten_to(w),
    ensures
        n <= max ==> number_value(Some(fixed_digits(n, 10, w)), max, default) == n,
        n <= max ==> number_value(Some("+"@ + fixed_digits(n, 10, w)), max, default) == n,
        n > max ==> number_value(Some(fixed_digits(n, 10, w)), max, default) == default,
        number_value(None, max, default) == default,
{
    lemma_decimal_text_value(n, w);
    let d = fixed_digits(n, 10, w);
    assert(n % ten_to(w) == n) by (nonlinear_arith)
        requires
            n < ten_to(w),
    ;
    assert(crate::text::is_ascii_digit(d[0]));
    assert(unsigned_digits(d) == d);
    reveal_strlit("+");
    let p = "+"@ + d;
    assert(p[0] == '+');
    assert(p.drop_first() =~= d);
    assert(unsigned_digits(p) == d);
}

/// `EMAIL_MODE` selects SMTP for the word `smtp` in lower or upper case,
/// and stdout when unset or set to anything whose lowercase is not `smtp`
/// (such as `stdout`).
pub proof fn email_mode_smtp_only_for_smtp(v: Seq<char>)
    ensures
        v == "smtp"@ ==> email_mode_value(Some(v)) == EmailMode::Smtp,
        v == "SMTP"@ ==> email_mode_value(Some(v)) == EmailMode::Smtp,
        ascii_lower(v) != "smtp"@ ==> email_mode_value(Some(v)) == EmailMode::Stdout,
        email_mode_value(None) == EmailMode::Stdout,
{
    reveal_strlit("smtp");
    reveal_strlit("SMTP");
    if v == "smtp"@ {
        assert(ascii_lower(v) =~= "smtp"@);
    }
    if v == "SMTP"@ {
        assert(ascii_lower(v) =~= "smtp"@);
    }
}

} // verus!
