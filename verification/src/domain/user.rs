//! User entity and the validated, normalized `Email` newtype.

use crate::text::{ascii_lower, to_ascii_lowercase, trim, trimmed, contains_char};
use vstd::prelude::*;
use vstd::utf8::encode_utf8;

verus! {

/// Longest accepted normalized email, in UTF-8 bytes.
pub const MAX_EMAIL_BYTES: usize = 320;

/// A registered user, created on first successful magic-code verify.
/// `created_at` is in microseconds since the Unix epoch.
#[derive(Debug, Clone)]
pub struct User {
    pub id: u128,
    pub email: String,
    pub created_at: i64,
}

/// A normalized email: trimmed, ASCII-lowercased, non-empty, at most 320
/// bytes, containing `@`.
#[derive(Debug, Clone, PartialEq, Eq, Hash)]
pub struct Email(String);

impl View for Email {
    type V = Seq<char>;

    closed spec fn view(&self) -> Seq<char> {
        self.0@
    }
}

/// What `Email::parse` gives for a raw string: the normalized text, or the
/// validation message.
pub open spec fn email_parse(raw: Seq<char>) -> Result<Seq<char>, Seq<char>> {
    let t = ascii_lower(trimmed(raw));
    if t.len() == 0 {
        Err("email must not be empty"@)
    } else if encode_utf8(t).len() > 320 {
        Err("email too long (>320 chars)"@)
    } else if !t.contains('@') {
        Err("email must contain '@'"@)
    } else {
        Ok(t)
    }
}

impl Email {
    /// Validate + normalize a raw email string.
    pub fn parse(raw: &str) -> (r: Result<Email, String>)
        ensures
            match r {
                Ok(e) => email_parse(raw@) == Ok::<Seq<char>, Seq<char>>(e@),
                Err(m) => email_parse(raw@) == Err::<Seq<char>, Seq<char>>(m@),
            },
            r is Ok <==> (ascii_lower(trimmed(raw@)).len() > 0 && encode_utf8(ascii_lower(trimmed(raw@))).len() <= 320
                && ascii_lower(trimmed(raw@)).contains('@')),
            r matches Ok(e) ==> e@ == ascii_lower(trimmed(raw@)),
    {
        let t = trim(raw);
        let lowered = to_ascii_lowercase(t);
        let s = lowered.as_str();
        if s.unicode_len() == 0 {
            return Err(String::from_str("email must not be empty"));
        }
        if crate::text::utf8_longer_than(s, MAX_EMAIL_BYTES) {
            return Err(String::from_str("email too long (>320 chars)"));
        }
        if !contains_char(s, '@') {
            return Err(String::from_str("email must contain '@'"));
        }
        Ok(Email(lowered))
    }

    /// Borrow the normalized inner string.
    pub fn as_str(&self) -> (r: &str)
        ensures
            r@ == self@,
    {
        self.0.as_str()
    }

    /// Consume into the underlying `String`.
    pub fn into_inner(self) -> (r: String)
        ensures
            r@ == self@,
    {
        self.0
    }
}

/// Normalization is a fixed point: the text of a parsed email parses to
/// itself.
pub proof fn email_parse_idempotent(raw: Seq<char>)
    requires
        email_parse(raw) is Ok,
    ensures
        email_parse(email_parse(raw)->Ok_0) == email_parse(raw),
{
    let t = email_parse(raw)->Ok_0;
    crate::text::lemma_lower_trimmed_fixed(raw);
    crate::text::lemma_ascii_lower_idempotent(trimmed(raw));
    assert(trimmed(t) == t);
    assert(ascii_lower(trimmed(t)) == t);
}

/// Exactly the three refusals: a raw email is accepted iff its trimmed,
/// ASCII-lowercased form is non-empty, at most 320 UTF-8 bytes and
/// contains `@`, and then it parses to that form; otherwise the refusal is
/// one of the three messages, in that order of checks.
pub proof fn email_accepted_iff_well_formed(raw: Seq<char>)
    ensures
        email_parse(raw) is Ok <==> (ascii_lower(trimmed(raw)).len() > 0 && encode_utf8(ascii_lower(trimmed(raw))).len() <= 320
            && ascii_lower(trimmed(raw)).contains('@')),
        (ascii_lower(trimmed(raw)).len() > 0 && encode_utf8(ascii_lower(trimmed(raw))).len() <= 320
            && ascii_lower(trimmed(raw)).contains('@')) ==> email_parse(raw) == Ok::<
            Seq<char>,
            Seq<char>,
        >(ascii_lower(trimmed(raw))),
        ascii_lower(trimmed(raw)).len() == 0 ==> email_parse(raw) == Err::<Seq<char>, Seq<char>>(
            "email must not be empty"@,
        ),
        ascii_lower(trimmed(raw)).len() > 0 && encode_utf8(ascii_lower(trimmed(raw))).len() > 320
            ==> email_parse(raw) == Err::<Seq<char>, Seq<char>>("email too long (>320 chars)"@),
        ascii_lower(trimmed(raw)).len() > 0 && encode_utf8(ascii_lower(trimmed(raw))).len() <= 320
            && !ascii_lower(trimmed(raw)).contains('@') ==> email_parse(raw) == Err::<
            Seq<char>,
            Seq<char>,
        >("email must contain '@'"@),
{
}

} // verus!
