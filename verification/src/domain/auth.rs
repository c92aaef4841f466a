//! Auth-flow domain types: magic codes, pending code records and server
//! sessions.

use crate::text::{is_ascii_digit, trim, trimmed};
use vstd::prelude::*;
use vstd::utf8::encode_utf8;

verus! {

/// Whether a trimmed code text is exactly six ASCII digits.
pub open spec fn is_six_digits(t: Seq<char>) -> bool {
    &&& encode_utf8(t).len() == 6
    &&& forall|i: int| 0 <= i < t.len() ==> is_ascii_digit(#[trigger] t[i])
}

/// What `MagicCode::parse` gives for a raw string.
pub open spec fn magic_code_parse(raw: Seq<char>) -> Result<Seq<char>, Seq<char>> {
    let t = trimmed(raw);
    if is_six_digits(t) {
        Ok(t)
    } else {
        Err("code must be exactly 6 digits"@)
    }
}

/// Six-digit ASCII magic code. Its debug and display renderings redact the
/// digits.
#[derive(Clone, PartialEq, Eq)]
pub struct MagicCode(String);

impl View for MagicCode {
    type V = Seq<char>;

    closed spec fn view(&self) -> Seq<char> {
        self.0@
    }
}

/// Six ASCII digits take six bytes, so the byte test is the length test.
pub proof fn lemma_digits_bytes(t: Seq<char>)
    requires
        forall|i: int| 0 <= i < t.len() ==> is_ascii_digit(#[trigger] t[i]),
    ensures
        encode_utf8(t).len() == t.len(),
{
    assert(vstd::utf8::is_ascii_chars(t)) by {
        assert forall|i: int| 0 <= i < t.len() implies '\0' <= #[trigger] t[i] <= '\u{7f}' by {
            assert(is_ascii_digit(t[i]));
        }
    }
    vstd::utf8::is_ascii_chars_encode_utf8(t);
}

impl MagicCode {
    /// Validate + wrap a raw 6-digit code string.
    pub fn parse(raw: &str) -> (r: Result<MagicCode, String>)
        ensures
            match r {
                Ok(c) => magic_code_parse(raw@) == Ok::<Seq<char>, Seq<char>>(c@),
                Err(m) => magic_code_parse(raw@) == Err::<Seq<char>, Seq<char>>(m@),
            },
    {
        let s = trim(raw);
        let n = s.unicode_len();
        let mut all_digits = true;
        let mut i: usize = 0;
        while i < n
            invariant
                n == s@.len(),
                i <= n,
                all_digits == (forall|k: int| 0 <= k < i ==> is_ascii_digit(#[trigger] s@[k])),
            decreases n - i,
        {
            let c = s.get_char(i);
            if !('0' <= c && c <= '9') {
                all_digits = false;
            }
            proof {
                if !all_digits {
                    if is_ascii_digit(c) {
                        assert(!(forall|k: int| 0 <= k < i ==> is_ascii_digit(#[trigger] s@[k])));
                    }
                    assert(!(forall|k: int| 0 <= k < i + 1 ==> is_ascii_digit(#[trigger] s@[k])))
                        by {
                        if !is_ascii_digit(c) {
                            assert(s@[i as int] == c);
                        } else {
                            let k0 = choose|k: int| 0 <= k < i && !is_ascii_digit(#[trigger] s@[k]);
                            assert(0 <= k0 < i + 1);
                        }
                    }
                }
            }
            i = i + 1;
        }
        if !all_digits || n != 6 {
            proof {
                if all_digits {
                    lemma_digits_bytes(s@);
                }
            }
            return Err(String::from_str("code must be exactly 6 digits"));
        }
        proof {
            lemma_digits_bytes(s@);
        }
        Ok(MagicCode(String::from_str(s)))
    }

    /// Build from a freshly-generated code string, skipping validation.
    pub(crate) fn from_trusted(s: String) -> (r: MagicCode)
        ensures
            r@ == s@,
    {
        MagicCode(s)
    }

    /// Borrow the raw digits (only for hashing and email send, never logs).
    pub fn expose(&self) -> (r: &str)
        ensures
            r@ == self@,
    {
        self.0.as_str()
    }

    /// The `Debug` rendering: the digits are redacted.
    pub fn debug_string(&self) -> (r: String)
        ensures
            r@ == "MagicCode(******)"@,
    {
        String::from_str("MagicCode(******)")
    }

    /// The `Display` rendering: the digits are redacted.
    pub fn to_string(&self) -> (r: String)
        ensures
            r@ == "******"@,
    {
        String::from_str("******")
    }
}

/// A code is accepted exactly when its trimmed text is six characters,
/// each an ASCII digit `0`..`9`, and then it is that text.
pub proof fn magic_code_accepted_iff_six_ascii_digits(raw: Seq<char>)
    ensures
        magic_code_parse(raw) is Ok <==> (trimmed(raw).len() == 6 && forall|i: int|
            0 <= i < trimmed(raw).len() ==> '0' <= #[trigger] trimmed(raw)[i] <= '9'),
        magic_code_parse(raw) is Ok ==> magic_code_parse(raw) == Ok::<Seq<char>, Seq<char>>(
            trimmed(raw),
        ),
        magic_code_parse(raw) is Err ==> magic_code_parse(raw) == Err::<Seq<char>, Seq<char>>(
            "code must be exactly 6 digits"@,
        ),
{
    let t = trimmed(raw);
    if forall|i: int| 0 <= i < t.len() ==> '0' <= #[trigger] t[i] <= '9' {
        assert forall|i: int| 0 <= i < t.len() implies is_ascii_digit(#[trigger] t[i]) by {
            assert('0' <= t[i] <= '9');
        }
        lemma_digits_bytes(t);
    }
    if magic_code_parse(raw) is Ok {
        assert forall|i: int| 0 <= i < t.len() implies '0' <= #[trigger] t[i] <= '9' by {
            assert(is_ascii_digit(t[i]));
        }
        lemma_digits_bytes(t);
    }
}

/// A DB-persisted pending code record. `code_hash` is the argon2id PHC
/// string of the code; times are microseconds since the Unix epoch.
#[derive(Debug, Clone)]
pub struct AuthCode {
    pub id: u128,
    pub email: String,
    pub code_hash: String,
    pub expires_at: i64,
    pub consumed: bool,
    pub created_at: i64,
}

/// A DB-persisted server session. `token` is 32 random bytes as 64
/// lowercase hex characters and serves as the cookie value.
#[derive(Debug, Clone)]
pub struct AuthSession {
    pub token: String,
    pub user_id: u128,
    pub created_at: i64,
    pub expires_at: i64,
}

} // verus!
