//! Chat rows and the validated WhatsApp `Jid` newtype.

use crate::text::{contains_char, str_eq, trim, trimmed};
use vstd::prelude::*;

verus! {

/// WhatsApp JID (Jabber ID): always `user@s.whatsapp.net` or `group@g.us`,
/// with a non-empty local part free of `@`.
#[derive(Debug, Clone, PartialEq, Eq, Hash)]
pub struct Jid(String);

impl View for Jid {
    type V = Seq<char>;

    closed spec fn view(&self) -> Seq<char> {
        self.0@
    }
}

/// Domain of a user JID.
pub const USER_DOMAIN: &'static str = "@s.whatsapp.net";

/// Domain of a group JID.
pub const GROUP_DOMAIN: &'static str = "@g.us";

/// Whether `t` is a non-empty local part free of `@` followed by `domain`.
pub open spec fn in_domain(t: Seq<char>, domain: Seq<char>) -> bool {
    &&& t.len() > domain.len()
    &&& t.subrange(t.len() - domain.len(), t.len() as int) == domain
    &&& !t.subrange(0, t.len() - domain.len()).contains('@')
}

/// What `Jid::parse` gives for a raw string: the trimmed text, or the
/// validation message.
pub open spec fn jid_parse(raw: Seq<char>) -> Result<Seq<char>, Seq<char>> {
    let t = trimmed(raw);
    if t.len() == 0 {
        Err("jid must not be empty"@)
    } else if !t.contains('@') {
        Err("jid must contain '@'"@)
    } else if !(in_domain(t, USER_DOMAIN@) || in_domain(t, GROUP_DOMAIN@)) {
        Err("jid must be user@s.whatsapp.net or group@g.us"@)
    } else {
        Ok(t)
    }
}

/// Whether `t` is a non-empty `@`-free local part followed by `domain`.
fn is_in_domain(t: &str, domain: &str) -> (r: bool)
    ensures
        r == in_domain(t@, domain@),
{
    let n = t.unicode_len();
    let m = domain.unicode_len();
    if n <= m {
        return false;
    }
    let tail = t.substring_char(n - m, n);
    let local = t.substring_char(0, n - m);
    str_eq(tail, domain) && !contains_char(local, '@')
}

impl Jid {
    /// Validate + wrap a raw JID string.
    pub fn parse(raw: &str) -> (r: Result<Jid, String>)
        ensures
            match r {
                Ok(j) => jid_parse(raw@) == Ok::<Seq<char>, Seq<char>>(j@),
                Err(m) => jid_parse(raw@) == Err::<Seq<char>, Seq<char>>(m@),
            },
    {
        let t = trim(raw);
        if t.unicode_len() == 0 {
            return Err(String::from_str("jid must not be empty"));
        }
        if !contains_char(t, '@') {
            return Err(String::from_str("jid must contain '@'"));
        }
        if !(is_in_domain(t, USER_DOMAIN) || is_in_domain(t, GROUP_DOMAIN)) {
            return Err(String::from_str("jid must be user@s.whatsapp.net or group@g.us"));
        }
        Ok(Jid(String::from_str(t)))
    }

    /// Borrow the underlying string.
    pub fn as_str(&self) -> (r: &str)
        ensures
            r@ == self@,
    {
        self.0.as_str()
    }

    /// Consume into the underlying `String`.
    pub fn into_inner(self) -> (r: String)
        ensures
            r@ == self@,
    {
        self.0
    }
}

/// The text of a parsed JID parses to itself.
pub proof fn jid_parse_idempotent(raw: Seq<char>)
    requires
        jid_parse(raw) is Ok,
    ensures
        jid_parse(jid_parse(raw)->Ok_0) == jid_parse(raw),
{
    crate::text::lemma_trimmed_idempotent(raw);
}

/// A JID is accepted exactly when its trimmed text is a non-empty local
/// part free of `@` followed by `@s.whatsapp.net` or by `@g.us`, and then
/// it is that trimmed text.
pub proof fn jid_accepted_iff_whatsapp_shape(raw: Seq<char>, local: Seq<char>)
    ensures
        trimmed(raw) == local + "@s.whatsapp.net"@ && local.len() > 0 && !local.contains('@')
            ==> jid_parse(raw) == Ok::<Seq<char>, Seq<char>>(trimmed(raw)),
        trimmed(raw) == local + "@g.us"@ && local.len() > 0 && !local.contains('@') ==> jid_parse(
            raw,
        ) == Ok::<Seq<char>, Seq<char>>(trimmed(raw)),
        jid_parse(raw) is Ok ==> exists|u: Seq<char>|
            #![trigger u + "@s.whatsapp.net"@]
            #![trigger u + "@g.us"@]
            u.len() > 0 && !u.contains('@') && (trimmed(raw) == u + "@s.whatsapp.net"@
                || trimmed(raw) == u + "@g.us"@),
{
    reveal_strlit("@s.whatsapp.net");
    reveal_strlit("@g.us");
    let t = trimmed(raw);
    let us = "@s.whatsapp.net"@;
    let gs = "@g.us"@;
    if t == local + us && local.len() > 0 && !local.contains('@') {
        assert(t.subrange(t.len() - us.len(), t.len() as int) =~= us);
        assert(t.subrange(0, t.len() - us.len()) =~= local);
        assert(t[local.len() as int] == '@');
    }
    if t == local + gs && local.len() > 0 && !local.contains('@') {
        assert(t.subrange(t.len() - gs.len(), t.len() as int) =~= gs);
        assert(t.subrange(0, t.len() - gs.len()) =~= local);
        assert(t[local.len() as int] == '@');
    }
    if jid_parse(raw) is Ok {
        if in_domain(t, USER_DOMAIN@) {
            let u = t.subrange(0, t.len() - us.len());
            assert(t =~= u + us);
        } else {
            let u = t.subrange(0, t.len() - gs.len());
            assert(t =~= u + gs);
        }
    }
}

/// A chat row as stored in `chats`. Ids are UUIDs as 128-bit integers;
/// times are microseconds since the Unix epoch.
#[derive(Debug, Clone)]
pub struct Chat {
    pub id: u128,
    pub wa_jid: String,
    pub display_name: String,
    pub last_message_at: Option<i64>,
    pub created_at: i64,
}

} // verus!
