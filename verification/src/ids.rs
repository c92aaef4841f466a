//! UUIDs as 128-bit integers (big-endian byte order, as `Uuid::as_u128`),
//! and the `uuid` calls that make, parse and render them.

use crate::text::fixed_digits;
use vstd::prelude::*;

verus! {

/// Version 4, RFC 4122 variant: the bits `Uuid::new_v4` fixes.
pub open spec fn is_v4(u: u128) -> bool {
    &&& (u >> 76u128) & 0xfu128 == 4
    &&& (u >> 62u128) & 0x3u128 == 2
}

/// What `uuid::Uuid::parse_str` gives for a text: the value, or the
/// `uuid::Error` message.
pub uninterp spec fn uuid_parsed(s: Seq<char>) -> Result<u128, Seq<char>>;

/// `uuid::Uuid::new_v4().as_u128()`. The value is random; stated is what
/// `new_v4` fixes of every outcome: version 4 and the RFC 4122 variant.
#[verifier::external_body]
pub(crate) fn new_uuid() -> (u: u128)
    ensures
        is_v4(u),
{
    uuid::Uuid::new_v4().as_u128()
}

/// `uuid::Uuid::parse_str(s)` as an integer, or the error's message.
#[verifier::external_body]
pub(crate) fn parse_uuid(s: &str) -> (r: Result<u128, String>)
    ensures
        match r {
            Ok(u) => uuid_parsed(s@) == Ok::<u128, Seq<char>>(u),
            Err(m) => uuid_parsed(s@) == Err::<u128, Seq<char>>(m@),
        },
{
    match uuid::Uuid::parse_str(s) {
        Ok(u) => Ok(u.as_u128()),
        Err(e) => Err(e.to_string()),
    }
}

/// The hyphenated lowercase text of a UUID (8-4-4-4-12 hex digits).
pub open spec fn hyphenated(u: u128) -> Seq<char> {
    let d = fixed_digits(u as nat, 16, 32);
    d.subrange(0, 8) + "-"@ + d.subrange(8, 12) + "-"@ + d.subrange(12, 16) + "-"@ + d.subrange(
        16,
        20,
    ) + "-"@ + d.subrange(20, 32)
}

/// `Uuid::from_u128(u).to_string()`: the hyphenated lowercase text, which
/// `Uuid::parse_str` reads back (it accepts the hyphenated form).
#[verifier::external_body]
pub(crate) fn uuid_hyphenated(u: u128) -> (r: String)
    ensures
        r@ == hyphenated(u),
        (uuid_parsed(r@) == Ok::<u128, Seq<char>>(u)),
{
    uuid::Uuid::from_u128(u).to_string()
}

/// `Uuid::from_u128(u).simple().to_string()`: the 32 lowercase hex digits
/// of the UUID, most significant first.
#[verifier::external_body]
pub(crate) fn uuid_simple(u: u128) -> (r: String)
    ensures
        r@ == fixed_digits(u as nat, 16, 32),
{
    uuid::Uuid::from_u128(u).simple().to_string()
}

} // verus!
