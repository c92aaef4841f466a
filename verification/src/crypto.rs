//! Randomness, hex coding and argon2id password hashing, each a call into
//! its outside crate.

use crate::text::hex_lower;
use rand::RngCore;
use argon2::password_hash::{PasswordHash, PasswordHasher, PasswordVerifier, SaltString};
use vstd::prelude::*;
use vstd::utf8::encode_utf8;

verus! {

/// The value of one hex digit byte (`0-9`, `a-f`, `A-F`), as `hex` reads it.
pub open spec fn hex_value(b: u8) -> Option<u8> {
    if 0x30 <= b <= 0x39 {
        Some((b - 0x30) as u8)
    } else if 0x61 <= b <= 0x66 {
        Some((b - 0x61 + 10) as u8)
    } else if 0x41 <= b <= 0x46 {
        Some((b - 0x41 + 10) as u8)
    } else {
        None
    }
}

/// Whether `hex::decode` accepts the bytes: an even number of hex digits.
pub open spec fn hex_decodable(bytes: Seq<u8>) -> bool {
    &&& bytes.len() % 2 == 0
    &&& forall|i: int| 0 <= i < bytes.len() ==> (#[trigger] hex_value(bytes[i])) is Some
}

/// The bytes `hex::decode` produces from decodable input: each pair of
/// digits, high nibble first.
pub open spec fn hex_decoded(bytes: Seq<u8>) -> Seq<u8> {
    Seq::new(
        bytes.len() / 2,
        |i: int| (hex_value(bytes[2 * i])->0 * 16 + hex_value(bytes[2 * i + 1])->0) as u8,
    )
}

/// The message of the `hex::FromHexError` for undecodable input.
pub uninterp spec fn hex_decode_error(bytes: Seq<u8>) -> Seq<char>;

/// Whether argon2 `verify_password` accepts `password` against the PHC
/// string `phc` (the string parses as a `PasswordHash` and the recomputed
/// output matches).
pub uninterp spec fn argon2_accepts(password: Seq<u8>, phc: Seq<char>) -> bool;

/// The start of every PHC string `Argon2::default()` writes: algorithm
/// argon2id, version 19, and the default costs (19 MiB, 2 passes, 1 lane),
/// followed by the salt and the hash.
pub open spec fn argon2id_default_prefix() -> Seq<char> {
    "$argon2id$v=19$m=19456,t=2,p=1$"@
}

/// Whether a text can be a PHC string at all: `PasswordHash::new` refuses
/// an empty text and one whose first field is not empty (no leading `$`).
pub open spec fn phc_shaped(s: Seq<char>) -> bool {
    s.len() > 0 && s[0] == '$'
}

/// The longest password argon2 hashes (`argon2::MAX_PWD_LEN`).
pub open spec fn argon2_max_pwd_len() -> nat {
    0xFFFF_FFFF
}

/// `rand::rngs::OsRng.next_u32()`. Random; nothing is stated of the value.
#[verifier::external_body]
pub(crate) fn random_u32() -> u32 {
    rand::rngs::OsRng.next_u32()
}

/// 32 bytes from `rand::rngs::OsRng.fill_bytes`. Random; stated is the
/// length.
#[verifier::external_body]
pub(crate) fn random_bytes_32() -> (b: Vec<u8>)
    ensures
        b.len() == 32,
{
    let mut buf = [0u8; 32];
    rand::rngs::OsRng.fill_bytes(&mut buf);
    buf.to_vec()
}

/// `hex::encode`: lowercase hex, two digits per byte, high nibble first.
#[verifier::external_body]
pub(crate) fn hex_encode(bytes: &[u8]) -> (r: String)
    ensures
        r@ == hex_lower(bytes@),
{
    hex::encode(bytes)
}

/// `hex::decode` of the UTF-8 bytes of `s`; the error is the
/// `FromHexError` message.
#[verifier::external_body]
pub(crate) fn hex_decode(s: &str) -> (r: Result<Vec<u8>, String>)
    ensures
        match r {
            Ok(v) => hex_decodable(encode_utf8(s@)) && v@ == hex_decoded(encode_utf8(s@)),
            Err(m) => !hex_decodable(encode_utf8(s@)) && m@ == hex_decode_error(encode_utf8(s@)),
        },
{
    match hex::decode(s) {
        Ok(v) => Ok(v),
        Err(e) => Err(e.to_string()),
    }
}

/// argon2id with default parameters over the UTF-8 bytes of `password`,
/// with a fresh `SaltString::generate(OsRng)` salt, as a PHC string; the
/// error is the `password_hash::Error` message. The salt is random, so the
/// string is not named. Stated: it starts with the argon2id default prefix
/// (`PasswordHash`'s `Display` writes `$alg$v=..$params$salt$hash`), the
/// same password is accepted by `verify_password`, and with the default
/// parameters and a generated 16-byte salt the only error `hash_password`
/// returns is `PwdTooLong`, so a password of at most `MAX_PWD_LEN` bytes is
/// hashed.
#[verifier::external_body]
pub(crate) fn argon2_hash(password: &str) -> (r: Result<String, String>)
    ensures
        encode_utf8(password@).len() <= argon2_max_pwd_len() ==> (r is Ok),
        r matches Ok(h) ==> (argon2_accepts(encode_utf8(password@), h@)
            && h@.len() > argon2id_default_prefix().len()
            && h@.subrange(0, argon2id_default_prefix().len() as int) == argon2id_default_prefix()),
{
    let salt = SaltString::generate(&mut argon2::password_hash::rand_core::OsRng);
    match argon2::Argon2::default().hash_password(password.as_bytes(), &salt) {
        Ok(h) => Ok(h.to_string()),
        Err(e) => Err(e.to_string()),
    }
}

/// `Argon2::default().verify_password(password, &PasswordHash::new(phc)?)`
/// succeeds; a PHC string that does not parse is not accepted. Stated
/// beyond the name: a text without a leading `$` never parses, so it is
/// refused. Whether a second password could match the same hash (an
/// argon2 collision) is left unsaid: nothing in the source rules it out.
#[verifier::external_body]
pub(crate) fn argon2_verify(password: &str, phc: &str) -> (r: bool)
    ensures
        r == argon2_accepts(encode_utf8(password@), phc@),
        !phc_shaped(phc@) ==> !r,
{
    match PasswordHash::new(phc) {
        Ok(parsed) => argon2::Argon2::default().verify_password(password.as_bytes(), &parsed).is_ok(),
        Err(_) => false,
    }
}

} // verus!
