//! Start-up checks on the configuration: the cookie key's strength and
//! the signing material derived from it.

use crate::crypto::{hex_decodable, hex_decode, hex_decode_error, hex_decoded};
use vstd::prelude::*;
use vstd::utf8::encode_utf8;

verus! {

/// Why a cookie key deserves a log line at start-up.
#[derive(Debug, Clone, Copy, PartialEq, Eq, Structural)]
pub enum CookieKeyWarning {
    /// Not 64 hex characters (32 bytes); carries the byte length. Logged
    /// as an error.
    WrongLength(usize),
    /// The all-zero development default. Logged as a warning.
    AllZero,
}

/// Check the configured cookie key: it must be 64 characters and should
/// not be the all-zero default.
pub fn warn_if_cookie_key_weak(hex_key: &str) -> (r: Option<CookieKeyWarning>)
    ensures
        (encode_utf8(hex_key@).len() as usize) != 64 ==> r == Some(
            CookieKeyWarning::WrongLength(encode_utf8(hex_key@).len() as usize),
        ),
        (encode_utf8(hex_key@).len() as usize) == 64 ==> r == (if forall|i: int|
            0 <= i < hex_key@.len() ==> #[trigger] hex_key@[i] == '0' {
            Some(CookieKeyWarning::AllZero)
        } else {
            None::<CookieKeyWarning>
        }),
{
    let len = hex_key.len();
    if len != 64 {
        return Some(CookieKeyWarning::WrongLength(len));
    }
    let n = hex_key.unicode_len();
    let mut i: usize = 0;
    while i < n
        invariant
            n == hex_key@.len(),
            i <= n,
            (encode_utf8(hex_key@).len() as usize) == 64,
            forall|k: int| 0 <= k < i ==> #[trigger] hex_key@[k] == '0',
        decreases n - i,
    {
        if hex_key.get_char(i) != '0' {
            return None;
        }
        i = i + 1;
    }
    Some(CookieKeyWarning::AllZero)
}

/// The 64 bytes of cookie signing material: the 32 bytes the hex key
/// decodes to, twice. Errors name the variable.
pub fn cookie_key_bytes(hex_key: &str) -> (r: Result<Vec<u8>, String>)
    ensures
        !hex_decodable(encode_utf8(hex_key@)) ==> (r matches Err(m) && m@ == "COOKIE_KEY hex: "@
            + hex_decode_error(encode_utf8(hex_key@))),
        hex_decodable(encode_utf8(hex_key@)) && hex_decoded(encode_utf8(hex_key@)).len() != 32 ==> (
        r matches Err(m) && m@ == "COOKIE_KEY must decode to 32 bytes"@),
        hex_decodable(encode_utf8(hex_key@)) && hex_decoded(encode_utf8(hex_key@)).len() == 32 ==> (
        r matches Ok(v) && v@ == hex_decoded(encode_utf8(hex_key@)) + hex_decoded(
            encode_utf8(hex_key@),
        )),
{
    let bytes = match hex_decode(hex_key) {
        Ok(b) => b,
        Err(e) => {
            let mut m = String::from_str("COOKIE_KEY hex: ");
            m.append(e.as_str());
            return Err(m);
        },
    };
    if bytes.len() != 32 {
        return Err(String::from_str("COOKIE_KEY must decode to 32 bytes"));
    }
    let mut buf: Vec<u8> = Vec::new();
    let mut i: usize = 0;
    while i < 64
        invariant
            bytes.len() == 32,
            i <= 64,
            buf@.len() == i,
            forall|k: int| 0 <= k < i ==> #[trigger] buf@[k] == bytes@[k % 32],
        decreases 64 - i,
    {
        buf.push(bytes[i % 32]);
        i = i + 1;
    }
    assert(buf@ =~= bytes@ + bytes@);
    Ok(buf)
}

} // verus!
