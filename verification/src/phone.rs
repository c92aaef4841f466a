//! Phone-number validation through the `phonenumber` crate.

use vstd::prelude::*;

verus! {

/// What `phonenumber::parse(None, raw)` gives: whether the parsed number
/// is valid (`phonenumber::is_valid`) and its E.164 rendering, or the
/// parse error's message.
pub uninterp spec fn phone_parsed(raw: Seq<char>) -> Result<(bool, Seq<char>), Seq<char>>;

/// `phonenumber::parse(None, raw)`, converted to plain values: the
/// validity flag and the `Mode::E164` text of the number, or the
/// `ParseError` message.
#[verifier::external_body]
pub(crate) fn parse_phone(raw: &str) -> (r: Result<(bool, String), String>)
    ensures
        match r {
            Ok((valid, e164)) => phone_parsed(raw@) == Ok::<(bool, Seq<char>), Seq<char>>(
                (valid, e164@),
            ),
            Err(m) => phone_parsed(raw@) == Err::<(bool, Seq<char>), Seq<char>>(m@),
        },
{
    match phonenumber::parse(None, raw) {
        Ok(p) => Ok((phonenumber::is_valid(&p), p.format().mode(phonenumber::Mode::E164).to_string())),
        Err(e) => Err(e.to_string()),
    }
}

} // verus!
