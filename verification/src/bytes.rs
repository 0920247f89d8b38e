//! From the bytes that a command wrote to the text that the banner shows.

use crate::text::{trim, trimmed};
use vstd::prelude::*;
use vstd::utf8::{decode_utf8, valid_utf8};

verus! {

/// The text that lossy decoding makes of `bytes`: what the well-formed UTF-8
/// in them spells, with U+FFFD in place of each ill-formed part.
pub uninterp spec fn lossy_text(bytes: Seq<u8>) -> Seq<char>;

/// Calls `String::from_utf8_lossy`. Trusted: the result is a function of the
/// bytes alone, named `lossy_text`, and for bytes that are well-formed UTF-8
/// it is the text they encode, with nothing replaced.
#[verifier::external_body]
fn decode_lossy(bytes: &Vec<u8>) -> (r: String)
    ensures
        r@ == lossy_text(bytes@),
        valid_utf8(bytes@) ==> r@ == decode_utf8(bytes@),
{
    String::from_utf8_lossy(bytes).into_owned()
}

/// Calls `String::from_utf8`. Trusted: it succeeds exactly on well-formed
/// UTF-8, and then gives the text that the bytes encode.
#[verifier::external_body]
pub(crate) fn decode_strict(bytes: Vec<u8>) -> (r: Option<String>)
    ensures
        r is Some <==> valid_utf8(bytes@),
        r matches Some(s) ==> s@ == decode_utf8(bytes@),
{
    String::from_utf8(bytes).ok()
}

/// The text of a command's output: decoded leniently, then trimmed.
pub fn stdout_str(out: &Vec<u8>) -> (r: String)
    ensures
        r@ == trim(lossy_text(out@)),
        valid_utf8(out@) ==> r@ == trim(decode_utf8(out@)),
{
    let decoded = decode_lossy(out);
    trimmed(decoded.as_str())
}

} // verus!
