//! Text payloads: decoding host bytes as UTF-8 and building message strings.

use vstd::prelude::*;
use vstd::utf8::decode_utf8;
use vstd::utf8::valid_utf8;

verus! {

/// Calls `String::from_utf8` of the standard library and, where it fails,
/// `FromUtf8Error::into_bytes` on its error.
///
/// Not proved: that the call succeeds exactly on the byte sequences that are
/// valid UTF-8, that the string it then gives holds the characters those
/// bytes encode, and that its error gives back the bytes it was handed.
#[verifier::external_body]
fn string_from_utf8(bytes: Vec<u8>) -> (r: Result<String, Vec<u8>>)
    ensures
        r is Ok <==> valid_utf8(bytes@),
        r matches Ok(s) ==> s@ == decode_utf8(bytes@),
        r matches Err(rest) ==> rest@ == bytes@,
{
    match String::from_utf8(bytes) {
        Ok(s) => Ok(s),
        Err(e) => Err(e.into_bytes()),
    }
}

/// Decodes a byte payload as text. Bytes that are not valid UTF-8 are
/// handed back as they came.
pub fn decode_text(bytes: Vec<u8>) -> (r: Result<String, Vec<u8>>)
    ensures
        r is Ok <==> valid_utf8(bytes@),
        r matches Ok(s) ==> s@ == decode_utf8(bytes@),
        r matches Err(rest) ==> rest@ == bytes@,
{
    string_from_utf8(bytes)
}

/// An owned copy of a string slice.
pub fn owned(s: &str) -> (r: String)
    ensures
        r@ == s@,
{
    s.to_owned()
}

/// `prefix` followed by `tail`.
pub fn joined(prefix: &str, tail: &str) -> (r: String)
    ensures
        r@ == prefix@ + tail@,
{
    let mut r = prefix.to_owned();
    r.append(tail);
    r
}

} // verus!
