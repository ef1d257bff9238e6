use vstd::prelude::*;

verus! {

/// What BASE64URL_NOPAD decoding makes of a byte string, where it is
/// valid; a function of the input alone.
pub uninterp spec fn base64url_nopad_decode(s: Seq<u8>) -> Option<Seq<u8>>;

/// Relies on data_encoding::BASE64URL_NOPAD.decode: decoding is a
/// function of the input bytes alone, and invalid input is refused.
#[verifier::external_body]
pub(crate) fn b64url_decode(input: &[u8]) -> (r: Option<Vec<u8>>)
    ensures
        r is Some <==> base64url_nopad_decode(input@) is Some,
        r matches Some(v) ==> base64url_nopad_decode(input@) == Some(v@),
{
    data_encoding::BASE64URL_NOPAD.decode(input).ok()
}

/// Relies on String::from_utf8: succeeds exactly on valid UTF-8 and
/// carries the bytes over unchanged.
#[verifier::external_body]
pub(crate) fn string_from_utf8(v: Vec<u8>) -> (r: Option<String>)
    ensures
        r is Some <==> vstd::utf8::valid_utf8(v@),
        r matches Some(s) ==> vstd::utf8::encode_utf8(s@) == v@,
{
    String::from_utf8(v).ok()
}

} // verus!
