//! Host names as text: the step from raw bytes to a `String` and back.

use vstd::prelude::*;
use vstd::string::StringSliceAdditionalSpecFns;
use vstd::utf8::{decode_utf8, encode_utf8, valid_utf8};
use vstd::utf8::{encode_utf8_decode_utf8, encode_utf8_valid_utf8};

verus! {

/// `std::str::from_utf8`: the bytes are accepted exactly when they are valid
/// UTF-8, and the string slice that comes back is made of those same bytes.
#[verifier::external_body]
fn str_from_utf8(bytes: &[u8]) -> (r: Option<&str>)
    ensures
        r is Some <==> valid_utf8(bytes@),
        r matches Some(s) ==> s.spec_bytes() == bytes@,
{
    match std::str::from_utf8(bytes) {
        Ok(s) => Some(s),
        Err(_) => None,
    }
}

/// The text that `bytes` encode, if they are valid UTF-8.
pub open spec fn spec_decode_name(bytes: Seq<u8>) -> Option<Seq<char>> {
    if valid_utf8(bytes) {
        Some(decode_utf8(bytes))
    } else {
        None
    }
}

/// Reads `bytes` as UTF-8 text.
pub fn decode_name(bytes: &[u8]) -> (r: Option<String>)
    ensures
        r is Some <==> spec_decode_name(bytes@) is Some,
        r matches Some(s) ==> Some(s@) == spec_decode_name(bytes@),
{
    match str_from_utf8(bytes) {
        Some(s) => {
            proof {
                encode_utf8_decode_utf8(s@);
            }
            Some(s.to_owned())
        },
        None => None,
    }
}

/// Encoding a text and decoding the bytes gives the text back.
pub proof fn lemma_decode_encoded_name(name: Seq<char>)
    ensures
        spec_decode_name(encode_utf8(name)) == Some(name),
{
    encode_utf8_valid_utf8(name);
    encode_utf8_decode_utf8(name);
}

} // verus!
