//! Trusted text encodings used in the middle of the protocol logic:
//! standard base64 for configuration blobs carried inside JSON parameter
//! payloads, and percent-encoding for archive names carried in URL paths.
//! Both results are functions of the input alone, so they are given names
//! that the callers' contracts speak of.

use vstd::prelude::*;

verus! {

/// The standard, padded base64 rendering of `bytes`.
pub uninterp spec fn base64_of(bytes: Seq<u8>) -> Seq<char>;

/// The bytes that `text` denotes in standard base64, if it is well-formed.
pub uninterp spec fn base64_decoded_of(text: Seq<char>) -> Option<Seq<u8>>;

/// The percent-encoded rendering of `text`.
pub uninterp spec fn percent_encoded_of(text: Seq<char>) -> Seq<char>;

/// The characters standard base64 output is made of.
pub open spec fn base64_alphabet(c: char) -> bool {
    ('A' <= c && c <= 'Z') || ('a' <= c && c <= 'z') || ('0' <= c && c <= '9') || c == '+' || c
        == '/' || c == '='
}

/// The characters that percent-encoding passes through unchanged.
pub open spec fn url_unreserved(c: char) -> bool {
    ('A' <= c && c <= 'Z') || ('a' <= c && c <= 'z') || ('0' <= c && c <= '9') || c == '-' || c
        == '_' || c == '.' || c == '~'
}

/// Relies on base64::encode: the standard, padded base64 rendering of the
/// input, over the alphabet `A`-`Z` `a`-`z` `0`-`9` `+` `/` with `=`
/// padding; base64::decode reads it back to exactly the input bytes.
#[verifier::external_body]
pub fn base64_encode(data: &Vec<u8>) -> (r: String)
    ensures
        r@ == base64_of(data@),
        forall|i: int| 0 <= i < r@.len() ==> base64_alphabet(r@[i]),
        base64_decoded_of(r@) == Some(data@),
{
    base64::encode(data)
}

/// Relies on base64::decode: the bytes the input denotes in standard base64,
/// or nothing when the input is not well-formed base64.
#[verifier::external_body]
pub fn base64_decode(text: &str) -> (r: Option<Vec<u8>>)
    ensures
        r matches Some(v) ==> base64_decoded_of(text@) == Some(v@),
        r is None ==> base64_decoded_of(text@) is None,
{
    match base64::decode(text) {
        Ok(v) => Some(v),
        Err(_) => None,
    }
}

/// Relies on urlencoding::encode: percent-encodes every byte except ASCII
/// alphanumerics and `-` `_` `.` `~`; an input made only of those characters
/// passes through unchanged.
#[verifier::external_body]
pub fn percent_encode(text: &str) -> (r: String)
    ensures
        r@ == percent_encoded_of(text@),
        (forall|i: int| 0 <= i < text@.len() ==> url_unreserved(text@[i])) ==> r@ == text@,
{
    urlencoding::encode(text).into_owned()
}

} // verus!
