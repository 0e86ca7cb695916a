//! Trusted boundary around std's text functions that vstd does not specify.
use vstd::prelude::*;
use vstd::utf8::{decode_utf8, valid_utf8};

verus! {

#[verifier::external_type_specification]
#[verifier::external_body]
pub struct ExFromUtf8Error(std::string::FromUtf8Error);

/// The text that lossy UTF-8 decoding makes of some bytes: each invalid
/// sequence becomes U+FFFD.
pub uninterp spec fn utf8_lossy(bytes: Seq<u8>) -> Seq<char>;

/// Relies on `String::from_utf8_lossy`: valid UTF-8 decodes exactly, and no
/// bytes give no text.
#[verifier::external_body]
pub(crate) fn lossy_decode(bytes: &[u8]) -> (r: String)
    ensures
        r@ == utf8_lossy(bytes@),
        valid_utf8(bytes@) ==> r@ == decode_utf8(bytes@),
        bytes@.len() == 0 <==> r@.len() == 0,
{
    String::from_utf8_lossy(bytes).into_owned()
}

/// Relies on `String::from_utf8`: succeeds exactly on valid UTF-8, decoding it.
#[verifier::external_body]
pub(crate) fn strict_decode(bytes: Vec<u8>) -> (r: Result<String, std::string::FromUtf8Error>)
    ensures
        r is Ok <==> valid_utf8(bytes@),
        r matches Ok(s) ==> s@ == decode_utf8(bytes@),
{
    String::from_utf8(bytes)
}

/// What is left of a text once the trailing characters equal to `a` or `b` are removed.
pub open spec fn trimmed_end(s: Seq<char>, a: char, b: char) -> Seq<char>
    decreases s.len(),
{
    if s.len() > 0 && (s.last() == a || s.last() == b) {
        trimmed_end(s.drop_last(), a, b)
    } else {
        s
    }
}

/// Relies on `str::trim_end_matches` with a pattern of two characters.
#[verifier::external_body]
pub(crate) fn trim_end_chars(s: &str, a: char, b: char) -> (r: String)
    ensures
        r@ == trimmed_end(s@, a, b),
{
    s.trim_end_matches(&[a, b][..]).to_string()
}

/// What is left of a text once the leading characters equal to `a` or `b` are removed.
pub open spec fn trimmed_start(s: Seq<char>, a: char, b: char) -> Seq<char>
    decreases s.len(),
{
    if s.len() > 0 && (s[0] == a || s[0] == b) {
        trimmed_start(s.drop_first(), a, b)
    } else {
        s
    }
}

/// Relies on `str::trim_start_matches` with a pattern of two characters.
#[verifier::external_body]
pub(crate) fn trim_start_chars(s: &str, a: char, b: char) -> (r: String)
    ensures
        r@ == trimmed_start(s@, a, b),
{
    s.trim_start_matches(&[a, b][..]).to_string()
}

/// The text left once leading and trailing Unicode white space is removed.
pub uninterp spec fn whitespace_trimmed(s: Seq<char>) -> Seq<char>;

/// Relies on `str::trim`: a function of the text alone.
#[verifier::external_body]
pub(crate) fn trim_whitespace(s: &str) -> (r: String)
    ensures
        r@ == whitespace_trimmed(s@),
{
    s.trim().to_string()
}

/// `s` with each character equal to `a` or `b` replaced by `to`.
pub open spec fn replaced(s: Seq<char>, a: char, b: char, to: Seq<char>) -> Seq<char>
    decreases s.len(),
{
    if s.len() == 0 {
        Seq::empty()
    } else {
        (if s[0] == a || s[0] == b {
            to
        } else {
            seq![s[0]]
        }) + replaced(s.drop_first(), a, b, to)
    }
}

/// Relies on `str::replace` with a pattern of two characters.
#[verifier::external_body]
pub(crate) fn replace_chars(s: &str, a: char, b: char, to: &str) -> (r: String)
    ensures
        r@ == replaced(s@, a, b, to@),
{
    s.replace(&[a, b][..], to)
}

} // verus!
