//! Turning the rows of a cookie store into readable `(name, value)` pairs.
use vstd::prelude::*;
use crate::cookie::{decrypt_chrome_cookie, legacy_outcome, portable_outcome, Platform};
use crate::text::{lossy_decode, utf8_lossy};

verus! {

/// What decryption of a stored value yields on a platform: `None` where it
/// fails (an unsupported platform included).
pub open spec fn platform_outcome(platform: Platform, envelope: Seq<u8>, password: Seq<char>) -> Option<Option<Seq<char>>> {
    match platform {
        Platform::MacOs => legacy_outcome(envelope, password),
        Platform::Linux => portable_outcome(envelope, password),
        Platform::Unsupported => None,
    }
}

/// The text shown for a stored value: its decryption where that succeeds with
/// a text, else the value's own bytes, lossily decoded.
pub open spec fn cookie_text(envelope: Seq<u8>, password: Seq<char>, platform: Platform) -> Seq<char> {
    if envelope.len() > 3 {
        match platform_outcome(platform, envelope, password) {
            Some(Some(text)) => text,
            _ => utf8_lossy(envelope),
        }
    } else {
        utf8_lossy(envelope)
    }
}

/// The text of one stored value; never fails: a value that is too short, not
/// tagged, or does not decrypt stands for itself.
pub fn cookie_value_or_raw(encrypted_value: &[u8], password: &str, platform: Platform) -> (r: String)
    ensures
        r@ == cookie_text(encrypted_value@, password@, platform),
{
    if encrypted_value.len() > 3 {
        match decrypt_chrome_cookie(encrypted_value, password, platform) {
            Ok(Some(text)) => text,
            _ => lossy_decode(encrypted_value),
        }
    } else {
        lossy_decode(encrypted_value)
    }
}

/// The readable form of rows of `(name, stored value)`: one pair per row, in
/// order, with the row's name and the text of its value. One row never
/// affects another, and no row makes the whole batch fail.
pub fn decode_cookie_rows(rows: &Vec<(String, Vec<u8>)>, password: &str, platform: Platform) -> (r: Vec<(String, String)>)
    ensures
        r@.len() == rows@.len(),
        forall|i: int|
            0 <= i < rows@.len() ==> (#[trigger] r@[i]).0@ == rows@[i].0@ && r@[i].1@ == cookie_text(
                rows@[i].1@,
                password@,
                platform,
            ),
{
    let mut out: Vec<(String, String)> = Vec::with_capacity(rows.len());
    let mut i: usize = 0;
    while i < rows.len()
        invariant
            i <= rows@.len(),
            out@.len() == i,
            forall|j: int|
                0 <= j < i ==> (#[trigger] out@[j]).0@ == rows@[j].0@ && out@[j].1@ == cookie_text(
                    rows@[j].1@,
                    password@,
                    platform,
                ),
        decreases rows@.len() - i,
    {
        let row = &rows[i];
        let name = row.0.clone();
        let value = cookie_value_or_raw(row.1.as_slice(), password, platform);
        out.push((name, value));
        i = i + 1;
    }
    out
}

/// Batch fallback: a value of three bytes or fewer is shown as its own bytes,
/// lossily decoded, whatever the password and the platform.
pub proof fn lemma_short_value_shown_raw(envelope: Seq<u8>, password: Seq<char>, platform: Platform)
    requires
        envelope.len() <= 3,
    ensures
        cookie_text(envelope, password, platform) == utf8_lossy(envelope),
{
}

/// Batch fallback: a value whose decryption fails is shown as its own bytes,
/// lossily decoded, and one that decrypts to a text is shown as that text.
pub proof fn lemma_failed_value_shown_raw(envelope: Seq<u8>, password: Seq<char>, platform: Platform)
    ensures
        platform_outcome(platform, envelope, password) is None ==> cookie_text(envelope, password, platform)
            == utf8_lossy(envelope),
        envelope.len() > 3 ==> (platform_outcome(platform, envelope, password) matches Some(Some(t))
            ==> cookie_text(envelope, password, platform) == t),
{
}

} // verus!
