//! Decryption of per-cookie values on the CBC schemes.
use vstd::prelude::*;
use crate::crypto::{aes128_cbc_pkcs7_decrypted, cbc_decrypt};
use crate::text::{lossy_decode, trim_end_chars, trimmed_end, utf8_lossy};
use crate::envelope::{
    classify, envelope_kind, envelope_payload, payload_of, starts_with_v10, tag_v10, tag_v11,
    EnvelopeKind,
};
use crate::error::ChromeCookieError;
use crate::kdf::{derive_key, derive_linux_key, password_key, KeyScheme};

verus! {

/// The IV of the CBC schemes: sixteen ASCII spaces.
pub const SPACE_IV: [u8; 16] = [
    0x20, 0x20, 0x20, 0x20, 0x20, 0x20, 0x20, 0x20, 0x20, 0x20, 0x20, 0x20, 0x20, 0x20, 0x20, 0x20,
];

pub open spec fn space_iv() -> Seq<u8> {
    Seq::new(16, |i: int| 0x20u8)
}

/// The platform whose storage conventions apply.
#[derive(PartialEq, Eq, Structural, Clone, Copy, Debug)]
pub enum Platform {
    MacOs,
    Linux,
    Unsupported,
}

pub open spec fn opt_text(o: Option<String>) -> Option<Seq<char>> {
    match o {
        Some(s) => Some(s@),
        None => None,
    }
}

/// A recovered text, or `None` where it is empty.
pub open spec fn non_empty(s: Seq<char>) -> Option<Seq<char>> {
    if s.len() == 0 {
        None
    } else {
        Some(s)
    }
}

/// The outcome of decrypting a CBC payload: `None` where decryption fails,
/// else the lossily decoded text (trimmed of trailing NUL and backtick
/// characters when `trim` holds), `None` inside where that text is empty.
pub open spec fn cbc_cookie(key: Seq<u8>, payload: Seq<u8>, trim: bool) -> Option<Option<Seq<char>>> {
    match aes128_cbc_pkcs7_decrypted(key, space_iv(), payload) {
        None => None,
        Some(plain) => Some(
            if trim {
                non_empty(trimmed_end(utf8_lossy(plain), '\0', '`'))
            } else {
                non_empty(utf8_lossy(plain))
            },
        ),
    }
}

/// Whether a returned result is the outcome `o`: `None` stands for a
/// decryption failure.
pub open spec fn is_outcome(r: Result<Option<String>, ChromeCookieError>, o: Option<Option<Seq<char>>>) -> bool {
    match o {
        None => r matches Err(ChromeCookieError::DecryptionFailed(_)),
        Some(v) => r matches Ok(x) && opt_text(x) == v,
    }
}

/// The outcome of the legacy scheme: only a `v10` value longer than its tag
/// is decrypted, with the 1003-round key.
pub open spec fn legacy_outcome(envelope: Seq<u8>, password: Seq<char>) -> Option<Option<Seq<char>>> {
    if envelope.len() > 3 && envelope.subrange(0, 3) == tag_v10() {
        cbc_cookie(password_key(password, KeyScheme::LegacyCbc), envelope_payload(envelope), false)
    } else {
        Some(None)
    }
}

/// The outcome of the portable scheme: `v10` and `v11` values are decrypted
/// with the one-round key, and `v11` text is trimmed.
pub open spec fn portable_outcome(envelope: Seq<u8>, password: Seq<char>) -> Option<Option<Seq<char>>> {
    let key = password_key(password, KeyScheme::PortableCbc);
    match envelope_kind(envelope) {
        EnvelopeKind::Unrecognized => Some(None),
        EnvelopeKind::LegacyCbc => cbc_cookie(key, envelope_payload(envelope), false),
        EnvelopeKind::TrimmedCbc => cbc_cookie(key, envelope_payload(envelope), true),
    }
}

/// Decrypts a CBC payload under `key` and the all-space IV.
pub fn decrypt_cbc_payload(key: &[u8; 16], payload: &[u8], trim: bool) -> (r: Result<Option<String>, ChromeCookieError>)
    ensures
        is_outcome(r, cbc_cookie(key@, payload@, trim)),
{
    let iv: [u8; 16] = SPACE_IV;
    assert(iv@ =~= space_iv());
    let plain = match cbc_decrypt(key, &iv, payload) {
        Ok(p) => p,
        Err(_) => {
            return Err(ChromeCookieError::DecryptionFailed(String::from_str("AES-CBC decrypt failed")));
        },
    };
    let text = lossy_decode(plain.as_slice());
    let text = if trim {
        trim_end_chars(text.as_str(), '\0', '`')
    } else {
        text
    };
    if text.as_str().is_empty() {
        Ok(None)
    } else {
        Ok(Some(text))
    }
}

/// Decrypts a stored value on the legacy scheme: a `v10` value is decrypted
/// under the 1003-round key of `password`; any other value gives `Ok(None)`.
pub fn decrypt_chrome_cookie_macos_legacy(encrypted_value: &[u8], password: &str) -> (r: Result<Option<String>, ChromeCookieError>)
    ensures
        is_outcome(r, legacy_outcome(encrypted_value@, password@)),
{
    if encrypted_value.len() <= 3 || !starts_with_v10(encrypted_value) {
        return Ok(None);
    }
    let key = derive_key(password.as_bytes(), KeyScheme::LegacyCbc);
    decrypt_cbc_payload(&key, payload_of(encrypted_value), false)
}

/// Decrypts a stored value on the portable scheme: `v10` and `v11` values are
/// decrypted under the one-round key of `password`, the text of a `v11` value
/// losing its trailing NUL and backtick characters; any other value gives
/// `Ok(None)`.
pub fn decrypt_chrome_cookie_linux(encrypted_value: &[u8], password: &str) -> (r: Result<Option<String>, ChromeCookieError>)
    ensures
        is_outcome(r, portable_outcome(encrypted_value@, password@)),
{
    let key = derive_linux_key(password);
    match classify(encrypted_value) {
        EnvelopeKind::Unrecognized => Ok(None),
        EnvelopeKind::LegacyCbc => decrypt_cbc_payload(&key, payload_of(encrypted_value), false),
        EnvelopeKind::TrimmedCbc => decrypt_cbc_payload(&key, payload_of(encrypted_value), true),
    }
}

/// Decrypts a stored value with the scheme of `platform`.
pub fn decrypt_chrome_cookie(encrypted_value: &[u8], password: &str, platform: Platform) -> (r: Result<Option<String>, ChromeCookieError>)
    ensures
        platform == Platform::MacOs ==> is_outcome(r, legacy_outcome(encrypted_value@, password@)),
        platform == Platform::Linux ==> is_outcome(r, portable_outcome(encrypted_value@, password@)),
        platform == Platform::Unsupported ==> r matches Err(ChromeCookieError::UnsupportedPlatform),
{
    match platform {
        Platform::MacOs => decrypt_chrome_cookie_macos_legacy(encrypted_value, password),
        Platform::Linux => decrypt_chrome_cookie_linux(encrypted_value, password),
        Platform::Unsupported => Err(ChromeCookieError::UnsupportedPlatform),
    }
}

/// Prefix dispatch: behind either version tag the same payload goes through
/// the same CBC decryption, under the same key and IV; the text behind `v11`
/// is in addition trimmed of trailing NUL and backtick characters.
pub proof fn lemma_prefix_dispatch(payload: Seq<u8>, password: Seq<char>)
    requires
        payload.len() > 0,
    ensures
        portable_outcome(tag_v10() + payload, password) == cbc_cookie(
            password_key(password, KeyScheme::PortableCbc),
            payload,
            false,
        ),
        portable_outcome(tag_v11() + payload, password) == cbc_cookie(
            password_key(password, KeyScheme::PortableCbc),
            payload,
            true,
        ),
        legacy_outcome(tag_v10() + payload, password) == cbc_cookie(
            password_key(password, KeyScheme::LegacyCbc),
            payload,
            false,
        ),
{
    let e10 = tag_v10() + payload;
    let e11 = tag_v11() + payload;
    assert(e10.subrange(0, 3) =~= tag_v10());
    assert(e11.subrange(0, 3) =~= tag_v11());
    assert(tag_v10() != tag_v11()) by {
        assert(tag_v10()[2] != tag_v11()[2]);
    }
    assert(envelope_payload(e10) =~= payload);
    assert(envelope_payload(e11) =~= payload);
}

/// Pass-through: a value of three bytes or fewer, or one whose first three
/// bytes are neither `v10` nor `v11`, is not decrypted and is no error.
pub proof fn lemma_unrecognized_passes_through(envelope: Seq<u8>, password: Seq<char>)
    requires
        envelope.len() <= 3 || (envelope.subrange(0, 3) != tag_v10() && envelope.subrange(0, 3)
            != tag_v11()),
    ensures
        portable_outcome(envelope, password) == Some(None::<Seq<char>>),
        legacy_outcome(envelope, password) == Some(None::<Seq<char>>),
{
}

/// Round trip through a stored value: a ciphertext that decrypts to
/// `plaintext` under the one-round key of `password` and the all-space IV,
/// stored behind `v10`, yields the lossily decoded plaintext (`None` where it
/// is empty); stored behind `v11`, that text trimmed of trailing NUL and
/// backtick characters.
pub proof fn lemma_cookie_round_trip(plaintext: Seq<u8>, password: Seq<char>, ciphertext: Seq<u8>)
    requires
        ciphertext.len() > 0,
        aes128_cbc_pkcs7_decrypted(password_key(password, KeyScheme::PortableCbc), space_iv(), ciphertext)
            == Some(plaintext),
    ensures
        portable_outcome(tag_v10() + ciphertext, password) == Some(non_empty(utf8_lossy(plaintext))),
        portable_outcome(tag_v11() + ciphertext, password) == Some(
            non_empty(trimmed_end(utf8_lossy(plaintext), '\0', '`')),
        ),
{
    lemma_prefix_dispatch(ciphertext, password);
}

} // verus!
