//! Trusted boundary around the cryptographic, encoding and JSON primitives of
//! outside crates. Every other module reasons only about the spec names
//! declared here; each wrapper states what the outside function's
//! documentation or source shows and nothing more.
use vstd::prelude::*;
use aes::Aes128;
use aes_gcm::aead::{Aead, KeyInit};
use aes_gcm::Aes128Gcm;
use base64::Engine;
use block_modes::block_padding::Pkcs7;
use block_modes::{BlockMode, Cbc};
use rand::RngCore;
use sha1::Sha1;

verus! {

#[verifier::external_type_specification]
#[verifier::external_body]
pub struct ExBlockModeError(block_modes::BlockModeError);

#[verifier::external_type_specification]
#[verifier::external_body]
pub struct ExAeadError(aes_gcm::Error);

#[verifier::external_type_specification]
#[verifier::external_body]
pub struct ExDecodeError(base64::DecodeError);

#[verifier::external_type_specification]
#[verifier::external_body]
pub struct ExJsonError(serde_json::Error);

/// The 16-byte PBKDF2-HMAC-SHA1 output for a password, a salt and a round count.
pub uninterp spec fn pbkdf2_hmac_sha1_16(password: Seq<u8>, salt: Seq<u8>, rounds: u32) -> Seq<u8>;

/// Relies on `pbkdf2::pbkdf2_hmac_array::<Sha1, 16>`: a deterministic
/// function of the password, the salt and the round count.
#[verifier::external_body]
pub(crate) fn pbkdf2_sha1(password: &[u8], salt: &[u8], rounds: u32) -> (r: [u8; 16])
    ensures
        r@ == pbkdf2_hmac_sha1_16(password@, salt@, rounds),
{
    pbkdf2::pbkdf2_hmac_array::<Sha1, 16>(password, salt, rounds)
}

/// AES-128-CBC encryption with PKCS7 padding of a plaintext under a key and an IV.
pub uninterp spec fn aes128_cbc_pkcs7_encrypted(key: Seq<u8>, iv: Seq<u8>, plaintext: Seq<u8>) -> Seq<u8>;

/// AES-128-CBC decryption with PKCS7 unpadding; `None` where the ciphertext is
/// not block aligned or its padding is invalid.
pub uninterp spec fn aes128_cbc_pkcs7_decrypted(key: Seq<u8>, iv: Seq<u8>, ciphertext: Seq<u8>) -> Option<Seq<u8>>;

/// Relies on `block_modes::BlockMode::encrypt_vec` for `Cbc<Aes128, Pkcs7>`:
/// the ciphertext depends on key, IV and plaintext alone, padding always adds
/// between one byte and a whole block, and `decrypt_vec` under the same key
/// and IV gives the plaintext back.
#[verifier::external_body]
pub(crate) fn cbc_encrypt(key: &[u8; 16], iv: &[u8; 16], plaintext: &[u8]) -> (r: Vec<u8>)
    ensures
        r@ == aes128_cbc_pkcs7_encrypted(key@, iv@, plaintext@),
        r@.len() == (plaintext@.len() / 16 + 1) * 16,
        aes128_cbc_pkcs7_decrypted(key@, iv@, r@) == Some(plaintext@),
{
    Cbc::<Aes128, Pkcs7>::new_fix(key.into(), iv.into()).encrypt_vec(plaintext)
}

/// Relies on `block_modes::BlockMode::decrypt_vec` for `Cbc<Aes128, Pkcs7>`:
/// a deterministic function of key, IV and ciphertext, failing on a
/// ciphertext whose length is not a multiple of the block size.
#[verifier::external_body]
pub(crate) fn cbc_decrypt(key: &[u8; 16], iv: &[u8; 16], ciphertext: &[u8]) -> (r: Result<Vec<u8>, block_modes::BlockModeError>)
    ensures
        match r {
            Ok(p) => aes128_cbc_pkcs7_decrypted(key@, iv@, ciphertext@) == Some(p@),
            Err(_) => aes128_cbc_pkcs7_decrypted(key@, iv@, ciphertext@) is None,
        },
        ciphertext@.len() % 16 != 0 ==> r is Err,
{
    Cbc::<Aes128, Pkcs7>::new_fix(key.into(), iv.into()).decrypt_vec(ciphertext)
}

/// AES-128-GCM authenticated decryption of `ciphertext ++ tag` under a key and
/// a 12-byte nonce, with no associated data; `None` where authentication fails.
pub uninterp spec fn aes128_gcm_opened(key: Seq<u8>, nonce: Seq<u8>, sealed: Seq<u8>) -> Option<Seq<u8>>;

/// Relies on `aes_gcm::Aes128Gcm` through `aead::Aead::decrypt`: a
/// deterministic function of key, nonce and sealed bytes. The nonce must hold
/// 12 bytes (`GenericArray::from_slice` panics otherwise).
#[verifier::external_body]
pub(crate) fn gcm_open(key: &[u8; 16], nonce: &[u8], sealed: &[u8]) -> (r: Result<Vec<u8>, aes_gcm::Error>)
    requires
        nonce@.len() == 12,
    ensures
        match r {
            Ok(p) => aes128_gcm_opened(key@, nonce@, sealed@) == Some(p@),
            Err(_) => aes128_gcm_opened(key@, nonce@, sealed@) is None,
        },
{
    Aes128Gcm::new(key.into()).decrypt(aes_gcm::Nonce::from_slice(nonce), sealed)
}

/// Standard-alphabet, padded base64 decoding of the given text bytes; `None`
/// where the text is not valid base64.
pub uninterp spec fn base64_standard_decoded(text: Seq<u8>) -> Option<Seq<u8>>;

/// Relies on `base64::engine::general_purpose::STANDARD.decode`: a
/// deterministic function of the input.
#[verifier::external_body]
pub(crate) fn base64_decode(text: &[u8]) -> (r: Result<Vec<u8>, base64::DecodeError>)
    ensures
        match r {
            Ok(b) => base64_standard_decoded(text@) == Some(b@),
            Err(_) => base64_standard_decoded(text@) is None,
        },
{
    base64::engine::general_purpose::STANDARD.decode(text)
}

/// The string found in a JSON document at `document[outer][inner]`: `None`
/// where the text is not JSON, `Some(None)` where there is no string there.
pub uninterp spec fn json_nested_string(text: Seq<char>, outer: Seq<char>, inner: Seq<char>) -> Option<Option<Seq<char>>>;

/// Relies on `serde_json::from_str::<Value>`, on indexing a `Value` by key
/// (which gives `Null` where the key is absent) and on `Value::as_str`: the
/// outcome depends on the three texts alone.
#[verifier::external_body]
pub(crate) fn json_string_at(text: &str, outer: &str, inner: &str) -> (r: Result<Option<String>, serde_json::Error>)
    ensures
        match r {
            Ok(Some(s)) => json_nested_string(text@, outer@, inner@) == Some(Some(s@)),
            Ok(None) => json_nested_string(text@, outer@, inner@) == Some(None::<Seq<char>>),
            Err(_) => json_nested_string(text@, outer@, inner@) is None,
        },
{
    let value: serde_json::Value = serde_json::from_str(text)?;
    Ok(value[outer][inner].as_str().map(String::from))
}

/// Relies on `rand::thread_rng` and `RngCore::fill_bytes`: sixteen random bytes.
#[verifier::external_body]
pub(crate) fn random_block() -> (r: [u8; 16])
{
    let mut block = [0u8; 16];
    rand::thread_rng().fill_bytes(&mut block);
    block
}

} // verus!
