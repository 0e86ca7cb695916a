//! Encryption on the CBC schemes, the inverse of cookie decryption.
use vstd::prelude::*;
use crate::crypto::{aes128_cbc_pkcs7_decrypted, aes128_cbc_pkcs7_encrypted, cbc_encrypt, random_block};

verus! {

/// Encrypts `plaintext` with AES-128-CBC and PKCS7 padding under `key` and
/// `iv`: whole blocks, at least one. Decrypting the result under the same key
/// and IV gives back `plaintext`, whatever its bytes and its length.
pub fn encrypt_aes128_cbc_pkcs7(key: &[u8; 16], iv: &[u8; 16], plaintext: &[u8]) -> (r: Vec<u8>)
    ensures
        r@ == aes128_cbc_pkcs7_encrypted(key@, iv@, plaintext@),
        r@.len() == (plaintext@.len() / 16 + 1) * 16,
        aes128_cbc_pkcs7_decrypted(key@, iv@, r@) == Some(plaintext@),
{
    cbc_encrypt(key, iv, plaintext)
}

/// Sixteen random bytes, for use as an IV.
pub fn generate_random_iv() -> (r: [u8; 16])
    ensures
        r@.len() == 16,
{
    random_block()
}

} // verus!
