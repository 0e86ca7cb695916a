//! Password-based key derivation for the three encryption schemes.
use vstd::prelude::*;
use vstd::utf8::encode_utf8;
use crate::crypto::{pbkdf2_hmac_sha1_16, pbkdf2_sha1};

verus! {

/// The ASCII salt `saltysalt` fixed by the browser's storage format.
pub const SALT: [u8; 9] = [0x73, 0x61, 0x6c, 0x74, 0x79, 0x73, 0x61, 0x6c, 0x74];

pub open spec fn salt_bytes() -> Seq<u8> {
    seq![0x73u8, 0x61u8, 0x6cu8, 0x74u8, 0x79u8, 0x73u8, 0x61u8, 0x6cu8, 0x74u8]
}

/// The parameter sets of key derivation. All use the same salt and a 16-byte
/// output; they differ in the round count.
#[derive(PartialEq, Eq, Structural, Clone, Copy, Debug)]
pub enum KeyScheme {
    /// Per-cookie CBC keys from a keychain password.
    LegacyCbc,
    /// The key that unwraps the browser's own master key.
    WrappedKey,
    /// Per-cookie CBC keys on the portable (one-round) scheme.
    PortableCbc,
}

pub open spec fn scheme_rounds(scheme: KeyScheme) -> u32 {
    match scheme {
        KeyScheme::LegacyCbc => 1003,
        KeyScheme::WrappedKey => 1003,
        KeyScheme::PortableCbc => 1,
    }
}

/// The key that a secret yields on a scheme.
pub open spec fn derived_key(secret: Seq<u8>, scheme: KeyScheme) -> Seq<u8> {
    pbkdf2_hmac_sha1_16(secret, salt_bytes(), scheme_rounds(scheme))
}

/// The key that a text password yields on a scheme: derivation runs on its UTF-8 bytes.
pub open spec fn password_key(password: Seq<char>, scheme: KeyScheme) -> Seq<u8> {
    derived_key(encode_utf8(password), scheme)
}

pub fn rounds_of(scheme: KeyScheme) -> (r: u32)
    ensures
        r == scheme_rounds(scheme),
{
    match scheme {
        KeyScheme::LegacyCbc => 1003,
        KeyScheme::WrappedKey => 1003,
        KeyScheme::PortableCbc => 1,
    }
}

/// Derives the 16-byte key of `scheme` from `secret`.
pub fn derive_key(secret: &[u8], scheme: KeyScheme) -> (r: [u8; 16])
    ensures
        r@ == derived_key(secret@, scheme),
{
    let salt: [u8; 9] = SALT;
    assert(salt@ == salt_bytes());
    pbkdf2_sha1(secret, salt.as_slice(), rounds_of(scheme))
}

/// Derives the key of the portable scheme from a password.
pub fn derive_linux_key(password: &str) -> (r: [u8; 16])
    ensures
        r@ == password_key(password@, KeyScheme::PortableCbc),
{
    derive_key(password.as_bytes(), KeyScheme::PortableCbc)
}

/// Key derivation is deterministic: two derivations from the same secret on
/// the same scheme give byte-identical keys.
pub proof fn lemma_derivation_deterministic(secret: Seq<u8>, scheme: KeyScheme, first: Seq<u8>, second: Seq<u8>)
    requires
        first == derived_key(secret, scheme),
        second == derived_key(secret, scheme),
    ensures
        first == second,
        first.len() == second.len(),
{
}

} // verus!
