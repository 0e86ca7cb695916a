//! Where the master secret comes from, and how the browser's wrapped master
//! key is recovered from it.
use vstd::prelude::*;
use vstd::utf8::{decode_utf8, encode_utf8, valid_utf8};
use crate::cookie::Platform;
use crate::crypto::{
    aes128_gcm_opened, base64_decode, base64_standard_decoded, gcm_open, json_nested_string,
    json_string_at,
};
use crate::text::{strict_decode, trim_whitespace, whitespace_trimmed};
use crate::envelope::{strip_dpapi_marker, without_dpapi_marker};
use crate::error::ChromeCookieError;
use crate::kdf::{derive_key, password_key, KeyScheme};

verus! {

/// Where a platform keeps the secret that cookie keys come from.
#[derive(PartialEq, Eq, Structural, Clone, Copy, Debug)]
pub enum KeySource {
    /// A password in the operating system's secret store.
    SecretStore,
    /// The wrapped key in the browser's `Local State` file.
    LocalStateFile,
}

/// Picks the key-material source of a platform; an unsupported platform has
/// none, and nothing is to be read for it.
pub fn key_material_source(platform: Platform) -> (r: Result<KeySource, ChromeCookieError>)
    ensures
        platform == Platform::MacOs ==> r == Ok::<KeySource, ChromeCookieError>(KeySource::SecretStore),
        platform == Platform::Linux ==> r == Ok::<KeySource, ChromeCookieError>(KeySource::LocalStateFile),
        platform == Platform::Unsupported ==> r matches Err(ChromeCookieError::UnsupportedPlatform),
{
    match platform {
        Platform::MacOs => Ok(KeySource::SecretStore),
        Platform::Linux => Ok(KeySource::LocalStateFile),
        Platform::Unsupported => Err(ChromeCookieError::UnsupportedPlatform),
    }
}

/// The password that the secret-store lookup printed. A lookup that failed
/// (no such entry, no facility) and output that is not UTF-8 are both
/// failures of the lookup; surrounding white space is dropped.
pub fn password_from_secret_store_output(succeeded: bool, stdout: Vec<u8>) -> (r: Result<String, ChromeCookieError>)
    ensures
        r is Ok <==> succeeded && valid_utf8(stdout@),
        r matches Ok(s) ==> s@ == whitespace_trimmed(decode_utf8(stdout@)),
        r is Err ==> r matches Err(ChromeCookieError::CommandFailed(_)),
{
    if !succeeded {
        return Err(ChromeCookieError::CommandFailed(String::from_str("secret-store lookup failed")));
    }
    match strict_decode(stdout) {
        Ok(text) => Ok(trim_whitespace(text.as_str())),
        Err(e) => Err(ChromeCookieError::CommandFailed(e.to_string())),
    }
}

/// The `os_crypt.encrypted_key` string of a `Local State` document.
pub open spec fn local_state_key(text: Seq<char>) -> Option<Option<Seq<char>>> {
    json_nested_string(text, "os_crypt"@, "encrypted_key"@)
}

/// The base64 wrapped key of a `Local State` document, as text.
pub fn encrypted_key_from_local_state(text: &str) -> (r: Result<String, ChromeCookieError>)
    ensures
        match local_state_key(text@) {
            Some(Some(k)) => r matches Ok(s) && s@ == k,
            _ => r matches Err(ChromeCookieError::JsonErr(_)),
        },
{
    match json_string_at(text, "os_crypt", "encrypted_key") {
        Ok(Some(key)) => Ok(key),
        Ok(None) => Err(ChromeCookieError::JsonErr(String::from_str("No encrypted_key found"))),
        Err(e) => Err(ChromeCookieError::JsonErr(e.to_string())),
    }
}

/// What recovering the master key can come to.
pub enum KeyOutcome {
    Key(Seq<u8>),
    /// The input is not in the expected shape.
    Malformed,
    /// The wrapped key fails GCM authentication.
    Unauthenticated,
}

/// Whether a returned result is the outcome `o`.
pub open spec fn is_key_outcome(r: Result<[u8; 16], ChromeCookieError>, o: KeyOutcome) -> bool {
    match o {
        KeyOutcome::Key(k) => r matches Ok(key) && key@ == k,
        KeyOutcome::Malformed => r matches Err(ChromeCookieError::DecryptionFailed(_)),
        KeyOutcome::Unauthenticated => r matches Err(ChromeCookieError::AesGcmError),
    }
}

/// Recovering the master key from a marker-free blob
/// `[3 version bytes][12-byte nonce][ciphertext and 16-byte tag]`: the blob is
/// opened with AES-128-GCM under the wrapped-key scheme's key of `password`,
/// and the first 16 bytes of the result are the master key.
pub open spec fn blob_key_outcome(blob: Seq<u8>, password: Seq<char>) -> KeyOutcome {
    if blob.len() < 15 {
        KeyOutcome::Malformed
    } else {
        match aes128_gcm_opened(
            password_key(password, KeyScheme::WrappedKey),
            blob.subrange(3, 15),
            blob.subrange(15, blob.len() as int),
        ) {
            None => KeyOutcome::Unauthenticated,
            Some(plain) => if plain.len() < 16 {
                KeyOutcome::Malformed
            } else {
                KeyOutcome::Key(plain.subrange(0, 16))
            },
        }
    }
}

/// Recovering the master key from its base64 text: decode, drop the `DPAPI`
/// marker, open the blob.
pub open spec fn encoded_key_outcome(encoded: Seq<char>, password: Seq<char>) -> KeyOutcome {
    match base64_standard_decoded(encode_utf8(encoded)) {
        None => KeyOutcome::Malformed,
        Some(blob) => blob_key_outcome(without_dpapi_marker(blob), password),
    }
}

/// Recovering the master key from a `Local State` document.
pub open spec fn local_state_key_outcome(text: Seq<char>, password: Seq<char>) -> KeyOutcome {
    match local_state_key(text) {
        Some(Some(encoded)) => encoded_key_outcome(encoded, password),
        _ => KeyOutcome::Malformed,
    }
}

fn malformed(message: &str) -> (r: ChromeCookieError)
    ensures
        r matches ChromeCookieError::DecryptionFailed(_),
{
    ChromeCookieError::DecryptionFailed(String::from_str(message))
}

/// Opens a marker-free wrapped-key blob with the key that `password` yields on
/// the wrapped-key scheme and returns the first 16 bytes of the plaintext.
pub fn master_key_from_blob(blob: &[u8], password: &str) -> (r: Result<[u8; 16], ChromeCookieError>)
    ensures
        is_key_outcome(r, blob_key_outcome(blob@, password@)),
{
    if blob.len() < 15 {
        return Err(malformed("wrapped key too short"));
    }
    let key = derive_key(password.as_bytes(), KeyScheme::WrappedKey);
    let nonce = &blob[3..15];
    let sealed = &blob[15..blob.len()];
    let plain = match gcm_open(&key, nonce, sealed) {
        Ok(p) => p,
        Err(_) => {
            return Err(ChromeCookieError::AesGcmError);
        },
    };
    if plain.len() < 16 {
        return Err(malformed("unwrapped key too short"));
    }
    let mut master: [u8; 16] = [0u8; 16];
    let mut i: usize = 0;
    while i < 16
        invariant
            plain@.len() >= 16,
            i <= 16,
            forall|j: int| 0 <= j < i ==> master@[j] == plain@[j],
        decreases 16 - i,
    {
        master[i] = plain[i];
        i = i + 1;
    }
    assert(master@ =~= plain@.subrange(0, 16));
    Ok(master)
}

/// Recovers the master key from its base64 text, as found in `Local State`.
pub fn master_key_from_encoded(encoded: &str, password: &str) -> (r: Result<[u8; 16], ChromeCookieError>)
    ensures
        is_key_outcome(r, encoded_key_outcome(encoded@, password@)),
{
    let blob = match base64_decode(encoded.as_bytes()) {
        Ok(b) => b,
        Err(_) => {
            return Err(malformed("Base64 decode error"));
        },
    };
    let blob = strip_dpapi_marker(blob);
    master_key_from_blob(blob.as_slice(), password)
}

/// Recovers the master key from the text of a `Local State` document and the
/// password from the secret store.
pub fn master_key_from_local_state(text: &str, password: &str) -> (r: Result<[u8; 16], ChromeCookieError>)
    ensures
        is_key_outcome(r, local_state_key_outcome(text@, password@)),
{
    match json_string_at(text, "os_crypt", "encrypted_key") {
        Ok(Some(encoded)) => master_key_from_encoded(encoded.as_str(), password),
        Ok(None) => Err(malformed("missing os_crypt.encrypted_key")),
        Err(_) => Err(malformed("Invalid JSON in Local State")),
    }
}

} // verus!
