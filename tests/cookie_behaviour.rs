use aes_gcm::aead::{Aead, KeyInit};
use aes_gcm::{Aes128Gcm, Nonce};
use base64::Engine;
use chrome_cookie::encrypt::encrypt_aes128_cbc_pkcs7;
use chrome_cookie::{
    classify, cookie_value_or_raw, decode_cookie_rows, decrypt_cbc_payload, decrypt_chrome_cookie,
    decrypt_chrome_cookie_linux, decrypt_chrome_cookie_macos_legacy, derive_key, derive_linux_key,
    encrypted_key_from_local_state, key_material_source, master_key_from_blob,
    master_key_from_encoded, master_key_from_local_state, password_from_secret_store_output,
    ChromeCookieError, EnvelopeKind, KeyScheme, KeySource, Platform,
};

const SPACES: [u8; 16] = [b' '; 16];

fn envelope(tag: &[u8], key: &[u8; 16], plaintext: &[u8]) -> Vec<u8> {
    let mut v = tag.to_vec();
    v.extend_from_slice(&encrypt_aes128_cbc_pkcs7(key, &SPACES, plaintext));
    v
}

#[test]
fn derivation_is_deterministic() {
    for scheme in [KeyScheme::LegacyCbc, KeyScheme::WrappedKey, KeyScheme::PortableCbc] {
        assert_eq!(derive_key(b"secret", scheme), derive_key(b"secret", scheme));
    }
    assert_eq!(derive_linux_key("peanuts"), derive_linux_key("peanuts"));
}

#[test]
fn schemes_differ_only_in_rounds() {
    assert_eq!(
        derive_key(b"peanuts", KeyScheme::PortableCbc),
        [0xfd, 0x62, 0x1f, 0xe5, 0xa2, 0xb4, 0x02, 0x53, 0x9d, 0xfa, 0x14, 0x7c, 0xa9, 0x27, 0x27, 0x78]
    );
    assert_eq!(
        derive_key(b"peanuts", KeyScheme::LegacyCbc),
        derive_key(b"peanuts", KeyScheme::WrappedKey)
    );
    assert_ne!(
        derive_key(b"peanuts", KeyScheme::LegacyCbc),
        derive_key(b"peanuts", KeyScheme::PortableCbc)
    );
}

#[test]
fn scenario_peanuts_v10_round_trip() {
    let key = derive_linux_key("peanuts");
    assert_eq!(
        key,
        [0xfd, 0x62, 0x1f, 0xe5, 0xa2, 0xb4, 0x02, 0x53, 0x9d, 0xfa, 0x14, 0x7c, 0xa9, 0x27, 0x27, 0x78]
    );
    let ev = envelope(b"v10", &key, b"test chrome cookie v10");
    let r = decrypt_chrome_cookie_linux(&ev, "peanuts").unwrap();
    assert_eq!(r.as_deref(), Some("test chrome cookie v10"));
}

#[test]
fn cbc_round_trip_on_arbitrary_bytes() {
    let key = derive_linux_key("k");
    for plaintext in [
        &b""[..],
        &b"a"[..],
        &b"exactly sixteen!"[..],
        &[0xffu8, 0xfe, b'a'][..],
        &[0u8; 40][..],
    ] {
        let ct = encrypt_aes128_cbc_pkcs7(&key, &SPACES, plaintext);
        assert_eq!(ct.len(), (plaintext.len() / 16 + 1) * 16);
        let expected = String::from_utf8_lossy(plaintext).into_owned();
        let got = decrypt_cbc_payload(&key, &ct, false).unwrap();
        if expected.is_empty() {
            assert_eq!(got, None);
        } else {
            assert_eq!(got, Some(expected));
        }
    }
}

#[test]
fn ciphertext_differs_from_plaintext() {
    let key = derive_linux_key("k");
    let ct = encrypt_aes128_cbc_pkcs7(&key, &SPACES, b"0123456789abcdef");
    assert_ne!(&ct[..16], b"0123456789abcdef");
}

#[test]
fn non_utf8_plaintext_is_decoded_lossily() {
    let key = derive_linux_key("pw");
    let ev = envelope(b"v10", &key, &[0xff, b'o', b'k']);
    let r = decrypt_chrome_cookie_linux(&ev, "pw").unwrap();
    assert_eq!(r.as_deref(), Some("\u{fffd}ok"));
}

#[test]
fn both_prefixes_decrypt_under_one_key() {
    let key = derive_linux_key("pw");
    for tag in [&b"v10"[..], &b"v11"[..]] {
        let ev = envelope(tag, &key, b"value");
        assert_eq!(decrypt_chrome_cookie_linux(&ev, "pw").unwrap().as_deref(), Some("value"));
    }
}

#[test]
fn v11_text_loses_trailing_nul_and_backtick() {
    let key = derive_linux_key("pw");
    let ev = envelope(b"v11", &key, b"value`\0`\0");
    assert_eq!(decrypt_chrome_cookie_linux(&ev, "pw").unwrap().as_deref(), Some("value"));
    let ev = envelope(b"v10", &key, b"value`");
    assert_eq!(decrypt_chrome_cookie_linux(&ev, "pw").unwrap().as_deref(), Some("value`"));
    let ev = envelope(b"v11", &key, b"``");
    assert_eq!(decrypt_chrome_cookie_linux(&ev, "pw").unwrap(), None);
}

#[test]
fn unrecognized_or_short_values_pass_through() {
    let key = derive_linux_key("pw");
    let ev = envelope(b"v12", &key, b"value");
    assert_eq!(decrypt_chrome_cookie_linux(&ev, "pw").unwrap(), None);
    assert_eq!(decrypt_chrome_cookie_linux(b"v10", "pw").unwrap(), None);
    assert_eq!(decrypt_chrome_cookie_linux(b"", "pw").unwrap(), None);
    assert_eq!(decrypt_chrome_cookie_macos_legacy(b"v1", "pw").unwrap(), None);
    assert_eq!(classify(b"v10"), EnvelopeKind::Unrecognized);
    assert_eq!(classify(b"v10x"), EnvelopeKind::LegacyCbc);
    assert_eq!(classify(b"v11x"), EnvelopeKind::TrimmedCbc);
    assert_eq!(classify(b"v12x"), EnvelopeKind::Unrecognized);
}

#[test]
fn legacy_scheme_reads_only_v10() {
    let key = derive_key(b"pw", KeyScheme::LegacyCbc);
    let ev = envelope(b"v10", &key, b"legacy");
    assert_eq!(decrypt_chrome_cookie_macos_legacy(&ev, "pw").unwrap().as_deref(), Some("legacy"));
    let ev = envelope(b"v11", &key, b"legacy");
    assert_eq!(decrypt_chrome_cookie_macos_legacy(&ev, "pw").unwrap(), None);
}

#[test]
fn misaligned_ciphertext_is_a_decryption_error() {
    let r = decrypt_chrome_cookie_linux(b"v10abcde", "pw");
    assert!(matches!(r, Err(ChromeCookieError::DecryptionFailed(_))));
}

#[test]
fn platform_dispatch() {
    let key = derive_key(b"pw", KeyScheme::LegacyCbc);
    let ev = envelope(b"v10", &key, b"mac");
    assert_eq!(decrypt_chrome_cookie(&ev, "pw", Platform::MacOs).unwrap().as_deref(), Some("mac"));
    let key = derive_linux_key("pw");
    let ev = envelope(b"v10", &key, b"linux");
    assert_eq!(decrypt_chrome_cookie(&ev, "pw", Platform::Linux).unwrap().as_deref(), Some("linux"));
    assert!(matches!(
        decrypt_chrome_cookie(&ev, "pw", Platform::Unsupported),
        Err(ChromeCookieError::UnsupportedPlatform)
    ));
}

#[test]
fn batch_keeps_malformed_rows() {
    let key = derive_linux_key("pw");
    let rows = vec![
        ("good".to_string(), envelope(b"v10", &key, b"secret value")),
        ("short".to_string(), b"ab".to_vec()),
    ];
    let out = decode_cookie_rows(&rows, "pw", Platform::Linux);
    assert_eq!(
        out,
        vec![
            ("good".to_string(), "secret value".to_string()),
            ("short".to_string(), "ab".to_string()),
        ]
    );
}

#[test]
fn batch_falls_back_on_failures() {
    let rows = vec![
        ("bad".to_string(), b"v10abcde".to_vec()),
        ("plain".to_string(), b"hello".to_vec()),
        ("binary".to_string(), vec![0xff, 0x41]),
    ];
    let out = decode_cookie_rows(&rows, "pw", Platform::Linux);
    assert_eq!(out[0], ("bad".to_string(), "v10abcde".to_string()));
    assert_eq!(out[1], ("plain".to_string(), "hello".to_string()));
    assert_eq!(out[2], ("binary".to_string(), "\u{fffd}A".to_string()));
    let key = derive_linux_key("pw");
    let ev = envelope(b"v10", &key, b"x");
    assert_eq!(cookie_value_or_raw(&ev, "pw", Platform::Unsupported), String::from_utf8_lossy(&ev));
    assert!(decode_cookie_rows(&Vec::new(), "pw", Platform::Linux).is_empty());
}

fn sealed_blob(password: &str, master: &[u8]) -> Vec<u8> {
    let key = derive_key(password.as_bytes(), KeyScheme::WrappedKey);
    let nonce = [7u8; 12];
    let sealed = Aes128Gcm::new(&key.into()).encrypt(Nonce::from_slice(&nonce), master).unwrap();
    let mut blob = b"v10".to_vec();
    blob.extend_from_slice(&nonce);
    blob.extend_from_slice(&sealed);
    blob
}

#[test]
fn master_key_unwraps() {
    let master: Vec<u8> = (0u8..32).collect();
    let blob = sealed_blob("store-pw", &master);
    let key = master_key_from_blob(&blob, "store-pw").unwrap();
    assert_eq!(&key[..], &master[..16]);
}

#[test]
fn gcm_rejects_any_flipped_bit() {
    let master: Vec<u8> = (0u8..32).collect();
    let blob = sealed_blob("store-pw", &master);
    for i in 15..blob.len() {
        for bit in [0u8, 3, 7] {
            let mut tampered = blob.clone();
            tampered[i] ^= 1 << bit;
            assert!(matches!(
                master_key_from_blob(&tampered, "store-pw"),
                Err(ChromeCookieError::AesGcmError)
            ));
        }
    }
    assert!(matches!(
        master_key_from_blob(&blob, "wrong-pw"),
        Err(ChromeCookieError::AesGcmError)
    ));
}

#[test]
fn master_key_shape_errors() {
    assert!(matches!(
        master_key_from_blob(&[0u8; 14], "pw"),
        Err(ChromeCookieError::DecryptionFailed(_))
    ));
    let short = sealed_blob("pw", b"tiny");
    assert!(matches!(
        master_key_from_blob(&short, "pw"),
        Err(ChromeCookieError::DecryptionFailed(_))
    ));
}

#[test]
fn master_key_from_base64_with_marker() {
    let master: Vec<u8> = (100u8..120).collect();
    let mut marked = b"DPAPI".to_vec();
    marked.extend_from_slice(&sealed_blob("pw", &master));
    let encoded = base64::engine::general_purpose::STANDARD.encode(&marked);
    assert_eq!(&master_key_from_encoded(&encoded, "pw").unwrap()[..], &master[..16]);
    let unmarked = base64::engine::general_purpose::STANDARD.encode(sealed_blob("pw", &master));
    assert_eq!(&master_key_from_encoded(&unmarked, "pw").unwrap()[..], &master[..16]);
    assert!(matches!(
        master_key_from_encoded("not base64!", "pw"),
        Err(ChromeCookieError::DecryptionFailed(_))
    ));
}

#[test]
fn master_key_from_local_state_document() {
    let master: Vec<u8> = (1u8..17).collect();
    let mut marked = b"DPAPI".to_vec();
    marked.extend_from_slice(&sealed_blob("pw", &master));
    let encoded = base64::engine::general_purpose::STANDARD.encode(&marked);
    let doc = format!("{{\"os_crypt\": {{\"encrypted_key\": \"{}\"}}}}", encoded);
    assert_eq!(&master_key_from_local_state(&doc, "pw").unwrap()[..], &master[..]);
    assert!(matches!(
        master_key_from_local_state("{\"os_crypt\": {}}", "pw"),
        Err(ChromeCookieError::DecryptionFailed(_))
    ));
    assert!(matches!(
        master_key_from_local_state("{not json", "pw"),
        Err(ChromeCookieError::DecryptionFailed(_))
    ));
}

#[test]
fn local_state_key_text() {
    let doc = "{\"os_crypt\": {\"encrypted_key\": \"RFBBUEk=\"}, \"other\": 1}";
    assert_eq!(encrypted_key_from_local_state(doc).unwrap(), "RFBBUEk=");
    assert!(matches!(
        encrypted_key_from_local_state("{\"os_crypt\": {\"encrypted_key\": 5}}"),
        Err(ChromeCookieError::JsonErr(_))
    ));
    assert!(matches!(encrypted_key_from_local_state("]"), Err(ChromeCookieError::JsonErr(_))));
}

#[test]
fn secret_store_output() {
    assert_eq!(
        password_from_secret_store_output(true, b"  s3cret pw\n".to_vec()).unwrap(),
        "s3cret pw"
    );
    assert!(matches!(
        password_from_secret_store_output(true, vec![0xff, 0xfe]),
        Err(ChromeCookieError::CommandFailed(_))
    ));
    assert!(matches!(
        password_from_secret_store_output(false, b"pw".to_vec()),
        Err(ChromeCookieError::CommandFailed(_))
    ));
}

#[test]
fn key_sources_by_platform() {
    assert_eq!(key_material_source(Platform::MacOs).unwrap(), KeySource::SecretStore);
    assert_eq!(key_material_source(Platform::Linux).unwrap(), KeySource::LocalStateFile);
    assert!(matches!(
        key_material_source(Platform::Unsupported),
        Err(ChromeCookieError::UnsupportedPlatform)
    ));
}

#[test]
fn error_messages() {
    assert_eq!(
        ChromeCookieError::DecryptionFailed("AES-CBC decrypt failed".to_string()).message(),
        "Decryption failed: AES-CBC decrypt failed"
    );
    assert_eq!(ChromeCookieError::AesGcmError.message(), "AES-GCM decryption error");
    assert_eq!(
        ChromeCookieError::UnsupportedPlatform.message(),
        "Unsupported platform for Chrome cookies"
    );
    assert_eq!(ChromeCookieError::JsonErr("x".to_string()).message(), "Json error: x");
}
