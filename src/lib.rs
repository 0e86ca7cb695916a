//! Decryption of browser cookie values stored encrypted at rest, and the
//! rendering state of a Markdown-to-HTML converter.
//!
//! Cookie values are classified by their version tag, decrypted with
//! AES-128-CBC under a PBKDF2-derived key, and turned into text; the
//! browser's own master key is unwrapped with AES-128-GCM.
pub mod batch;
pub mod cookie;
pub mod crypto;
pub mod encrypt;
pub mod envelope;
pub mod error;
pub mod html_tree;
pub mod kdf;
pub mod key_material;
pub mod markdown;
pub mod text;

pub use batch::{cookie_value_or_raw, decode_cookie_rows};
pub use cookie::{
    decrypt_cbc_payload, decrypt_chrome_cookie, decrypt_chrome_cookie_linux,
    decrypt_chrome_cookie_macos_legacy, Platform,
};
pub use envelope::{classify, EnvelopeKind};
pub use error::ChromeCookieError;
pub use kdf::{derive_key, derive_linux_key, KeyScheme};
pub use key_material::{
    encrypted_key_from_local_state, key_material_source, master_key_from_blob,
    master_key_from_encoded, master_key_from_local_state, password_from_secret_store_output,
    KeySource,
};
pub use markdown::{
    CodeBlockState, ImageState, MarkdownEventProcessor, MdEvent, Rendered, TableState,
};
