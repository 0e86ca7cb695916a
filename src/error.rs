//! The error type shared by every fallible operation of the library.
use vstd::prelude::*;

verus! {

/// One variant per kind of failure. Failures that happen outside the library
/// (a command, a file, the cookie store) carry the outside message as text.
#[derive(Debug)]
pub enum ChromeCookieError {
    CommandFailed(String),
    DecryptionFailed(String),
    Utf8Error(String),
    IoError(String),
    AesGcmError,
    SqliteError(String),
    UnsupportedPlatform,
    JsonErr(String),
}

/// The human-readable message of an error.
pub open spec fn error_message(e: ChromeCookieError) -> Seq<char> {
    match e {
        ChromeCookieError::CommandFailed(m) => "Command failed: "@ + m@,
        ChromeCookieError::DecryptionFailed(m) => "Decryption failed: "@ + m@,
        ChromeCookieError::Utf8Error(m) => "UTF-8 conversion error: "@ + m@,
        ChromeCookieError::IoError(m) => "IO error: "@ + m@,
        ChromeCookieError::AesGcmError => "AES-GCM decryption error"@,
        ChromeCookieError::SqliteError(m) => "SQLite error: "@ + m@,
        ChromeCookieError::UnsupportedPlatform => "Unsupported platform for Chrome cookies"@,
        ChromeCookieError::JsonErr(m) => "Json error: "@ + m@,
    }
}

fn prefixed(prefix: &str, detail: &String) -> (r: String)
    ensures
        r@ == prefix@ + detail@,
{
    let mut out = String::from_str(prefix);
    out.append(detail.as_str());
    out
}

impl ChromeCookieError {
    /// The human-readable message of this error.
    pub fn message(&self) -> (r: String)
        ensures
            r@ == error_message(*self),
    {
        match self {
            ChromeCookieError::CommandFailed(m) => prefixed("Command failed: ", m),
            ChromeCookieError::DecryptionFailed(m) => prefixed("Decryption failed: ", m),
            ChromeCookieError::Utf8Error(m) => prefixed("UTF-8 conversion error: ", m),
            ChromeCookieError::IoError(m) => prefixed("IO error: ", m),
            ChromeCookieError::AesGcmError => String::from_str("AES-GCM decryption error"),
            ChromeCookieError::SqliteError(m) => prefixed("SQLite error: ", m),
            ChromeCookieError::UnsupportedPlatform => String::from_str(
                "Unsupported platform for Chrome cookies",
            ),
            ChromeCookieError::JsonErr(m) => prefixed("Json error: ", m),
        }
    }
}

} // verus!
