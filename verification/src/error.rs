//! The library's error type.

use vstd::prelude::*;
use vstd::string::*;

use crate::text::push_str;

verus! {

/// `base64::DecodeError`, carried as an opaque value.
#[verifier::external_type_specification]
#[verifier::external_body]
pub struct ExBase64DecodeError(base64::DecodeError);

/// Why an operation of the library failed.
#[derive(Debug)]
pub enum OtpuacError {
    InvalidTotpPolicy(&'static str),
    InvalidTotpCode,
    TotpRejected,
    Crypto(String),
    SchemeMismatch { expected: String, actual: String },
    InvalidVault(String),
    InvalidConfig(String),
    InvalidState(String),
    InvalidIpc(String),
    Platform(String),
    Base64(base64::DecodeError),
    Base32,
    Io(String),
    Json(String),
    UnsupportedPlatform(&'static str),
}

/// The text of a base64 decoding error (`Display` of `base64::DecodeError`).
#[verifier::external_body]
fn base64_error_text(e: &base64::DecodeError) -> String {
    format!("{e}")
}

/// The text that describes an error, for every variant whose text is made of
/// the library's own values.
pub open spec fn error_text(e: OtpuacError) -> Option<Seq<char>> {
    match e {
        OtpuacError::InvalidTotpPolicy(m) => Some("invalid TOTP policy: "@ + m@),
        OtpuacError::InvalidTotpCode => Some("TOTP code must contain only ASCII digits"@),
        OtpuacError::TotpRejected => Some("TOTP code was rejected"@),
        OtpuacError::Crypto(m) => Some("secret protection failed: "@ + m@),
        OtpuacError::SchemeMismatch { expected, actual } => Some(
            "protected blob scheme mismatch: expected "@ + expected@ + ", got "@ + actual@,
        ),
        OtpuacError::InvalidVault(m) => Some("invalid vault: "@ + m@),
        OtpuacError::InvalidConfig(m) => Some("invalid configuration: "@ + m@),
        OtpuacError::InvalidState(m) => Some("invalid runtime state: "@ + m@),
        OtpuacError::InvalidIpc(m) => Some("invalid IPC message: "@ + m@),
        OtpuacError::Platform(m) => Some("platform operation failed: "@ + m@),
        OtpuacError::Base64(_) => None,
        OtpuacError::Base32 => Some("base32 error"@),
        OtpuacError::Io(m) => Some("I/O error: "@ + m@),
        OtpuacError::Json(m) => Some("JSON error: "@ + m@),
        OtpuacError::UnsupportedPlatform(m) => Some("unsupported platform feature: "@ + m@),
    }
}

impl OtpuacError {
    /// The human-readable description of this error.
    pub fn message(&self) -> (r: String)
        ensures
            error_text(*self) matches Some(t) ==> r@ == t,
            *self is Base64 ==> exists|t: Seq<char>| r@ == "base64 error: "@ + t,
    {
        let mut r = String::new();
        match self {
            OtpuacError::InvalidTotpPolicy(m) => {
                push_str(&mut r, "invalid TOTP policy: ");
                push_str(&mut r, m);
            },
            OtpuacError::InvalidTotpCode => {
                push_str(&mut r, "TOTP code must contain only ASCII digits");
            },
            OtpuacError::TotpRejected => {
                push_str(&mut r, "TOTP code was rejected");
            },
            OtpuacError::Crypto(m) => {
                push_str(&mut r, "secret protection failed: ");
                push_str(&mut r, m.as_str());
            },
            OtpuacError::SchemeMismatch { expected, actual } => {
                push_str(&mut r, "protected blob scheme mismatch: expected ");
                push_str(&mut r, expected.as_str());
                push_str(&mut r, ", got ");
                push_str(&mut r, actual.as_str());
            },
            OtpuacError::InvalidVault(m) => {
                push_str(&mut r, "invalid vault: ");
                push_str(&mut r, m.as_str());
            },
            OtpuacError::InvalidConfig(m) => {
                push_str(&mut r, "invalid configuration: ");
                push_str(&mut r, m.as_str());
            },
            OtpuacError::InvalidState(m) => {
                push_str(&mut r, "invalid runtime state: ");
                push_str(&mut r, m.as_str());
            },
            OtpuacError::InvalidIpc(m) => {
                push_str(&mut r, "invalid IPC message: ");
                push_str(&mut r, m.as_str());
            },
            OtpuacError::Platform(m) => {
                push_str(&mut r, "platform operation failed: ");
                push_str(&mut r, m.as_str());
            },
            OtpuacError::Base64(e) => {
                push_str(&mut r, "base64 error: ");
                let t = base64_error_text(e);
                push_str(&mut r, t.as_str());
                assert(r@ == "base64 error: "@ + t@);
            },
            OtpuacError::Base32 => {
                push_str(&mut r, "base32 error");
            },
            OtpuacError::Io(m) => {
                push_str(&mut r, "I/O error: ");
                push_str(&mut r, m.as_str());
            },
            OtpuacError::Json(m) => {
                push_str(&mut r, "JSON error: ");
                push_str(&mut r, m.as_str());
            },
            OtpuacError::UnsupportedPlatform(m) => {
                push_str(&mut r, "unsupported platform feature: ");
                push_str(&mut r, m);
            },
        }
        r
    }
}

} // verus!
