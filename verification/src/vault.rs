//! The managed-credential vault: a protected password and TOTP secret.

use base64::engine::general_purpose::STANDARD as BASE64;
use base64::Engine;
use vstd::prelude::*;
use vstd::string::*;
use vstd::utf8::*;

use crate::error::OtpuacError;
use crate::protect::{is_protection_error, SecretProtector};
use crate::text;
use crate::text::{copy_string, is_blank, push_char, push_decimal, push_str, str_eq, string_of};
use crate::totp;
use crate::totp::{accepted_step_at, encode_totp_secret, TotpPolicy};
use crate::wipe::zeroize_bytes;

verus! {

pub const VAULT_VERSION: u32 = 1;

/// The RFC 4648 base64 encoding of `data`, with padding
/// (`base64::engine::general_purpose::STANDARD`).
pub uninterp spec fn base64_standard_encode(data: Seq<u8>) -> Seq<char>;

/// What the `STANDARD` base64 engine decodes `input` to, if it accepts it.
pub uninterp spec fn base64_standard_decode(input: Seq<char>) -> Option<Seq<u8>>;

/// `STANDARD.encode(data)`. The engine pads, so the text has four characters
/// for every three bytes begun (`encoded_len`), and its decoder requires
/// canonical padding, so the encoding decodes back to `data`. The length
/// computation panics only for inputs longer than three quarters of the
/// address space.
#[verifier::external_body]
fn base64_encode(data: &[u8]) -> (r: String)
    requires
        data@.len() <= usize::MAX / 2,
    ensures
        r@ == base64_standard_encode(data@),
        base64_standard_decode(r@) == Some(data@),
        r@.len() == 4 * ((data@.len() + 2) / 3),
{
    BASE64.encode(data)
}

/// `STANDARD.decode(input)`.
#[verifier::external_body]
fn base64_decode(input: &str) -> (r: Result<Vec<u8>, base64::DecodeError>)
    ensures
        r matches Ok(v) ==> base64_standard_decode(input@) == Some(v@),
        r is Err ==> base64_standard_decode(input@) is None,
{
    BASE64.decode(input)
}

/// `String::from_utf8(bytes)`: the text when the bytes are valid UTF-8, else
/// the bytes back (`FromUtf8Error::into_bytes`).
#[verifier::external_body]
fn utf8_to_string(bytes: Vec<u8>) -> (r: Result<String, Vec<u8>>)
    ensures
        r is Ok <==> valid_utf8(bytes@),
        r matches Ok(s) ==> s@ == decode_utf8(bytes@),
        r matches Err(b) ==> b@ == bytes@,
{
    String::from_utf8(bytes).map_err(|err| err.into_bytes())
}

/// The account whose credential the vault holds.
#[derive(Clone, Debug, PartialEq, Eq)]
pub struct ManagedAccount {
    pub username: String,
    pub domain: Option<String>,
}

/// `DOMAIN\user`, or just `user` when the domain is absent or blank.
pub open spec fn account_label(username: Seq<char>, domain: Option<Seq<char>>) -> Seq<char> {
    match domain {
        Some(d) => if text::trim(d).len() != 0 {
            d + "\\"@ + username
        } else {
            username
        },
        None => username,
    }
}

impl ManagedAccount {
    pub open spec fn domain_view(self) -> Option<Seq<char>> {
        match self.domain {
            Some(d) => Some(d@),
            None => None,
        }
    }

    pub open spec fn label_text(self) -> Seq<char> {
        account_label(self.username@, self.domain_view())
    }

    /// The account's display label.
    pub fn label(&self) -> (r: String)
        ensures
            r@ == self.label_text(),
    {
        match &self.domain {
            Some(domain) => {
                if !is_blank(domain.as_str()) {
                    let mut r = copy_string(domain);
                    push_char(&mut r, '\\');
                    push_str(&mut r, self.username.as_str());
                    assert(r@ == domain@ + "\\"@ + self.username@) by {
                        reveal_strlit("\\");
                    }
                    r
                } else {
                    copy_string(&self.username)
                }
            },
            None => copy_string(&self.username),
        }
    }

    /// A copy of the account.
    pub fn duplicate(&self) -> (r: ManagedAccount)
        ensures
            r.username@ == self.username@,
            r.domain_view() == self.domain_view(),
    {
        ManagedAccount {
            username: copy_string(&self.username),
            domain: match &self.domain {
                Some(d) => Some(copy_string(d)),
                None => None,
            },
        }
    }
}

/// A secret as protected by a `SecretProtector` and encoded in base64.
#[derive(Clone, Debug)]
pub struct ProtectedBlob {
    pub scheme: String,
    pub data_base64: String,
}

impl ProtectedBlob {
    /// What the blob opens to under `protector`: its base64 text decoded and
    /// then opened.
    pub open spec fn plaintext<P: SecretProtector>(self, protector: P) -> Option<Seq<u8>> {
        match base64_standard_decode(self.data_base64@) {
            Some(c) => protector.opened(c),
            None => None,
        }
    }

    /// Whether the blob holds no data.
    pub fn is_empty(&self) -> (r: bool)
        ensures
            r == (self.data_base64@.len() == 0),
    {
        self.data_base64.as_str().unicode_len() == 0
    }
}

/// A released credential: the account and its password.
#[derive(Debug)]
pub struct ReleasedCredential {
    pub account: ManagedAccount,
    pub password: String,
}

/// The vault file: format version, managed account, protected password and
/// TOTP secret, TOTP policy, and creation time.
#[derive(Clone, Debug)]
pub struct VaultFile {
    pub version: u32,
    pub account: ManagedAccount,
    pub password: ProtectedBlob,
    pub totp_secret: ProtectedBlob,
    pub totp_policy: TotpPolicy,
    pub created_at_unix: u64,
}

/// `r` is the scheme mismatch between a protector's scheme and a blob's.
pub open spec fn is_scheme_mismatch<T>(r: Result<T, OtpuacError>, expected: Seq<char>, actual: Seq<char>) -> bool {
    r matches Err(OtpuacError::SchemeMismatch { expected: e, actual: a }) && e@ == expected && a@
        == actual
}

/// A blob holds the base64 of bytes that `protector` opens to `plaintext`:
/// four characters for every three bytes begun, so the text is empty exactly
/// when the protected bytes are.
pub open spec fn holds_protected<P: SecretProtector>(
    blob: ProtectedBlob,
    protector: P,
    plaintext: Seq<u8>,
) -> bool {
    exists|c: Seq<u8>|
        blob.data_base64@ == base64_standard_encode(c) && protector.opened(c) == Some(plaintext)
            && blob.data_base64@.len() == 4 * ((c.len() + 2) / 3)
}

/// `e` is what opening `blob` under `protector` fails with: a scheme
/// mismatch, undecodable base64, or else a protection error.
pub open spec fn is_blob_open_error<P: SecretProtector>(
    blob: ProtectedBlob,
    protector: P,
    e: OtpuacError,
) -> bool {
    if blob.scheme@ != protector.scheme_name() {
        e is SchemeMismatch
    } else if base64_standard_decode(blob.data_base64@) is None {
        e is Base64
    } else {
        is_protection_error(e)
    }
}

/// `e` is a verdict on a submitted code: malformed or rejected.
pub open spec fn is_code_verdict(e: OtpuacError) -> bool {
    e is InvalidTotpCode || e is TotpRejected
}

/// The error for recovered password bytes that are not UTF-8.
pub open spec fn is_password_utf8_error(e: OtpuacError) -> bool {
    e matches OtpuacError::InvalidVault(m) && m@ == "password is not valid UTF-8"@
}

/// `e` reports that the managed account's username is blank.
pub open spec fn is_blank_username_error(e: OtpuacError) -> bool {
    e matches OtpuacError::InvalidVault(m) && m@ == "managed account username is required"@
}

/// `e` is an `InvalidVault` error with message `message`.
pub open spec fn is_vault_error(e: OtpuacError, message: Seq<char>) -> bool {
    e matches OtpuacError::InvalidVault(m) && m@ == message
}

fn validate_account(account: &ManagedAccount) -> (r: Result<(), OtpuacError>)
    ensures
        r is Ok <==> text::trim(account.username@).len() != 0,
        r matches Err(e) ==> is_blank_username_error(e),
{
    if is_blank(account.username.as_str()) {
        return Err(OtpuacError::InvalidVault(string_of("managed account username is required")));
    }
    Ok(())
}

/// The blob for what a protector produced under `scheme`: the protected bytes
/// in base64, or the protector's error unchanged. Bytes too many to encode are
/// refused.
fn blob_from_protected(scheme: &str, protected: Result<Vec<u8>, OtpuacError>) -> (r: Result<
    ProtectedBlob,
    OtpuacError,
>)
    ensures
        match protected {
            Ok(c) => if c@.len() <= usize::MAX / 2 {
                r matches Ok(blob) && blob.scheme@ == scheme@ && blob.data_base64@
                    == base64_standard_encode(c@) && base64_standard_decode(blob.data_base64@)
                    == Some(c@) && blob.data_base64@.len() == 4 * ((c@.len() + 2) / 3)
            } else {
                r matches Err(OtpuacError::Crypto(m)) && m@
                    == "protected data is too large to encode"@
            },
            Err(e) => r == Err::<ProtectedBlob, OtpuacError>(e),
        },
{
    let protected = match protected {
        Ok(c) => c,
        Err(e) => {
            return Err(e);
        },
    };
    if protected.len() > usize::MAX / 2 {
        return Err(OtpuacError::Crypto(string_of("protected data is too large to encode")));
    }
    let data_base64 = base64_encode(protected.as_slice());
    Ok(ProtectedBlob { scheme: string_of(scheme), data_base64 })
}

/// Protects `plaintext` and encodes the result as a blob. Whether the
/// protector succeeds is its own affair; what it produced is handed to
/// `blob_from_protected`.
fn protect_blob<P: SecretProtector>(protector: &P, plaintext: &[u8]) -> (r: Result<
    ProtectedBlob,
    OtpuacError,
>)
    ensures
        r matches Ok(blob) ==> blob.scheme@ == protector.scheme_name() && blob.plaintext(
            *protector,
        ) == Some(plaintext@),
        r matches Ok(blob) ==> holds_protected(blob, *protector, plaintext@),
{
    let protected = protector.protect(plaintext);
    blob_from_protected(protector.scheme(), protected)
}

/// Recovers a blob's plaintext: the scheme must match the protector's, the
/// data must be base64, and the protector must open it.
fn unprotect_blob<P: SecretProtector>(protector: &P, blob: &ProtectedBlob) -> (r: Result<
    Vec<u8>,
    OtpuacError,
>)
    ensures
        blob.scheme@ != protector.scheme_name() ==> (r matches Err(
            OtpuacError::SchemeMismatch { expected, actual },
        ) && expected@ == protector.scheme_name() && actual@ == blob.scheme@),
        blob.scheme@ == protector.scheme_name() && base64_standard_decode(blob.data_base64@)
            is None ==> r matches Err(OtpuacError::Base64(_)),
        r matches Ok(p) ==> blob.scheme@ == protector.scheme_name() && blob.plaintext(*protector)
            == Some(p@),
        r matches Err(e) ==> is_blob_open_error(*blob, *protector, e),
{
    let scheme = protector.scheme();
    if !str_eq(blob.scheme.as_str(), scheme) {
        return Err(
            OtpuacError::SchemeMismatch {
                expected: string_of(scheme),
                actual: copy_string(&blob.scheme),
            },
        );
    }
    let ciphertext = match base64_decode(blob.data_base64.as_str()) {
        Ok(c) => c,
        Err(e) => {
            return Err(OtpuacError::Base64(e));
        },
    };
    protector.unprotect(ciphertext.as_slice())
}

impl VaultFile {
    /// The checks that a vault must pass, in order.
    pub open spec fn is_valid(self) -> bool {
        &&& self.version == VAULT_VERSION
        &&& text::trim(self.account.username@).len() != 0
        &&& self.totp_policy.is_valid()
        &&& self.password.data_base64@.len() != 0
        &&& self.totp_secret.data_base64@.len() != 0
    }

    /// `e` is the error for the first check that the vault fails.
    pub open spec fn is_validation_error(self, e: OtpuacError) -> bool {
        if self.version != VAULT_VERSION {
            is_vault_error(e, "unsupported version "@ + text::decimal(self.version as nat))
        } else if text::trim(self.account.username@).len() == 0 {
            is_blank_username_error(e)
        } else if !self.totp_policy.is_valid() {
            totp::is_policy_error(e, self.totp_policy.problem())
        } else if self.password.data_base64@.len() == 0 || self.totp_secret.data_base64@.len()
            == 0 {
            is_vault_error(e, "protected secret blobs must not be empty"@)
        } else {
            false
        }
    }

    /// Whether the vault stores `password` under `protector`.
    pub open spec fn stores_password<P: SecretProtector>(
        self,
        protector: P,
        password: Seq<char>,
    ) -> bool {
        self.password.plaintext(protector) == Some(encode_utf8(password))
    }

    /// A new vault for `account`, protecting `password` and `totp_secret` with
    /// `protector`, stamped with `created_at_unix`. It passes `validate`
    /// exactly when the protector produced some bytes for both secrets.
    pub fn new<P: SecretProtector>(
        account: ManagedAccount,
        password: &str,
        totp_secret: &[u8],
        totp_policy: TotpPolicy,
        protector: &P,
        created_at_unix: u64,
    ) -> (r: Result<Self, OtpuacError>)
        ensures
            text::trim(account.username@).len() == 0 ==> (r matches Err(e)
                && is_blank_username_error(e)),
            text::trim(account.username@).len() != 0 && !totp_policy.is_valid() ==> (r matches Err(
                e,
            ) && totp::is_policy_error(e, totp_policy.problem())),
            r matches Ok(v) ==> {
                &&& v.version == VAULT_VERSION
                &&& v.account == account
                &&& v.totp_policy == totp_policy
                &&& v.created_at_unix == created_at_unix
                &&& v.password.scheme@ == protector.scheme_name()
                &&& v.totp_secret.scheme@ == protector.scheme_name()
                &&& v.stores_password(*protector, password@)
                &&& v.totp_secret.plaintext(*protector) == Some(totp_secret@)
                &&& holds_protected(v.password, *protector, encode_utf8(password@))
                &&& holds_protected(v.totp_secret, *protector, totp_secret@)
                &&& v.is_valid() <==> (v.password.data_base64@.len() != 0
                    && v.totp_secret.data_base64@.len() != 0)
            },
    {
        validate_account(&account)?;
        totp_policy.validate()?;
        let password_bytes = password.as_bytes();
        let password_blob = protect_blob(protector, password_bytes)?;
        let totp_blob = protect_blob(protector, totp_secret)?;
        Ok(VaultFile {
            version: VAULT_VERSION,
            account,
            password: password_blob,
            totp_secret: totp_blob,
            totp_policy,
            created_at_unix,
        })
    }

    /// Checks the version, the account, the TOTP policy and that both blobs
    /// hold data.
    pub fn validate(&self) -> (r: Result<(), OtpuacError>)
        ensures
            r is Ok <==> self.is_valid(),
            r matches Err(e) ==> self.is_validation_error(e),
    {
        if self.version != VAULT_VERSION {
            let mut m = string_of("unsupported version ");
            push_decimal(&mut m, self.version as u64);
            return Err(OtpuacError::InvalidVault(m));
        }
        validate_account(&self.account)?;
        self.totp_policy.validate()?;
        if self.has_empty_secret_blob() {
            return Err(
                OtpuacError::InvalidVault(string_of("protected secret blobs must not be empty")),
            );
        }
        Ok(())
    }

    /// Whether either protected blob is empty.
    pub fn has_empty_secret_blob(&self) -> (r: bool)
        ensures
            r == (self.password.data_base64@.len() == 0 || self.totp_secret.data_base64@.len()
                == 0),
    {
        self.password.is_empty() || self.totp_secret.is_empty()
    }

    /// The TOTP secret in base32, for enrollment.
    pub fn encoded_totp_secret<P: SecretProtector>(&self, protector: &P) -> (r: Result<
        String,
        OtpuacError,
    >)
        ensures
            self.totp_secret.scheme@ != protector.scheme_name() ==> is_scheme_mismatch(
                r,
                protector.scheme_name(),
                self.totp_secret.scheme@,
            ),
            self.totp_secret.scheme@ == protector.scheme_name() && base64_standard_decode(
                self.totp_secret.data_base64@,
            ) is None ==> r matches Err(OtpuacError::Base64(_)),
            r matches Ok(s) ==> (self.totp_secret.plaintext(*protector) matches Some(secret) && s@
                == totp::base32_nopad_encode(secret)),
    {
        let secret = unprotect_blob(protector, &self.totp_secret)?;
        if secret.len() > usize::MAX / 512 {
            return Err(OtpuacError::InvalidVault(string_of("TOTP secret is too large to encode")));
        }
        Ok(encode_totp_secret(secret.as_slice()))
    }

    /// The step that `code` is accepted for, given the vault's TOTP secret.
    pub fn accepted_step_for_secret(&self, secret: &[u8], code: &str, unix_time: u64) -> (r:
        Result<u64, OtpuacError>)
        requires
            self.totp_policy.is_valid(),
        ensures
            !totp::is_candidate_code(text::trim(code@), self.totp_policy.digits) ==> r matches Err(
                OtpuacError::InvalidTotpCode,
            ),
            totp::is_candidate_code(text::trim(code@), self.totp_policy.digits) ==> match totp::accepted_step(
                secret@,
                self.totp_policy,
                code@,
                unix_time,
            ) {
                Some(step) => r matches Ok(s) && s == step,
                None => r matches Err(OtpuacError::TotpRejected),
            },
    {
        match accepted_step_at(secret, &self.totp_policy, code, unix_time)? {
            Some(step) => Ok(step),
            None => Err(OtpuacError::TotpRejected),
        }
    }

    /// The step that `code` is accepted for at `unix_time`, checked against the
    /// vault's protected TOTP secret.
    pub fn accepted_totp_step<P: SecretProtector>(
        &self,
        code: &str,
        unix_time: u64,
        protector: &P,
    ) -> (r: Result<u64, OtpuacError>)
        ensures
            !self.is_valid() ==> (r matches Err(e) && self.is_validation_error(e)),
            self.is_valid() && self.totp_secret.scheme@ != protector.scheme_name()
                ==> is_scheme_mismatch(r, protector.scheme_name(), self.totp_secret.scheme@),
            self.is_valid() && self.totp_secret.scheme@ == protector.scheme_name()
                && base64_standard_decode(self.totp_secret.data_base64@) is None ==> r matches Err(
                OtpuacError::Base64(_),
            ),
            r matches Ok(step) ==> {
                &&& self.is_valid()
                &&& self.totp_secret.plaintext(*protector) matches Some(secret)
                &&& totp::accepted_step(secret, self.totp_policy, code@, unix_time) == Some(step)
                &&& totp::is_candidate_code(text::trim(code@), self.totp_policy.digits)
            },
            r matches Err(e) ==> !self.is_valid() || is_code_verdict(e) || is_blob_open_error(
                self.totp_secret,
                *protector,
                e,
            ),
            r matches Err(e) ==> (is_code_verdict(e) ==> {
                &&& self.is_valid()
                &&& self.totp_secret.plaintext(*protector) matches Some(secret)
                &&& (e is InvalidTotpCode <==> !totp::is_candidate_code(
                    text::trim(code@),
                    self.totp_policy.digits,
                ))
                &&& e is TotpRejected ==> totp::accepted_step(
                    secret,
                    self.totp_policy,
                    code@,
                    unix_time,
                ) is None
            }),

    {
        self.validate()?;
        let secret = unprotect_blob(protector, &self.totp_secret)?;
        self.accepted_step_for_secret(secret.as_slice(), code, unix_time)
    }

    /// Releases the managed credential: the account and the recovered
    /// password.
    pub fn release_credential<P: SecretProtector>(&self, protector: &P) -> (r: Result<
        ReleasedCredential,
        OtpuacError,
    >)
        ensures
            !self.is_valid() ==> (r matches Err(e) && self.is_validation_error(e)),
            self.is_valid() && self.password.scheme@ != protector.scheme_name()
                ==> is_scheme_mismatch(r, protector.scheme_name(), self.password.scheme@),
            self.is_valid() && self.password.scheme@ == protector.scheme_name()
                && base64_standard_decode(self.password.data_base64@) is None ==> r matches Err(
                OtpuacError::Base64(_),
            ),
            (self.password.plaintext(*protector) matches Some(bytes) && !valid_utf8(bytes)) ==> r is Err,
            self.is_valid() && self.password.scheme@ == protector.scheme_name() && (
            self.password.plaintext(*protector) matches Some(bytes) && !valid_utf8(bytes))
                ==> (r matches Err(e) && (is_protection_error(e) || is_password_utf8_error(e))),
            r matches Err(e) ==> (is_password_utf8_error(e) ==> self.is_valid()
                && (self.password.plaintext(*protector) matches Some(bytes) && !valid_utf8(bytes))),
            r matches Err(e) ==> !is_code_verdict(e),
            r matches Ok(c) ==> {
                &&& self.is_valid()
                &&& c.account.username@ == self.account.username@
                &&& c.account.domain_view() == self.account.domain_view()
                &&& self.password.plaintext(*protector) matches Some(bytes)
                &&& valid_utf8(bytes)
                &&& c.password@ == decode_utf8(bytes)
            },

    {
        if let Err(e) = self.validate() {
            proof {
                lemma_validation_error_is_not_utf8_error(*self, e);
            }
            return Err(e);
        }
        let bytes = unprotect_blob(protector, &self.password)?;
        let password = zeroizing_utf8(bytes)?;
        Ok(ReleasedCredential { account: self.account.duplicate(), password })
    }

    /// `release_credential` after `accepted_totp_step`: the credential and the
    /// accepted step.
    pub fn unlock_with_step<P: SecretProtector>(
        &self,
        code: &str,
        unix_time: u64,
        protector: &P,
    ) -> (r: Result<(ReleasedCredential, u64), OtpuacError>)
        ensures
            !self.is_valid() ==> (r matches Err(e) && self.is_validation_error(e)),
            self.is_valid() && self.totp_secret.scheme@ != protector.scheme_name()
                ==> is_scheme_mismatch(r, protector.scheme_name(), self.totp_secret.scheme@),
            self.is_valid() && self.totp_secret.scheme@ == protector.scheme_name()
                && base64_standard_decode(self.totp_secret.data_base64@) is None ==> r matches Err(
                OtpuacError::Base64(_),
            ),
            self.password.scheme@ != protector.scheme_name() || base64_standard_decode(
                self.password.data_base64@,
            ) is None ==> r is Err,
            r matches Err(e) ==> (is_code_verdict(e) ==> {
                &&& self.is_valid()
                &&& self.totp_secret.plaintext(*protector) matches Some(secret)
                &&& (e is InvalidTotpCode <==> !totp::is_candidate_code(
                    text::trim(code@),
                    self.totp_policy.digits,
                ))
                &&& e is TotpRejected ==> totp::accepted_step(
                    secret,
                    self.totp_policy,
                    code@,
                    unix_time,
                ) is None
            }),
            r matches Err(e) ==> (is_password_utf8_error(e) ==> self.is_valid()
                && (self.totp_secret.plaintext(*protector) matches Some(secret)
                && totp::accepted_step(secret, self.totp_policy, code@, unix_time) is Some)
                && (self.password.plaintext(*protector) matches Some(bytes) && !valid_utf8(bytes))),
            r matches Ok((c, step)) ==> {
                &&& self.is_valid()
                &&& self.totp_secret.plaintext(*protector) matches Some(secret)
                &&& totp::accepted_step(secret, self.totp_policy, code@, unix_time) == Some(step)
                &&& c.account.username@ == self.account.username@
                &&& c.account.domain_view() == self.account.domain_view()
                &&& self.password.plaintext(*protector) matches Some(bytes)
                &&& valid_utf8(bytes)
                &&& c.password@ == decode_utf8(bytes)
            },

    {
        let step = match self.accepted_totp_step(code, unix_time, protector) {
            Ok(step) => step,
            Err(e) => {
                proof {
                    if !self.is_valid() {
                        lemma_validation_error_is_not_utf8_error(*self, e);
                    }
                }
                return Err(e);
            },
        };
        let credential = self.release_credential(protector)?;
        Ok((credential, step))
    }

    /// Releases the credential if `code` is accepted at `unix_time`.
    pub fn unlock<P: SecretProtector>(&self, code: &str, unix_time: u64, protector: &P) -> (r:
        Result<ReleasedCredential, OtpuacError>)
        ensures
            !self.is_valid() ==> (r matches Err(e) && self.is_validation_error(e)),
            self.is_valid() && self.totp_secret.scheme@ != protector.scheme_name()
                ==> is_scheme_mismatch(r, protector.scheme_name(), self.totp_secret.scheme@),
            self.is_valid() && self.totp_secret.scheme@ == protector.scheme_name()
                && base64_standard_decode(self.totp_secret.data_base64@) is None ==> r matches Err(
                OtpuacError::Base64(_),
            ),
            self.password.scheme@ != protector.scheme_name() || base64_standard_decode(
                self.password.data_base64@,
            ) is None ==> r is Err,
            r matches Err(e) ==> (is_code_verdict(e) ==> {
                &&& self.is_valid()
                &&& self.totp_secret.plaintext(*protector) matches Some(secret)
                &&& (e is InvalidTotpCode <==> !totp::is_candidate_code(
                    text::trim(code@),
                    self.totp_policy.digits,
                ))
                &&& e is TotpRejected ==> totp::accepted_step(
                    secret,
                    self.totp_policy,
                    code@,
                    unix_time,
                ) is None
            }),
            r matches Err(e) ==> (is_password_utf8_error(e) ==> self.is_valid()
                && (self.totp_secret.plaintext(*protector) matches Some(secret)
                && totp::accepted_step(secret, self.totp_policy, code@, unix_time) is Some)
                && (self.password.plaintext(*protector) matches Some(bytes) && !valid_utf8(bytes))),
            r matches Ok(c) ==> {
                &&& self.is_valid()
                &&& self.totp_secret.plaintext(*protector) matches Some(secret)
                &&& totp::accepted_step(secret, self.totp_policy, code@, unix_time) is Some
                &&& c.account.username@ == self.account.username@
                &&& c.account.domain_view() == self.account.domain_view()
                &&& self.password.plaintext(*protector) matches Some(bytes)
                &&& valid_utf8(bytes)
                &&& c.password@ == decode_utf8(bytes)
            },

    {
        match self.unlock_with_step(code, unix_time, protector) {
            Ok((credential, _step)) => Ok(credential),
            Err(e) => Err(e),
        }
    }
}

/// No check of `validate` reports a password that is not UTF-8.
proof fn lemma_validation_error_is_not_utf8_error(vault: VaultFile, e: OtpuacError)
    requires
        vault.is_validation_error(e),
    ensures
        !is_password_utf8_error(e),
{
    reveal_strlit("password is not valid UTF-8");
    reveal_strlit("unsupported version ");
    reveal_strlit("managed account username is required");
    reveal_strlit("protected secret blobs must not be empty");
    if let OtpuacError::InvalidVault(m) = e {
        if vault.version != VAULT_VERSION {
            assert(m@[0] == 'u');
        } else if text::trim(vault.account.username@).len() == 0 {
            assert(m@[0] == 'm');
        } else {
            assert(m@[1] == 'r');
        }
        assert(m@ != "password is not valid UTF-8"@) by {
            if m@ == "password is not valid UTF-8"@ {
                assert(m@[0] == 'p' && m@[1] == 'a');
            }
        }
    }
}

/// The password text of recovered bytes; invalid UTF-8 is wiped and refused.
fn zeroizing_utf8(bytes: Vec<u8>) -> (r: Result<String, OtpuacError>)
    ensures
        r matches Ok(s) ==> valid_utf8(bytes@) && s@ == decode_utf8(bytes@),
        r is Err ==> !valid_utf8(bytes@) && (r matches Err(OtpuacError::InvalidVault(m)) && m@
            == "password is not valid UTF-8"@),
{
    match utf8_to_string(bytes) {
        Ok(password) => Ok(password),
        Err(rejected) => {
            let mut rejected = rejected;
            zeroize_bytes(&mut rejected);
            Err(OtpuacError::InvalidVault(string_of("password is not valid UTF-8")))
        },
    }
}

/// A password stored by `VaultFile::new` is what `release_credential` gives
/// back: the stored bytes are the password's UTF-8 encoding, which is valid
/// and decodes to the password.
pub proof fn law_released_password_is_stored_password<P: SecretProtector>(
    vault: VaultFile,
    protector: P,
    password: Seq<char>,
)
    requires
        vault.stores_password(protector, password),
    ensures
        vault.password.plaintext(protector) matches Some(bytes) && valid_utf8(bytes)
            && decode_utf8(bytes) == password,
{
    broadcast use encode_utf8_decode_utf8, encode_utf8_valid_utf8;

}

} // verus!
