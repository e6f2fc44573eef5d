//! Protection of secrets at rest.

use vstd::prelude::*;

use crate::error::OtpuacError;

verus! {

/// A failure of secret protection: a cryptographic or platform error, or a
/// platform without protection. It is never a verdict on a code or a vault.
pub open spec fn is_protection_error(e: OtpuacError) -> bool {
    e is Crypto || e is Platform || e is UnsupportedPlatform
}

/// Protects secrets before they are stored and recovers them afterwards.
///
/// An implementation chooses what `opened` means for it: `unprotect` may fail,
/// but when it succeeds it gives `opened(ciphertext)`, and whatever `protect`
/// produces opens to the plaintext it was given. Either reports a failure as
/// a protection error (`Crypto`, `Platform` or `UnsupportedPlatform`), so that
/// it cannot be mistaken for a rejected code or an invalid vault.
pub trait SecretProtector {
    /// The name recorded next to every blob this protector produced.
    spec fn scheme_name(&self) -> Seq<char>;

    /// What `ciphertext` opens to under this protector, if anything.
    spec fn opened(&self, ciphertext: Seq<u8>) -> Option<Seq<u8>>;

    fn scheme(&self) -> (r: &'static str)
        ensures
            r@ == self.scheme_name(),
    ;

    fn protect(&self, plaintext: &[u8]) -> (r: Result<Vec<u8>, OtpuacError>)
        ensures
            r matches Ok(c) ==> self.opened(c@) == Some(plaintext@),
            r matches Err(e) ==> is_protection_error(e),
    ;

    fn unprotect(&self, ciphertext: &[u8]) -> (r: Result<Vec<u8>, OtpuacError>)
        ensures
            r matches Ok(p) ==> self.opened(ciphertext@) == Some(p@),
            r matches Err(e) ==> is_protection_error(e),
    ;
}

/// Stores secrets unchanged. For development builds only.
#[derive(Clone, Copy, Debug, Default)]
pub struct InsecureDevProtector;

fn copy_bytes(bytes: &[u8]) -> (r: Vec<u8>)
    ensures
        r@ == bytes@,
{
    let mut r: Vec<u8> = Vec::new();
    let mut i: usize = 0;
    while i < bytes.len()
        invariant
            i <= bytes@.len(),
            r@ == bytes@.take(i as int),
        decreases bytes@.len() - i,
    {
        r.push(bytes[i]);
        assert(bytes@.take(i + 1) == bytes@.take(i as int).push(bytes@[i as int]));
        i = i + 1;
    }
    assert(bytes@.take(bytes@.len() as int) == bytes@);
    r
}

impl SecretProtector for InsecureDevProtector {
    open spec fn scheme_name(&self) -> Seq<char> {
        "insecure-dev-plaintext"@
    }

    open spec fn opened(&self, ciphertext: Seq<u8>) -> Option<Seq<u8>> {
        Some(ciphertext)
    }

    fn scheme(&self) -> (r: &'static str) {
        "insecure-dev-plaintext"
    }

    fn protect(&self, plaintext: &[u8]) -> (r: Result<Vec<u8>, OtpuacError>)
        ensures
            r matches Ok(c) && c@ == plaintext@,
    {
        Ok(copy_bytes(plaintext))
    }

    fn unprotect(&self, ciphertext: &[u8]) -> (r: Result<Vec<u8>, OtpuacError>)
        ensures
            r matches Ok(p) && p@ == ciphertext@,
    {
        Ok(copy_bytes(ciphertext))
    }
}

/// Refuses to protect or recover anything: secret protection is only
/// available in Windows release builds.
#[derive(Clone, Copy, Debug, Default)]
pub struct UnsupportedProtector;

impl SecretProtector for UnsupportedProtector {
    open spec fn scheme_name(&self) -> Seq<char> {
        "unsupported"@
    }

    open spec fn opened(&self, ciphertext: Seq<u8>) -> Option<Seq<u8>> {
        None
    }

    fn scheme(&self) -> (r: &'static str) {
        "unsupported"
    }

    fn protect(&self, plaintext: &[u8]) -> (r: Result<Vec<u8>, OtpuacError>)
        ensures
            r matches Err(OtpuacError::UnsupportedPlatform(m)) && m@
                == "secret protection is only available in Windows release builds"@,
    {
        Err(
            OtpuacError::UnsupportedPlatform(
                "secret protection is only available in Windows release builds",
            ),
        )
    }

    fn unprotect(&self, ciphertext: &[u8]) -> (r: Result<Vec<u8>, OtpuacError>)
        ensures
            r matches Err(OtpuacError::UnsupportedPlatform(m)) && m@
                == "secret protection is only available in Windows release builds"@,
    {
        Err(
            OtpuacError::UnsupportedPlatform(
                "secret protection is only available in Windows release builds",
            ),
        )
    }
}

} // verus!
