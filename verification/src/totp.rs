//! HOTP/TOTP codes (RFC 4226, RFC 6238) and the TOTP policy.

use data_encoding::BASE32_NOPAD;
use hmac::{Hmac, Mac};
use rand::rngs::OsRng;
use rand::RngCore;
use sha1::Sha1;
use subtle::ConstantTimeEq;
use vstd::prelude::*;
use vstd::string::*;
use vstd::utf8::*;

use crate::error::OtpuacError;
use crate::text;
use crate::text::{
    chars_of, push_char, push_decimal, push_padded_decimal, push_str, string_from_chars,
    string_of, trim_chars,
};

verus! {

pub const DEFAULT_DIGITS: u32 = 6;
pub const MIN_DIGITS: u32 = 6;
pub const MAX_DIGITS: u32 = 8;
pub const DEFAULT_STEP_SECONDS: u64 = 30;
pub const DEFAULT_SKEW_STEPS: u8 = 1;
pub const MAX_SKEW_STEPS: u8 = 2;
pub const TOTP_SECRET_BYTES: usize = 20;
pub const SHA1_DIGEST_BYTES: usize = 20;

/// `hmac::digest::InvalidLength`, carried as an opaque value.
#[verifier::external_type_specification]
#[verifier::external_body]
pub struct ExInvalidLength(hmac::digest::InvalidLength);

/// `data_encoding::DecodeError`, carried as an opaque value.
#[verifier::external_type_specification]
#[verifier::external_body]
pub struct ExBase32DecodeError(data_encoding::DecodeError);

/// HMAC-SHA1 of `message` under `key` (RFC 2104 with SHA-1).
pub uninterp spec fn hmac_sha1(key: Seq<u8>, message: Seq<u8>) -> Seq<u8>;

/// The unpadded RFC 4648 base32 encoding of `data` (`data_encoding::BASE32_NOPAD`).
pub uninterp spec fn base32_nopad_encode(data: Seq<u8>) -> Seq<char>;

/// What `data_encoding::BASE32_NOPAD` decodes `input` to, if it accepts it.
pub uninterp spec fn base32_nopad_decode(input: Seq<u8>) -> Option<Seq<u8>>;

/// The characters that `char::to_uppercase` yields for `c`.
pub uninterp spec fn char_to_uppercase(c: char) -> Seq<char>;

/// Computes HMAC-SHA1 with the `hmac` and `sha1` crates:
/// `Hmac::<Sha1>::new_from_slice(key)`, `update(message)`, `finalize()`.
/// `new_from_slice` of `Hmac` accepts keys of every length (longer keys are
/// hashed first), so the call never fails; the digest is SHA-1 sized.
#[verifier::external_body]
fn hmac_sha1_digest(key: &[u8], message: &[u8]) -> (r: Result<Vec<u8>, hmac::digest::InvalidLength>)
    ensures
        r is Ok,
        r matches Ok(d) ==> d@ == hmac_sha1(key@, message@) && d@.len() == SHA1_DIGEST_BYTES,
{
    let mut mac = <Hmac<Sha1> as Mac>::new_from_slice(key)?;
    mac.update(message);
    Ok(mac.finalize().into_bytes().to_vec())
}

/// `subtle::ConstantTimeEq::ct_eq` on byte slices: true exactly when both
/// slices have the same length and the same bytes.
#[verifier::external_body]
fn constant_time_eq(a: &[u8], b: &[u8]) -> (r: bool)
    ensures
        r == (a@ == b@),
{
    bool::from(a.ct_eq(b))
}

/// The base32 symbols `A`..`Z` and `2`..`7` of RFC 4648.
pub open spec fn is_base32_symbol(c: char) -> bool {
    ('A' <= c <= 'Z') || ('2' <= c <= '7')
}

/// `BASE32_NOPAD.encode(data)`: every output character is a base32 symbol
/// (the encoding has no padding), the output has `encode_len` characters,
/// which for this encoding is 8n/5 rounded up, and the crate documents that
/// decoding the encoding gives back the data. Lengths above
/// `usize::MAX / 512` may panic.
#[verifier::external_body]
fn base32_encode(data: &[u8]) -> (r: String)
    requires
        data@.len() <= usize::MAX / 512,
    ensures
        r@ == base32_nopad_encode(data@),
        forall|i: int| 0 <= i < r@.len() ==> is_base32_symbol(#[trigger] r@[i]),
        r@.len() == (8 * data@.len() + 4) / 5,
        base32_nopad_decode(encode_utf8(r@)) == Some(data@),
{
    BASE32_NOPAD.encode(data)
}

/// `BASE32_NOPAD.decode(input)`. The crate documents that encoding followed by
/// decoding gives back the data, so the encoding of any `d` decodes to `d`.
/// Lengths above `usize::MAX / 8` may panic.
#[verifier::external_body]
fn base32_decode(input: &[u8]) -> (r: Result<Vec<u8>, data_encoding::DecodeError>)
    requires
        input@.len() <= usize::MAX / 8,
    ensures
        r matches Ok(v) ==> base32_nopad_decode(input@) == Some(v@),
        r is Err ==> base32_nopad_decode(input@) is None,
        r matches Ok(v) ==> forall|d: Seq<u8>|
            encode_utf8(#[trigger] base32_nopad_encode(d)) == input@ ==> v@ == d,
        r is Err ==> forall|d: Seq<u8>| encode_utf8(#[trigger] base32_nopad_encode(d)) != input@,
{
    BASE32_NOPAD.decode(input)
}

/// `char::to_uppercase(c)`, collected. Uppercase ASCII letters and ASCII
/// digits have no uppercase mapping, so they map to themselves.
#[verifier::external_body]
fn uppercase_of(c: char) -> (r: Vec<char>)
    ensures
        r@ == char_to_uppercase(c),
        ('A' <= c <= 'Z' || '0' <= c <= '9') ==> r@ == seq![c],
{
    c.to_uppercase().collect()
}

/// `len` bytes from the operating system's random source (`OsRng.fill_bytes`).
/// The bytes are unpredictable; only their number is known. `fill_bytes`
/// panics if the operating system cannot supply randomness.
#[verifier::external_body]
pub(crate) fn os_random_bytes(len: usize) -> (r: Vec<u8>)
    ensures
        r@.len() == len,
{
    let mut bytes = vec![0_u8; len];
    OsRng.fill_bytes(&mut bytes);
    bytes
}

/// How TOTP codes are computed and accepted.
#[derive(Clone, Debug)]
pub struct TotpPolicy {
    pub digits: u32,
    pub step_seconds: u64,
    pub skew_steps: u8,
    pub issuer: String,
}

impl Default for TotpPolicy {
    fn default() -> (r: Self)
        ensures
            r.digits == DEFAULT_DIGITS,
            r.step_seconds == DEFAULT_STEP_SECONDS,
            r.skew_steps == DEFAULT_SKEW_STEPS,
            r.issuer@ == "OTPUAC"@,
    {
        TotpPolicy {
            digits: DEFAULT_DIGITS,
            step_seconds: DEFAULT_STEP_SECONDS,
            skew_steps: DEFAULT_SKEW_STEPS,
            issuer: string_of("OTPUAC"),
        }
    }
}

impl TotpPolicy {
    /// What is wrong with the policy, if anything.
    pub open spec fn problem(self) -> Option<Seq<char>> {
        if !(MIN_DIGITS <= self.digits <= MAX_DIGITS) {
            Some("digits must be between 6 and 8"@)
        } else if self.step_seconds == 0 {
            Some("step_seconds must be greater than zero"@)
        } else if self.skew_steps > MAX_SKEW_STEPS {
            Some("skew_steps must not exceed two"@)
        } else if text::trim(self.issuer@).len() == 0 {
            Some("issuer is required"@)
        } else {
            None
        }
    }

    pub open spec fn is_valid(self) -> bool {
        self.problem() is None
    }

    /// Checks the policy: 6 to 8 digits, a positive step, at most two steps
    /// of skew, and an issuer that is not blank.
    pub fn validate(&self) -> (r: Result<(), OtpuacError>)
        ensures
            r is Ok <==> self.is_valid(),
            r matches Err(e) ==> is_policy_error(e, self.problem()),
    {
        if !(MIN_DIGITS <= self.digits && self.digits <= MAX_DIGITS) {
            return Err(OtpuacError::InvalidTotpPolicy("digits must be between 6 and 8"));
        }
        if self.step_seconds == 0 {
            return Err(OtpuacError::InvalidTotpPolicy("step_seconds must be greater than zero"));
        }
        if self.skew_steps > MAX_SKEW_STEPS {
            return Err(OtpuacError::InvalidTotpPolicy("skew_steps must not exceed two"));
        }
        let issuer = chars_of(self.issuer.as_str());
        let trimmed = trim_chars(issuer.as_slice());
        if trimmed.len() == 0 {
            return Err(OtpuacError::InvalidTotpPolicy("issuer is required"));
        }
        Ok(())
    }
}

/// `e` is the policy error that reports `problem`.
pub open spec fn is_policy_error(e: OtpuacError, problem: Option<Seq<char>>) -> bool {
    e matches OtpuacError::InvalidTotpPolicy(m) && problem == Some(m@)
}

/// A new random TOTP secret of `TOTP_SECRET_BYTES` bytes.
pub fn generate_totp_secret() -> (r: Vec<u8>)
    ensures
        r@.len() == TOTP_SECRET_BYTES,
{
    os_random_bytes(TOTP_SECRET_BYTES)
}

/// The base32 (unpadded) text of a TOTP secret: 8n/5 characters, rounded up,
/// which `decode_totp_secret` turns back into the secret.
pub fn encode_totp_secret(secret: &[u8]) -> (r: String)
    requires
        secret@.len() <= usize::MAX / 512,
    ensures
        r@ == base32_nopad_encode(secret@),
        forall|i: int| 0 <= i < r@.len() ==> is_base32_symbol(#[trigger] r@[i]),
        r@.len() == (8 * secret@.len() + 4) / 5,
        encode_utf8(r@).len() == r@.len() <= usize::MAX / 8,
        base32_nopad_decode(encode_utf8(r@)) == Some(secret@),
{
    let r = base32_encode(secret);
    proof {
        assert(is_ascii_chars(r@));
        is_ascii_chars_encode_utf8(r@);
        assert((8 * secret@.len() + 4) / 5 <= usize::MAX / 8);
    }
    r
}

/// Whether `c` survives normalisation of a base32 secret.
pub open spec fn kept_in_secret(c: char) -> bool {
    !text::is_ascii_white_space(c) && c != '='
}

/// A user-typed base32 secret with ASCII whitespace and `=` removed and every
/// character uppercased.
pub open spec fn normalized_secret(s: Seq<char>) -> Seq<char>
    decreases s.len(),
{
    if s.len() == 0 {
        Seq::empty()
    } else {
        let c = s.last();
        normalized_secret(s.drop_last()) + if kept_in_secret(c) {
            char_to_uppercase(c)
        } else {
            Seq::empty()
        }
    }
}

proof fn lemma_normalized_base32_text(s: Seq<char>)
    requires
        forall|i: int| 0 <= i < s.len() ==> is_base32_symbol(#[trigger] s[i]),
        forall|i: int| 0 <= i < s.len() ==> char_to_uppercase(#[trigger] s[i]) == seq![s[i]],
    ensures
        normalized_secret(s) == s,
    decreases s.len(),
{
    if s.len() > 0 {
        let t = s.drop_last();
        assert forall|i: int| 0 <= i < t.len() implies is_base32_symbol(#[trigger] t[i]) by {
            assert(t[i] == s[i]);
        }
        assert forall|i: int| 0 <= i < t.len() implies char_to_uppercase(#[trigger] t[i])
            == seq![t[i]] by {
            assert(t[i] == s[i]);
        }
        lemma_normalized_base32_text(t);
        assert(is_base32_symbol(s[s.len() - 1]));
        assert(char_to_uppercase(s[s.len() - 1]) == seq![s[s.len() - 1]]);
        assert(s == t.push(s.last()));
    }
}

/// Normalises a user-typed base32 secret (see `normalized_secret`).
pub fn normalize_base32_secret(encoded: &str) -> (r: String)
    ensures
        r@ == normalized_secret(encoded@),
        forall|i: int|
            0 <= i < encoded@.len() && is_base32_symbol(#[trigger] encoded@[i])
                ==> char_to_uppercase(encoded@[i]) == seq![encoded@[i]],
{
    let cs = chars_of(encoded);
    let mut out: Vec<char> = Vec::new();
    let mut i: usize = 0;
    while i < cs.len()
        invariant
            i <= cs@.len(),
            cs@ == encoded@,
            out@ == normalized_secret(cs@.take(i as int)),
            forall|j: int|
                0 <= j < i && is_base32_symbol(#[trigger] cs@[j]) ==> char_to_uppercase(cs@[j])
                    == seq![cs@[j]],
        decreases cs@.len() - i,
    {
        let c = cs[i];
        assert(cs@.take(i + 1).drop_last() == cs@.take(i as int));
        if c != ' ' && c != '\t' && c != '\n' && c != '\x0C' && c != '\r' && c != '=' {
            let up = uppercase_of(c);
            let mut k: usize = 0;
            let ghost before = out@;
            while k < up.len()
                invariant
                    k <= up@.len(),
                    out@ == before + up@.take(k as int),
                decreases up@.len() - k,
            {
                out.push(up[k]);
                assert(up@.take(k + 1) == up@.take(k as int).push(up@[k as int]));
                k = k + 1;
            }
            assert(up@.take(up@.len() as int) == up@);
        } else {
            assert(out@ == out@ + Seq::<char>::empty());
        }
        i = i + 1;
    }
    assert(cs@.take(cs@.len() as int) == cs@);
    string_from_chars(out.as_slice())
}

/// What decoding a typed TOTP secret gives, if it is a valid base32 secret.
pub open spec fn decoded_secret(encoded: Seq<char>) -> Option<Seq<u8>> {
    base32_nopad_decode(encode_utf8(normalized_secret(encoded)))
}

/// Decodes a typed base32 TOTP secret: whitespace and `=` are ignored and
/// letters may be of either case. The text that `encode_totp_secret` gives for
/// `d` decodes to `d`. (Normalised text longer than `usize::MAX / 8` bytes,
/// which the decoder may not handle, is refused as invalid base32.)
pub fn decode_totp_secret(encoded: &str) -> (r: Result<Vec<u8>, OtpuacError>)
    ensures
        r matches Ok(v) ==> decoded_secret(encoded@) == Some(v@),
        r is Err ==> r matches Err(OtpuacError::Base32),
        r is Err && encode_utf8(normalized_secret(encoded@)).len() <= usize::MAX / 8
            ==> decoded_secret(encoded@) is None,
        forall|d: Seq<u8>|
            #[trigger] base32_nopad_encode(d) == encoded@ && (forall|i: int|
                0 <= i < encoded@.len() ==> is_base32_symbol(encoded@[i])) && encode_utf8(
                encoded@,
            ).len() <= usize::MAX / 8 ==> (r matches Ok(v) && v@ == d),
{
    let normalized = normalize_base32_secret(encoded);
    let bytes = normalized.as_str().as_bytes();
    proof {
        if forall|i: int| 0 <= i < encoded@.len() ==> is_base32_symbol(encoded@[i]) {
            lemma_normalized_base32_text(encoded@);
        }
    }
    if bytes.len() > usize::MAX / 8 {
        return Err(OtpuacError::Base32);
    }
    match base32_decode(bytes) {
        Ok(v) => Ok(v),
        Err(_) => Err(OtpuacError::Base32),
    }
}

/// The eight big-endian bytes of `counter`.
pub open spec fn counter_bytes(counter: u64) -> Seq<u8> {
    seq![
        (counter / 0x100000000000000) as u8,
        ((counter / 0x1000000000000) % 0x100) as u8,
        ((counter / 0x10000000000) % 0x100) as u8,
        ((counter / 0x100000000) % 0x100) as u8,
        ((counter / 0x1000000) % 0x100) as u8,
        ((counter / 0x10000) % 0x100) as u8,
        ((counter / 0x100) % 0x100) as u8,
        (counter % 0x100) as u8,
    ]
}

fn counter_to_be_bytes(counter: u64) -> (r: Vec<u8>)
    ensures
        r@ == counter_bytes(counter),
{
    let mut r: Vec<u8> = Vec::new();
    r.push((counter / 0x100000000000000) as u8);
    r.push(((counter / 0x1000000000000) % 0x100) as u8);
    r.push(((counter / 0x10000000000) % 0x100) as u8);
    r.push(((counter / 0x100000000) % 0x100) as u8);
    r.push(((counter / 0x1000000) % 0x100) as u8);
    r.push(((counter / 0x10000) % 0x100) as u8);
    r.push(((counter / 0x100) % 0x100) as u8);
    r.push((counter % 0x100) as u8);
    r
}

/// RFC 4226 dynamic truncation: the low nibble of byte 19 selects four bytes,
/// read big-endian with the top bit cleared.
pub open spec fn dynamic_truncation(digest: Seq<u8>) -> nat {
    let offset = (digest[19] % 16) as int;
    (digest[offset] % 128) as nat * 0x1000000 + digest[offset + 1] as nat * 0x10000
        + digest[offset + 2] as nat * 0x100 + digest[offset + 3] as nat
}

/// Dynamic truncation of an HMAC-SHA1 digest (RFC 4226, section 5.3).
pub fn dynamic_truncate(digest: &[u8]) -> (r: u32)
    requires
        digest@.len() >= SHA1_DIGEST_BYTES,
    ensures
        r as nat == dynamic_truncation(digest@),
        r < 0x80000000,
{
    let offset = (digest[SHA1_DIGEST_BYTES - 1] % 16) as usize;
    ((digest[offset] % 128) as u32) * 0x1000000 + (digest[offset + 1] as u32) * 0x10000
        + (digest[offset + 2] as u32) * 0x100 + (digest[offset + 3] as u32)
}

/// Ten to the power `n`.
pub open spec fn pow10(n: nat) -> nat
    decreases n,
{
    if n == 0 {
        1
    } else {
        10 * pow10((n - 1) as nat)
    }
}

fn pow10_u32(n: u32) -> (r: u32)
    requires
        n <= 9,
    ensures
        r as nat == pow10(n as nat),
        r >= 1,
{
    let mut r: u32 = 1;
    let mut i: u32 = 0;
    while i < n
        invariant
            i <= n <= 9,
            r as nat == pow10(i as nat),
            r >= 1,
        decreases n - i,
    {
        proof {
            lemma_pow10_small(i as nat);
        }
        r = r * 10;
        i = i + 1;
    }
    r
}

proof fn lemma_pow10_small(i: nat)
    requires
        i <= 8,
    ensures
        pow10(i) <= 100_000_000,
        pow10(i + 1) == 10 * pow10(i),
{
    reveal_with_fuel(pow10, 10);
    if i == 0 {
    } else if i == 1 {
    } else if i == 2 {
    } else if i == 3 {
    } else if i == 4 {
    } else if i == 5 {
    } else if i == 6 {
    } else if i == 7 {
    } else {
    }
}

/// The HOTP value of `secret` at `counter` with `digits` decimal digits.
pub open spec fn hotp_code(secret: Seq<u8>, counter: u64, digits: u32) -> Seq<char> {
    text::padded_decimal(
        dynamic_truncation(hmac_sha1(secret, counter_bytes(counter))) % pow10(digits as nat),
        digits as nat,
    )
}

/// The HOTP code (RFC 4226) of `secret` at `counter`, zero-padded to `digits`
/// decimal digits.
pub fn hotp(secret: &[u8], counter: u64, digits: u32) -> (r: Result<String, OtpuacError>)
    requires
        digits <= 9,
    ensures
        r matches Ok(code) && code@ == hotp_code(secret@, counter, digits),
{
    let message = counter_to_be_bytes(counter);
    let digest = match hmac_sha1_digest(secret, message.as_slice()) {
        Ok(digest) => digest,
        Err(_) => {
            return Err(OtpuacError::Crypto(string_of("invalid HMAC key")));
        },
    };
    let binary = dynamic_truncate(digest.as_slice());
    let modulus = pow10_u32(digits);
    let mut code = String::new();
    push_padded_decimal(&mut code, (binary % modulus) as u64, digits);
    Ok(code)
}

/// The time step that contains `unix_time`.
pub open spec fn step_of(unix_time: u64, policy: TotpPolicy) -> u64 {
    (unix_time / policy.step_seconds) as u64
}

fn totp_step(unix_time: u64, policy: &TotpPolicy) -> (r: u64)
    requires
        policy.step_seconds > 0,
    ensures
        r == step_of(unix_time, *policy),
{
    unix_time / policy.step_seconds
}

/// The TOTP code for `unix_time` under `policy`.
pub fn code_at(secret: &[u8], policy: &TotpPolicy, unix_time: u64) -> (r: Result<
    String,
    OtpuacError,
>)
    ensures
        r is Ok <==> policy.is_valid(),
        r matches Err(e) ==> is_policy_error(e, policy.problem()),
        r matches Ok(code) ==> code@ == hotp_code(
            secret@,
            step_of(unix_time, *policy),
            policy.digits,
        ),
{
    policy.validate()?;
    let counter = totp_step(unix_time, policy);
    hotp(secret, counter, policy.digits)
}

/// A candidate code is exactly `digits` ASCII digits. (For such text the
/// number of bytes equals the number of characters.)
pub open spec fn is_candidate_code(candidate: Seq<char>, digits: u32) -> bool {
    candidate.len() == digits && forall|i: int|
        0 <= i < candidate.len() ==> text::is_ascii_digit(#[trigger] candidate[i])
}

fn validate_candidate_code(candidate: &[char], digits: u32) -> (r: Result<(), OtpuacError>)
    ensures
        r is Ok <==> is_candidate_code(candidate@, digits),
        r matches Err(e) ==> e matches OtpuacError::InvalidTotpCode,
{
    if candidate.len() as u64 != digits as u64 {
        return Err(OtpuacError::InvalidTotpCode);
    }
    let mut i: usize = 0;
    while i < candidate.len()
        invariant
            i <= candidate@.len(),
            forall|j: int| 0 <= j < i ==> text::is_ascii_digit(#[trigger] candidate@[j]),
        decreases candidate@.len() - i,
    {
        let c = candidate[i];
        if !('0' <= c && c <= '9') {
            return Err(OtpuacError::InvalidTotpCode);
        }
        i = i + 1;
    }
    Ok(())
}

/// `value + offset`, when that lies within `u64`.
pub open spec fn shifted_step(value: u64, offset: int) -> Option<u64> {
    if 0 <= value + offset <= u64::MAX {
        Some((value + offset) as u64)
    } else {
        None
    }
}

/// Adds a signed offset to a step, or gives `None` on underflow or overflow.
pub fn add_signed(value: u64, offset: i64) -> (r: Option<u64>)
    ensures
        r == shifted_step(value, offset as int),
{
    if offset < 0 {
        let magnitude: u64 = if offset == i64::MIN {
            0x8000000000000000
        } else {
            (0 - offset) as u64
        };
        if magnitude <= value {
            Some(value - magnitude)
        } else {
            None
        }
    } else {
        let o = offset as u64;
        if value <= u64::MAX - o {
            Some(value + o)
        } else {
            None
        }
    }
}

/// The first step among `current - skew, ..., current + skew` (taken in that
/// order, from position `j`) whose HOTP code equals `candidate`.
#[verifier::opaque]
pub open spec fn matching_step(
    secret: Seq<u8>,
    digits: u32,
    candidate: Seq<char>,
    current: u64,
    skew: int,
    j: int,
) -> Option<u64>
    decreases 2 * skew + 1 - j,
{
    if j < 0 || j > 2 * skew {
        None
    } else {
        let rest = matching_step(secret, digits, candidate, current, skew, j + 1);
        match shifted_step(current, j - skew) {
            Some(step) => if hotp_code(secret, step, digits) == candidate {
                Some(step)
            } else {
                rest
            },
            None => rest,
        }
    }
}

/// Whether the HOTP code of `step` equals the candidate, compared in
/// constant time over the UTF-8 bytes.
fn code_matches_step(
    secret: &[u8],
    step: u64,
    digits: u32,
    candidate_text: &String,
    candidate_bytes: &[u8],
) -> (r: bool)
    requires
        digits <= 9,
        candidate_bytes@ == encode_utf8(candidate_text@),
    ensures
        r == (hotp_code(secret@, step, digits) == candidate_text@),
{
    broadcast use encode_utf8_decode_utf8;

    let expected = match hotp(secret, step, digits) {
        Ok(code) => code,
        Err(_) => {
            return false;
        },
    };
    let expected_bytes = expected.as_str().as_bytes();
    let equal = constant_time_eq(expected_bytes, candidate_bytes);
    assert(decode_utf8(encode_utf8(expected@)) == expected@);
    assert(decode_utf8(encode_utf8(candidate_text@)) == candidate_text@);
    equal
}

proof fn lemma_matching_step_unfold(
    secret: Seq<u8>,
    digits: u32,
    candidate: Seq<char>,
    current: u64,
    skew: int,
    j: int,
)
    ensures
        (j < 0 || j > 2 * skew) ==> matching_step(secret, digits, candidate, current, skew, j)
            is None,
        0 <= j <= 2 * skew ==> matching_step(secret, digits, candidate, current, skew, j) == (
        match shifted_step(current, j - skew) {
            Some(step) => if hotp_code(secret, step, digits) == candidate {
                Some(step)
            } else {
                matching_step(secret, digits, candidate, current, skew, j + 1)
            },
            None => matching_step(secret, digits, candidate, current, skew, j + 1),
        }),
{
    reveal(matching_step);
}

/// The step that a submitted code is accepted for at `unix_time`.
pub open spec fn accepted_step(
    secret: Seq<u8>,
    policy: TotpPolicy,
    code: Seq<char>,
    unix_time: u64,
) -> Option<u64> {
    matching_step(
        secret,
        policy.digits,
        text::trim(code),
        step_of(unix_time, policy),
        policy.skew_steps as int,
        0,
    )
}

/// The step whose code matches `code` (surrounding whitespace ignored) within
/// the policy's clock skew, earliest step first; `None` when no step matches.
pub fn accepted_step_at(secret: &[u8], policy: &TotpPolicy, code: &str, unix_time: u64) -> (r:
    Result<Option<u64>, OtpuacError>)
    ensures
        !policy.is_valid() ==> (r matches Err(e) && is_policy_error(e, policy.problem())),
        policy.is_valid() && !is_candidate_code(text::trim(code@), policy.digits) ==> r matches Err(
            OtpuacError::InvalidTotpCode,
        ),
        policy.is_valid() && is_candidate_code(text::trim(code@), policy.digits) ==> r == Ok::<
            Option<u64>,
            OtpuacError,
        >(accepted_step(secret@, *policy, code@, unix_time)),
{
    policy.validate()?;
    let code_chars = chars_of(code);
    let candidate = trim_chars(code_chars.as_slice());
    validate_candidate_code(candidate.as_slice(), policy.digits)?;
    let candidate_text = string_from_chars(candidate.as_slice());
    let candidate_bytes = candidate_text.as_str().as_bytes();

    let current_step = totp_step(unix_time, policy);
    Ok(first_matching_step(
        secret,
        policy.digits,
        &candidate_text,
        candidate_bytes,
        current_step,
        policy.skew_steps,
    ))
}

fn first_matching_step(
    secret: &[u8],
    digits: u32,
    candidate_text: &String,
    candidate_bytes: &[u8],
    current_step: u64,
    skew_steps: u8,
) -> (r: Option<u64>)
    requires
        digits <= 9,
        candidate_bytes@ == encode_utf8(candidate_text@),
    ensures
        r == matching_step(secret@, digits, candidate_text@, current_step, skew_steps as int, 0),
{
    let skew = skew_steps as i64;
    let ghost cand = candidate_text@;
    let ghost spec_skew = skew as int;
    let mut k: i64 = 0;
    while k <= 2 * skew
        invariant
            0 <= k <= 2 * skew + 1,
            spec_skew == skew == skew_steps,
            0 <= skew <= 255,
            digits <= 9,
            candidate_bytes@ == encode_utf8(cand),
            candidate_text@ == cand,
            matching_step(secret@, digits, cand, current_step, spec_skew, 0) == matching_step(
                secret@,
                digits,
                cand,
                current_step,
                spec_skew,
                k as int,
            ),
        decreases 2 * skew + 1 - k,
    {
        proof {
            lemma_matching_step_unfold(secret@, digits, cand, current_step, spec_skew, k as int);
        }
        let offset = k - skew;
        if let Some(step) = add_signed(current_step, offset) {
            if code_matches_step(secret, step, digits, candidate_text, candidate_bytes) {
                return Some(step);
            }
        }
        k = k + 1;
    }
    proof {
        lemma_matching_step_unfold(secret@, digits, cand, current_step, spec_skew, k as int);
    }
    None
}

/// Whether `code` is accepted at `unix_time`.
pub fn verify_at(secret: &[u8], policy: &TotpPolicy, code: &str, unix_time: u64) -> (r: Result<
    bool,
    OtpuacError,
>)
    ensures
        !policy.is_valid() ==> (r matches Err(e) && is_policy_error(e, policy.problem())),
        policy.is_valid() && !is_candidate_code(text::trim(code@), policy.digits) ==> r matches Err(
            OtpuacError::InvalidTotpCode,
        ),
        policy.is_valid() && is_candidate_code(text::trim(code@), policy.digits) ==> r == Ok::<
            bool,
            OtpuacError,
        >(accepted_step(secret@, *policy, code@, unix_time) is Some),
{
    Ok(accepted_step_at(secret, policy, code, unix_time)?.is_some())
}

/// Unreserved URI characters (RFC 3986): ASCII letters, digits, `-._~`.
pub open spec fn is_unreserved(b: u8) -> bool {
    (0x41 <= b <= 0x5a) || (0x61 <= b <= 0x7a) || (0x30 <= b <= 0x39) || b == 0x2d || b == 0x2e
        || b == 0x5f || b == 0x7e
}

/// The uppercase hexadecimal digit for `d < 16`.
pub open spec fn hex_upper(d: nat) -> char {
    if d < 10 {
        ((d + 48) as u32) as char
    } else {
        ((d + 55) as u32) as char
    }
}

/// Percent-encoding of `bytes`: unreserved bytes stay, every other byte
/// becomes `%` and two uppercase hexadecimal digits.
pub open spec fn percent_encoded(bytes: Seq<u8>) -> Seq<char>
    decreases bytes.len(),
{
    if bytes.len() == 0 {
        Seq::empty()
    } else {
        let b = bytes.last();
        percent_encoded(bytes.drop_last()) + if is_unreserved(b) {
            seq![(b as u32) as char]
        } else {
            seq!['%', hex_upper(b as nat / 16), hex_upper(b as nat % 16)]
        }
    }
}

fn hex_digit(d: u8) -> (c: char)
    requires
        d < 16,
    ensures
        c == hex_upper(d as nat),
{
    if d < 10 {
        (d + 48) as char
    } else {
        (d + 55) as char
    }
}

/// Percent-encodes the UTF-8 bytes of `value` for use in a URI.
pub fn url_component(value: &str) -> (r: String)
    ensures
        r@ == percent_encoded(encode_utf8(value@)),
{
    let bytes = value.as_bytes();
    let mut out = String::new();
    let mut i: usize = 0;
    while i < bytes.len()
        invariant
            i <= bytes@.len(),
            bytes@ == encode_utf8(value@),
            out@ == percent_encoded(bytes@.take(i as int)),
        decreases bytes@.len() - i,
    {
        let b = bytes[i];
        assert(bytes@.take(i + 1).drop_last() == bytes@.take(i as int));
        if (0x41 <= b && b <= 0x5a) || (0x61 <= b && b <= 0x7a) || (0x30 <= b && b <= 0x39) || b
            == 0x2d || b == 0x2e || b == 0x5f || b == 0x7e {
            push_char(&mut out, b as char);
        } else {
            push_char(&mut out, '%');
            push_char(&mut out, hex_digit(b / 16));
            push_char(&mut out, hex_digit(b % 16));
        }
        i = i + 1;
    }
    assert(bytes@.take(bytes@.len() as int) == bytes@);
    out
}

/// A character that may stand in a URI component after percent-encoding:
/// an unreserved character (ASCII letter, digit, `-`, `.`, `_`, `~`), or `%`.
pub open spec fn is_uri_component_char(c: char) -> bool {
    ('A' <= c <= 'Z') || ('a' <= c <= 'z') || ('0' <= c <= '9') || c == '-' || c == '.' || c
        == '_' || c == '~' || c == '%'
}

/// An uppercase hexadecimal digit.
pub open spec fn is_upper_hex(c: char) -> bool {
    ('0' <= c <= '9') || ('A' <= c <= 'F')
}

/// `q` is percent-encoded text: only unreserved characters and `%`, and
/// every `%` starts an escape of two uppercase hexadecimal digits.
pub open spec fn is_percent_encoded_text(q: Seq<char>) -> bool {
    &&& forall|i: int| 0 <= i < q.len() ==> is_uri_component_char(#[trigger] q[i])
    &&& forall|i: int|
        0 <= i < q.len() && #[trigger] q[i] == '%' ==> i + 2 < q.len() && is_upper_hex(q[i + 1])
            && is_upper_hex(q[i + 2]) && q[i + 1] != '%' && q[i + 2] != '%'
}

proof fn lemma_hex_upper(d: nat)
    requires
        d < 16,
    ensures
        is_upper_hex(hex_upper(d)),
        is_uri_component_char(hex_upper(d)),
        hex_upper(d) != '%',
{
}

proof fn lemma_percent_encoded_text(bytes: Seq<u8>)
    ensures
        is_percent_encoded_text(percent_encoded(bytes)),
    decreases bytes.len(),
{
    if bytes.len() > 0 {
        let prev = percent_encoded(bytes.drop_last());
        lemma_percent_encoded_text(bytes.drop_last());
        let b = bytes.last();
        let tail: Seq<char> = if is_unreserved(b) {
            seq![(b as u32) as char]
        } else {
            seq!['%', hex_upper(b as nat / 16), hex_upper(b as nat % 16)]
        };
        if !is_unreserved(b) {
            lemma_hex_upper(b as nat / 16);
            lemma_hex_upper(b as nat % 16);
        }
        let q = percent_encoded(bytes);
        assert(q == prev + tail);
        assert forall|i: int| 0 <= i < q.len() implies is_uri_component_char(#[trigger] q[i]) by {
            if i < prev.len() {
                assert(q[i] == prev[i]);
            } else {
                assert(q[i] == tail[i - prev.len()]);
            }
        }
        assert forall|i: int| 0 <= i < q.len() && #[trigger] q[i] == '%' implies i + 2 < q.len()
            && is_upper_hex(q[i + 1]) && is_upper_hex(q[i + 2]) && q[i + 1] != '%' && q[i + 2]
            != '%' by {
            if i < prev.len() {
                assert(q[i] == prev[i]);
                assert(q[i + 1] == prev[i + 1]);
                assert(q[i + 2] == prev[i + 2]);
            } else {
                assert(q[i] == tail[i - prev.len()]);
                if is_unreserved(b) {
                    assert(tail[0] != '%');
                } else {
                    assert(i == prev.len());
                }
            }
        }
    }
}

/// URI escaping: the text `url_component` makes of any bytes holds only
/// unreserved characters and `%XX` escapes, so no space, `&`, `#`, `?`, `/`,
/// `:` or `=` from the input survives into a URI.
pub proof fn law_url_component_escapes(bytes: Seq<u8>)
    ensures
        is_percent_encoded_text(percent_encoded(bytes)),
        forall|i: int|
            0 <= i < percent_encoded(bytes).len() ==> #[trigger] percent_encoded(bytes)[i] != ' '
                && percent_encoded(bytes)[i] != '&' && percent_encoded(bytes)[i] != '#'
                && percent_encoded(bytes)[i] != '?' && percent_encoded(bytes)[i] != '/'
                && percent_encoded(bytes)[i] != ':' && percent_encoded(bytes)[i] != '=',
{
    lemma_percent_encoded_text(bytes);
}

/// The enrollment URI's shape: after the fixed scheme and type come the
/// escaped label, the secret as given, the escaped issuer, and the fixed
/// algorithm, digits and period; the label and issuer parts are
/// percent-encoded text, so nothing in the issuer or label can end a part
/// or start another.
pub proof fn law_otpauth_uri_escapes_label_and_issuer(
    account_label: Seq<char>,
    encoded_secret: Seq<char>,
    policy: TotpPolicy,
)
    ensures
        exists|label: Seq<char>, issuer: Seq<char>|
            {
                &&& is_percent_encoded_text(label)
                &&& is_percent_encoded_text(issuer)
                &&& otpauth_text(account_label, encoded_secret, policy) == "otpauth://totp/"@ + label
                    + "?secret="@ + encoded_secret + "&issuer="@ + issuer
                    + "&algorithm=SHA1&digits="@ + text::decimal(policy.digits as nat)
                    + "&period="@ + text::decimal(policy.step_seconds as nat)
            },
{
    let label = percent_encoded(encode_utf8(policy.issuer@ + ":"@ + account_label));
    let issuer = percent_encoded(encode_utf8(policy.issuer@));
    lemma_percent_encoded_text(encode_utf8(policy.issuer@ + ":"@ + account_label));
    lemma_percent_encoded_text(encode_utf8(policy.issuer@));
    assert(otpauth_text(account_label, encoded_secret, policy) == "otpauth://totp/"@ + label
        + "?secret="@ + encoded_secret + "&issuer="@ + issuer + "&algorithm=SHA1&digits="@
        + text::decimal(policy.digits as nat) + "&period="@ + text::decimal(
        policy.step_seconds as nat,
    ));
}

/// The `otpauth://` enrollment URI for an account under `policy`.
pub open spec fn otpauth_text(
    account_label: Seq<char>,
    encoded_secret: Seq<char>,
    policy: TotpPolicy,
) -> Seq<char> {
    "otpauth://totp/"@ + percent_encoded(encode_utf8(policy.issuer@ + ":"@ + account_label))
        + "?secret="@ + encoded_secret + "&issuer="@ + percent_encoded(encode_utf8(policy.issuer@))
        + "&algorithm=SHA1&digits="@ + text::decimal(policy.digits as nat) + "&period="@ + text::decimal(
        policy.step_seconds as nat,
    )
}

/// The enrollment URI that authenticator apps read:
/// `otpauth://totp/<issuer:label>?secret=..&issuer=..&algorithm=SHA1&digits=..&period=..`.
pub fn otpauth_uri(account_label: &str, encoded_secret: &str, policy: &TotpPolicy) -> (r: Result<
    String,
    OtpuacError,
>)
    ensures
        r is Ok <==> policy.is_valid(),
        r matches Err(e) ==> is_policy_error(e, policy.problem()),
        r matches Ok(uri) ==> uri@ == otpauth_text(account_label@, encoded_secret@, *policy),
{
    policy.validate()?;
    let issuer = url_component(policy.issuer.as_str());
    let mut joined = string_of(policy.issuer.as_str());
    push_char(&mut joined, ':');
    push_str(&mut joined, account_label);
    assert(joined@ == policy.issuer@ + ":"@ + account_label@) by {
        reveal_strlit(":");
    }
    let label = url_component(joined.as_str());
    let mut uri = string_of("otpauth://totp/");
    push_str(&mut uri, label.as_str());
    push_str(&mut uri, "?secret=");
    push_str(&mut uri, encoded_secret);
    push_str(&mut uri, "&issuer=");
    push_str(&mut uri, issuer.as_str());
    push_str(&mut uri, "&algorithm=SHA1&digits=");
    push_decimal(&mut uri, policy.digits as u64);
    push_str(&mut uri, "&period=");
    push_decimal(&mut uri, policy.step_seconds);
    Ok(uri)
}

proof fn lemma_padded_decimal_digits(n: nat, width: nat)
    ensures
        text::padded_decimal(n, width).len() == width,
        forall|i: int|
            0 <= i < width ==> text::is_ascii_digit(#[trigger] text::padded_decimal(n, width)[i]),
    decreases width,
{
    if width > 0 {
        lemma_padded_decimal_digits(n / 10, (width - 1) as nat);
        let prev = text::padded_decimal(n / 10, (width - 1) as nat);
        assert forall|i: int| 0 <= i < width implies text::is_ascii_digit(
            #[trigger] text::padded_decimal(n, width)[i],
        ) by {
            if i < width - 1 {
                assert(text::padded_decimal(n, width)[i] == prev[i]);
            } else {
                assert(text::padded_decimal(n, width)[i] == text::digit_char(n % 10));
            }
        }
    }
}

proof fn lemma_trim_of_digits(s: Seq<char>)
    requires
        forall|i: int| 0 <= i < s.len() ==> text::is_ascii_digit(#[trigger] s[i]),
    ensures
        text::trim(s) == s,
{
    if s.len() > 0 {
        assert(text::is_ascii_digit(s[0]));
        assert(text::skip_white_space(s, 0) == 0);
        assert(text::is_ascii_digit(s[s.len() - 1]));
        assert(text::drop_trailing_white_space(s, 0, s.len() as int) == s.len());
    }
    assert(s.subrange(0, s.len() as int) == s);
}

proof fn lemma_matching_step_finds(
    secret: Seq<u8>,
    digits: u32,
    candidate: Seq<char>,
    current: u64,
    skew: int,
    j: int,
    target: int,
)
    requires
        0 <= j <= target <= 2 * skew,
        shifted_step(current, target - skew) matches Some(step) && hotp_code(secret, step, digits)
            == candidate,
    ensures
        matching_step(secret, digits, candidate, current, skew, j) is Some,
    decreases target - j,
{
    lemma_matching_step_unfold(secret, digits, candidate, current, skew, j);
    if j < target {
        lemma_matching_step_finds(secret, digits, candidate, current, skew, j + 1, target);
    }
}

proof fn lemma_matching_step_sound(
    secret: Seq<u8>,
    digits: u32,
    candidate: Seq<char>,
    current: u64,
    skew: int,
    j: int,
    step: u64,
)
    requires
        0 <= j,
        matching_step(secret, digits, candidate, current, skew, j) == Some(step),
    ensures
        hotp_code(secret, step, digits) == candidate,
        current - skew <= step <= current + skew,
    decreases 2 * skew + 1 - j,
{
    lemma_matching_step_unfold(secret, digits, candidate, current, skew, j);
    if j <= 2 * skew {
        match shifted_step(current, j - skew) {
            Some(s) => {
                if hotp_code(secret, s, digits) != candidate {
                    lemma_matching_step_sound(secret, digits, candidate, current, skew, j + 1, step);
                }
            },
            None => {
                lemma_matching_step_sound(secret, digits, candidate, current, skew, j + 1, step);
            },
        }
    }
}

/// Clock-skew tolerance: the code generated at one time is a well-formed
/// candidate, and it is accepted at any other time whose step lies within the
/// policy's skew of the generating step.
pub proof fn law_code_accepted_within_skew(
    secret: Seq<u8>,
    policy: TotpPolicy,
    generated_at: u64,
    checked_at: u64,
)
    requires
        policy.is_valid(),
        step_of(checked_at, policy) <= step_of(generated_at, policy) + policy.skew_steps,
        step_of(generated_at, policy) <= step_of(checked_at, policy) + policy.skew_steps,
    ensures
        text::trim(hotp_code(secret, step_of(generated_at, policy), policy.digits)) == hotp_code(
            secret,
            step_of(generated_at, policy),
            policy.digits,
        ),
        is_candidate_code(
            hotp_code(secret, step_of(generated_at, policy), policy.digits),
            policy.digits,
        ),
        accepted_step(
            secret,
            policy,
            hotp_code(secret, step_of(generated_at, policy), policy.digits),
            checked_at,
        ) is Some,
{
    let g = step_of(generated_at, policy);
    let c = step_of(checked_at, policy);
    let code = hotp_code(secret, g, policy.digits);
    let n = dynamic_truncation(hmac_sha1(secret, counter_bytes(g))) % pow10(policy.digits as nat);
    lemma_padded_decimal_digits(n, policy.digits as nat);
    lemma_trim_of_digits(code);
    let skew = policy.skew_steps as int;
    let target = g - c + skew;
    assert(shifted_step(c, target - skew) == Some(g));
    lemma_matching_step_finds(secret, policy.digits, code, c, skew, 0, target);
}

/// Soundness of acceptance: an accepted step is one whose code equals the
/// submitted code (surrounding whitespace ignored) and that lies within the
/// policy's skew of the current step.
pub proof fn law_accepted_step_is_within_skew(
    secret: Seq<u8>,
    policy: TotpPolicy,
    code: Seq<char>,
    unix_time: u64,
    step: u64,
)
    requires
        accepted_step(secret, policy, code, unix_time) == Some(step),
    ensures
        hotp_code(secret, step, policy.digits) == text::trim(code),
        step_of(unix_time, policy) - policy.skew_steps <= step <= step_of(unix_time, policy)
            + policy.skew_steps,
{
    lemma_matching_step_sound(
        secret,
        policy.digits,
        text::trim(code),
        step_of(unix_time, policy),
        policy.skew_steps as int,
        0,
        step,
    );
}

} // verus!
