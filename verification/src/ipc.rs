//! Messages between the credential provider and the service, and their
//! length-prefixed framing.

use vstd::prelude::*;
use vstd::string::*;

use crate::error::OtpuacError;
use crate::text;
use crate::text::{copy_string, push_char, push_decimal, push_str, string_of};
use crate::wipe::zeroize_string;

verus! {

pub const PIPE_NAME: &'static str = "\\\\.\\pipe\\OTPUAC";

pub const MAX_IPC_MESSAGE_BYTES: usize = 65536;

pub const CRED_UI_USAGE_SCENARIO: &'static str = "CPUS_CREDUI";

pub const FRAME_LENGTH_PREFIX_BYTES: usize = 4;

/// `format!("{:?}", s)` for a string: quoted, with `char::escape_debug` escapes.
pub uninterp spec fn debug_quoted(s: Seq<char>) -> Seq<char>;

/// `Debug` formatting of a `str` (`format!("{:?}", s)`).
#[verifier::external_body]
fn debug_str(s: &str) -> (r: String)
    ensures
        r@ == debug_quoted(s@),
{
    format!("{s:?}")
}

/// A request from the credential provider to unlock the managed credential.
#[derive(Clone)]
pub struct ProviderUnlockRequest {
    pub request_id: String,
    pub usage_scenario: String,
    pub totp_code: String,
}

impl ProviderUnlockRequest {
    /// A request for the UAC credential UI scenario.
    pub fn credential_ui(request_id: &str, totp_code: &str) -> (r: Self)
        ensures
            r.request_id@ == request_id@,
            r.usage_scenario@ == CRED_UI_USAGE_SCENARIO@,
            r.totp_code@ == totp_code@,
    {
        ProviderUnlockRequest {
            request_id: string_of(request_id),
            usage_scenario: string_of(CRED_UI_USAGE_SCENARIO),
            totp_code: string_of(totp_code),
        }
    }

    pub open spec fn debug_view(self) -> Seq<char> {
        "ProviderUnlockRequest { request_id: "@ + debug_quoted(self.request_id@)
            + ", usage_scenario: "@ + debug_quoted(self.usage_scenario@) + ", totp_code: "@
            + debug_quoted("<redacted>"@) + " }"@
    }

    /// The debug rendering of the request; the TOTP code is shown as
    /// `<redacted>`.
    pub fn debug_text(&self) -> (r: String)
        ensures
            r@ == self.debug_view(),
    {
        let mut r = string_of("ProviderUnlockRequest { request_id: ");
        let a = debug_str(self.request_id.as_str());
        push_str(&mut r, a.as_str());
        push_str(&mut r, ", usage_scenario: ");
        let b = debug_str(self.usage_scenario.as_str());
        push_str(&mut r, b.as_str());
        push_str(&mut r, ", totp_code: ");
        let c = debug_str("<redacted>");
        push_str(&mut r, c.as_str());
        push_str(&mut r, " }");
        r
    }
}

/// Why an unlock request was denied.
#[derive(Clone, Copy, Debug, PartialEq, Eq)]
pub enum UnlockFailureReason {
    InvalidCode,
    RateLimited,
    ReplayDetected,
    UnsupportedUsageScenario,
}

impl UnlockFailureReason {
    pub open spec fn name(self) -> Seq<char> {
        match self {
            UnlockFailureReason::InvalidCode => "InvalidCode"@,
            UnlockFailureReason::RateLimited => "RateLimited"@,
            UnlockFailureReason::ReplayDetected => "ReplayDetected"@,
            UnlockFailureReason::UnsupportedUsageScenario => "UnsupportedUsageScenario"@,
        }
    }

    /// The variant's name, as `Debug` writes it.
    pub fn debug_text(&self) -> (r: String)
        ensures
            r@ == self.name(),
    {
        match self {
            UnlockFailureReason::InvalidCode => string_of("InvalidCode"),
            UnlockFailureReason::RateLimited => string_of("RateLimited"),
            UnlockFailureReason::ReplayDetected => string_of("ReplayDetected"),
            UnlockFailureReason::UnsupportedUsageScenario => string_of("UnsupportedUsageScenario"),
        }
    }
}

/// The service's decision on an unlock request.
#[derive(Clone)]
pub enum UnlockDecision {
    Approved { username: String, domain: Option<String>, password: String },
    Denied { reason: UnlockFailureReason, message: String },
    Error { message: String },
}

impl UnlockDecision {
    pub open spec fn debug_view(self) -> Seq<char> {
        match self {
            UnlockDecision::Approved { username, domain, .. } => "Approved { username: "@
                + debug_quoted(username@) + ", domain: "@ + match domain {
                Some(d) => "Some("@ + debug_quoted(d@) + ")"@,
                None => "None"@,
            } + ", password: "@ + debug_quoted("<redacted>"@) + " }"@,
            UnlockDecision::Denied { reason, message } => "Denied { reason: "@ + reason.name()
                + ", message: "@ + debug_quoted(message@) + " }"@,
            UnlockDecision::Error { message } => "Error { message: "@ + debug_quoted(message@)
                + " }"@,
        }
    }

    /// The debug rendering of the decision; a password is shown as
    /// `<redacted>`.
    pub fn debug_text(&self) -> (r: String)
        ensures
            r@ == self.debug_view(),
    {
        match self {
            UnlockDecision::Approved { username, domain, .. } => {
                let mut r = string_of("Approved { username: ");
                let u = debug_str(username.as_str());
                push_str(&mut r, u.as_str());
                push_str(&mut r, ", domain: ");
                match domain {
                    Some(d) => {
                        push_str(&mut r, "Some(");
                        let q = debug_str(d.as_str());
                        push_str(&mut r, q.as_str());
                        push_str(&mut r, ")");
                    },
                    None => {
                        push_str(&mut r, "None");
                    },
                }
                push_str(&mut r, ", password: ");
                let p = debug_str("<redacted>");
                push_str(&mut r, p.as_str());
                push_str(&mut r, " }");
                r
            },
            UnlockDecision::Denied { reason, message } => {
                let mut r = string_of("Denied { reason: ");
                let n = reason.debug_text();
                push_str(&mut r, n.as_str());
                push_str(&mut r, ", message: ");
                let m = debug_str(message.as_str());
                push_str(&mut r, m.as_str());
                push_str(&mut r, " }");
                r
            },
            UnlockDecision::Error { message } => {
                let mut r = string_of("Error { message: ");
                let m = debug_str(message.as_str());
                push_str(&mut r, m.as_str());
                push_str(&mut r, " }");
                r
            },
        }
    }
}

/// The service's response to an unlock request.
#[derive(Clone)]
pub struct ProviderUnlockResponse {
    pub request_id: String,
    pub decision: UnlockDecision,
}

impl ProviderUnlockResponse {
    /// The decision carried by the response.
    pub fn into_decision(self) -> (r: UnlockDecision)
        ensures
            r == self.decision,
    {
        self.decision
    }

    /// Wipes an approved password; other decisions are left as they are.
    pub fn zeroize_secrets(&mut self)
        ensures
            final(self).request_id == old(self).request_id,
            match (old(self).decision, final(self).decision) {
                (
                    UnlockDecision::Approved { username: u0, domain: d0, .. },
                    UnlockDecision::Approved { username: u1, domain: d1, password: p1 },
                ) => u1 == u0 && d1 == d0 && p1@ == Seq::<char>::empty(),
                (UnlockDecision::Approved { .. }, _) => false,
                (other, now) => now == other,
            },
    {
        if let UnlockDecision::Approved { password, .. } = &mut self.decision {
            zeroize_string(password);
        }
    }

    pub open spec fn debug_view(self) -> Seq<char> {
        "ProviderUnlockResponse { request_id: "@ + debug_quoted(self.request_id@)
            + ", decision: "@ + self.decision.debug_view() + " }"@
    }

    /// The debug rendering of the response; a password is shown as
    /// `<redacted>`.
    pub fn debug_text(&self) -> (r: String)
        ensures
            r@ == self.debug_view(),
    {
        let mut r = string_of("ProviderUnlockResponse { request_id: ");
        let a = debug_str(self.request_id.as_str());
        push_str(&mut r, a.as_str());
        push_str(&mut r, ", decision: ");
        let d = self.decision.debug_text();
        push_str(&mut r, d.as_str());
        push_str(&mut r, " }");
        r
    }
}

/// The four little-endian bytes of `n`.
pub open spec fn le_bytes_u32(n: nat) -> Seq<u8> {
    seq![
        (n % 0x100) as u8,
        ((n / 0x100) % 0x100) as u8,
        ((n / 0x10000) % 0x100) as u8,
        ((n / 0x1000000) % 0x100) as u8,
    ]
}

/// The number that four little-endian bytes denote.
pub open spec fn le_value(b: Seq<u8>) -> nat {
    b[0] as nat + b[1] as nat * 0x100 + b[2] as nat * 0x10000 + b[3] as nat * 0x1000000
}

/// A frame: the payload's length as four little-endian bytes, then the
/// payload.
pub open spec fn frame_of(payload: Seq<u8>) -> Seq<u8> {
    le_bytes_u32(payload.len()) + payload
}

/// The payload that a frame carries, when the frame is well formed: at least
/// the prefix, a declared length within the limit, and exactly that many
/// payload bytes.
pub open spec fn frame_payload(frame: Seq<u8>) -> Option<Seq<u8>> {
    if frame.len() < FRAME_LENGTH_PREFIX_BYTES {
        None
    } else {
        let len = le_value(frame.take(4));
        if len > MAX_IPC_MESSAGE_BYTES || frame.len() - 4 != len {
            None
        } else {
            Some(frame.skip(4))
        }
    }
}

/// Frames a serialised message. Payloads above `MAX_IPC_MESSAGE_BYTES` are
/// refused.
pub fn encode_frame(payload: &[u8]) -> (r: Result<Vec<u8>, OtpuacError>)
    ensures
        payload@.len() <= MAX_IPC_MESSAGE_BYTES ==> (r matches Ok(f) && f@ == frame_of(payload@)),
        payload@.len() > MAX_IPC_MESSAGE_BYTES ==> (r matches Err(OtpuacError::InvalidIpc(m)) && m@
            == "message is too large: "@ + text::decimal(payload@.len()) + " bytes"@),
{
    let len = payload.len();
    if len > MAX_IPC_MESSAGE_BYTES {
        let mut m = string_of("message is too large: ");
        push_decimal(&mut m, len as u64);
        push_str(&mut m, " bytes");
        return Err(OtpuacError::InvalidIpc(m));
    }
    let n = len as u32;
    let mut frame: Vec<u8> = Vec::new();
    frame.push((n % 0x100) as u8);
    frame.push(((n / 0x100) % 0x100) as u8);
    frame.push(((n / 0x10000) % 0x100) as u8);
    frame.push(((n / 0x1000000) % 0x100) as u8);
    let mut i: usize = 0;
    while i < len
        invariant
            i <= len == payload@.len(),
            n == len,
            frame@ == le_bytes_u32(len as nat) + payload@.take(i as int),
        decreases len - i,
    {
        frame.push(payload[i]);
        assert(payload@.take(i + 1) == payload@.take(i as int).push(payload@[i as int]));
        i = i + 1;
    }
    assert(payload@.take(len as int) == payload@);
    Ok(frame)
}

/// The declared length in a frame's prefix, and the bytes after the prefix.
pub fn split_frame(frame: &[u8]) -> (r: Result<(u32, Vec<u8>), OtpuacError>)
    requires
        frame@.len() >= FRAME_LENGTH_PREFIX_BYTES,
    ensures
        r matches Ok((len, payload)) && len as nat == le_value(frame@.take(4)) && payload@
            == frame@.skip(4),
{
    let len: u32 = frame[0] as u32 + frame[1] as u32 * 0x100 + frame[2] as u32 * 0x10000
        + frame[3] as u32 * 0x1000000;
    let mut payload: Vec<u8> = Vec::new();
    let mut i: usize = 4;
    while i < frame.len()
        invariant
            4 <= i <= frame@.len(),
            payload@ == frame@.subrange(4, i as int),
        decreases frame@.len() - i,
    {
        payload.push(frame[i]);
        assert(frame@.subrange(4, i + 1) == frame@.subrange(4, i as int).push(frame@[i as int]));
        i = i + 1;
    }
    Ok((len, payload))
}

/// Checks a frame and gives back its payload.
pub fn decode_frame(frame: &[u8]) -> (r: Result<Vec<u8>, OtpuacError>)
    ensures
        r matches Ok(p) ==> frame_payload(frame@) == Some(p@),
        r is Err ==> frame_payload(frame@) is None && r matches Err(OtpuacError::InvalidIpc(_)),
        frame@.len() < FRAME_LENGTH_PREFIX_BYTES ==> (r matches Err(OtpuacError::InvalidIpc(m))
            && m@ == "frame must include a four-byte length prefix"@),
        frame@.len() >= FRAME_LENGTH_PREFIX_BYTES && le_value(frame@.take(4))
            > MAX_IPC_MESSAGE_BYTES ==> (r matches Err(OtpuacError::InvalidIpc(m)) && m@
            == "declared message is too large: "@ + text::decimal(le_value(frame@.take(4)))
            + " bytes"@),
{
    if frame.len() < FRAME_LENGTH_PREFIX_BYTES {
        return Err(
            OtpuacError::InvalidIpc(string_of("frame must include a four-byte length prefix")),
        );
    }
    let (declared_len, payload) = split_frame(frame)?;
    let len = declared_len as usize;
    if len > MAX_IPC_MESSAGE_BYTES {
        let mut m = string_of("declared message is too large: ");
        push_decimal(&mut m, len as u64);
        push_str(&mut m, " bytes");
        return Err(OtpuacError::InvalidIpc(m));
    }
    if payload.len() != len {
        let mut m = string_of("declared message length ");
        push_decimal(&mut m, len as u64);
        push_str(&mut m, " does not match frame payload length ");
        push_decimal(&mut m, payload.len() as u64);
        return Err(OtpuacError::InvalidIpc(m));
    }
    Ok(payload)
}

/// The payload length announced by a frame's four prefix bytes, as read from
/// a pipe; lengths above `MAX_IPC_MESSAGE_BYTES` are refused.
pub fn incoming_payload_len(prefix: &[u8]) -> (r: Result<usize, OtpuacError>)
    requires
        prefix@.len() == FRAME_LENGTH_PREFIX_BYTES,
    ensures
        le_value(prefix@) <= MAX_IPC_MESSAGE_BYTES ==> r == Ok::<usize, OtpuacError>(
            le_value(prefix@) as usize,
        ),
        le_value(prefix@) > MAX_IPC_MESSAGE_BYTES ==> (r matches Err(OtpuacError::InvalidIpc(m))
            && m@ == "incoming message too large: "@ + text::decimal(le_value(prefix@))),
{
    let len: u32 = prefix[0] as u32 + prefix[1] as u32 * 0x100 + prefix[2] as u32 * 0x10000
        + prefix[3] as u32 * 0x1000000;
    let len = len as usize;
    if len > MAX_IPC_MESSAGE_BYTES {
        let mut m = string_of("incoming message too large: ");
        push_decimal(&mut m, len as u64);
        return Err(OtpuacError::InvalidIpc(m));
    }
    Ok(len)
}

proof fn lemma_le_round_trip(n: nat)
    requires
        n < 0x100000000,
    ensures
        le_bytes_u32(n).len() == 4,
        le_value(le_bytes_u32(n)) == n,
{
    let b = le_bytes_u32(n);
    assert(b[0] as nat == n % 0x100);
    assert(b[1] as nat == (n / 0x100) % 0x100);
    assert(b[2] as nat == (n / 0x10000) % 0x100);
    assert(b[3] as nat == (n / 0x1000000) % 0x100);
    assert(n % 0x100 + ((n / 0x100) % 0x100) * 0x100 + ((n / 0x10000) % 0x100) * 0x10000 + ((n
        / 0x1000000) % 0x100) * 0x1000000 == n) by (nonlinear_arith)
        requires
            n < 0x100000000,
    ;
}

/// Framing round trip: a payload within the limit is recovered from its
/// frame.
pub proof fn law_frame_round_trip(payload: Seq<u8>)
    requires
        payload.len() <= MAX_IPC_MESSAGE_BYTES,
    ensures
        frame_payload(frame_of(payload)) == Some(payload),
{
    lemma_le_round_trip(payload.len());
    let f = frame_of(payload);
    assert(f.take(4) == le_bytes_u32(payload.len()));
    assert(f.skip(4) == payload);
}

/// Redaction: the debug rendering of a request does not depend on its TOTP
/// code, and that of a response does not depend on an approved password, so
/// neither secret can appear in it.
pub proof fn law_debug_text_hides_secrets(
    request: ProviderUnlockRequest,
    other_code: String,
    response: ProviderUnlockResponse,
    other_password: String,
)
    ensures
        (ProviderUnlockRequest { totp_code: other_code, ..request }).debug_view()
            == request.debug_view(),
        response.decision matches UnlockDecision::Approved { username, domain, .. } ==> (
        ProviderUnlockResponse {
            decision: UnlockDecision::Approved { username, domain, password: other_password },
            ..response
        }).debug_view() == response.debug_view(),
{
}

/// Little-endian length prefix: a frame is four bytes holding the payload's
/// length, least significant byte first (`len % 256`, then
/// `len / 256 % 256`, and so on), followed by the payload.
pub proof fn law_frame_prefix_is_little_endian(payload: Seq<u8>)
    requires
        payload.len() <= MAX_IPC_MESSAGE_BYTES,
    ensures
        frame_of(payload).len() == payload.len() + 4,
        frame_of(payload)[0] as int == payload.len() % 256,
        frame_of(payload)[1] as int == (payload.len() / 256) % 256,
        frame_of(payload)[2] as int == (payload.len() / 65536) % 256,
        frame_of(payload)[3] as int == (payload.len() / 16777216) % 256,
        frame_of(payload).skip(4) == payload,
{
    let f = frame_of(payload);
    assert(f.skip(4) =~= payload);
}

/// Reading a prefix: four bytes `b` announce `b[0] + 256 * b[1] +
/// 65536 * b[2] + 16777216 * b[3]` bytes; a frame is accepted exactly when it
/// holds the prefix and that many further bytes, at most
/// `MAX_IPC_MESSAGE_BYTES`, and its payload is those bytes.
pub proof fn law_frame_payload_reads_little_endian(frame: Seq<u8>)
    ensures
        frame.len() >= 4 ==> le_value(frame.take(4)) == frame[0] as int + 256 * frame[1] as int
            + 65536 * frame[2] as int + 16777216 * frame[3] as int,
        frame_payload(frame) is Some <==> (frame.len() >= 4 && frame.len() - 4 <= MAX_IPC_MESSAGE_BYTES
            && frame[0] as int + 256 * frame[1] as int + 65536 * frame[2] as int + 16777216
            * frame[3] as int == frame.len() - 4),
        frame_payload(frame) matches Some(p) ==> p == frame.skip(4),
{
}

} // verus!
