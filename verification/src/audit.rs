//! Audit events of the service: their kind and sanitised text.

use vstd::prelude::*;
use vstd::string::*;

use crate::text;
use crate::text::{chars_of, push_char, push_str, string_of};

verus! {

pub const MAX_AUDIT_FIELD_CHARS: usize = 160;

/// The severity of an audit event.
#[derive(Clone, Copy, Debug, PartialEq, Eq)]
pub enum AuditKind {
    Information,
    Warning,
    Error,
}

/// An audit event to be written to the log.
#[derive(Debug)]
pub struct AuditRecord {
    pub kind: AuditKind,
    pub message: String,
}

/// Control characters become spaces.
pub open spec fn audit_char_of(c: char) -> char {
    if text::is_control(c) {
        ' '
    } else {
        c
    }
}

/// Replaces a control character with a space.
pub fn audit_char(ch: char) -> (r: char)
    ensures
        r == audit_char_of(ch),
{
    let u = ch as u32;
    if u <= 0x1f || (0x7f <= u && u <= 0x9f) {
        ' '
    } else {
        ch
    }
}

/// A field as it appears in the audit log: control characters replaced by
/// spaces, at most `MAX_AUDIT_FIELD_CHARS` characters, and `...` after a
/// field that was cut.
pub open spec fn audit_text(value: Seq<char>) -> Seq<char> {
    let kept = if value.len() > MAX_AUDIT_FIELD_CHARS {
        value.take(MAX_AUDIT_FIELD_CHARS as int)
    } else {
        value
    };
    kept.map_values(|c: char| audit_char_of(c)) + if value.len() > MAX_AUDIT_FIELD_CHARS {
        "..."@
    } else {
        Seq::empty()
    }
}

/// Sanitises a field for the audit log (see `audit_text`). The result holds
/// no control characters and at most `MAX_AUDIT_FIELD_CHARS + 3` characters.
pub fn audit_field(value: &str) -> (r: String)
    ensures
        r@ == audit_text(value@),
        r@.len() <= MAX_AUDIT_FIELD_CHARS + 3,
        forall|i: int| 0 <= i < r@.len() ==> !text::is_control(#[trigger] r@[i]),
{
    let cs = chars_of(value);
    let mut out = String::new();
    let mut idx: usize = 0;
    while idx < cs.len() && idx < MAX_AUDIT_FIELD_CHARS
        invariant
            cs@ == value@,
            idx <= cs@.len(),
            idx <= MAX_AUDIT_FIELD_CHARS,
            out@ == cs@.take(idx as int).map_values(|c: char| audit_char_of(c)),
        decreases cs@.len() - idx,
    {
        push_char(&mut out, audit_char(cs[idx]));
        assert(cs@.take(idx + 1).map_values(|c: char| audit_char_of(c)) == cs@.take(
            idx as int,
        ).map_values(|c: char| audit_char_of(c)).push(audit_char_of(cs@[idx as int])));
        idx = idx + 1;
    }
    let truncated = idx < cs.len();
    if truncated {
        push_str(&mut out, "...");
    }
    proof {
        if !truncated {
            assert(cs@.take(cs@.len() as int) == cs@);
        }
        reveal_strlit("...");
        assert forall|i: int| 0 <= i < out@.len() implies !text::is_control(#[trigger] out@[i]) by {
            if i < idx {
                assert(out@[i] == audit_char_of(cs@[i]));
            }
        }
    }
    out
}

fn record(kind: AuditKind, message: String) -> (r: AuditRecord)
    ensures
        r.kind == kind,
        r.message@ == message@,
{
    AuditRecord { kind, message }
}

/// The audit event for the service starting.
pub fn service_started() -> (r: AuditRecord)
    ensures
        r.kind == AuditKind::Information,
        r.message@ == "OTPUAC service started"@,
{
    record(AuditKind::Information, string_of("OTPUAC service started"))
}

/// The audit event for the service stopping.
pub fn service_stopped() -> (r: AuditRecord)
    ensures
        r.kind == AuditKind::Information,
        r.message@ == "OTPUAC service stopped"@,
{
    record(AuditKind::Information, string_of("OTPUAC service stopped"))
}

/// The audit event for the service failing with `message`.
pub fn service_failed(message: &str) -> (r: AuditRecord)
    ensures
        r.kind == AuditKind::Error,
        r.message@ == "OTPUAC service failed: "@ + message@,
{
    let mut m = string_of("OTPUAC service failed: ");
    push_str(&mut m, message);
    record(AuditKind::Error, m)
}

pub open spec fn accepted_text(request_id: Seq<char>, account_label: Seq<char>) -> Seq<char> {
    "Unlock accepted for request "@ + audit_text(request_id) + "; account "@ + audit_text(
        account_label,
    )
}

/// The audit event for an accepted unlock.
pub fn unlock_accepted(request_id: &str, account_label: &str) -> (r: AuditRecord)
    ensures
        r.kind == AuditKind::Information,
        r.message@ == accepted_text(request_id@, account_label@),
{
    let id = audit_field(request_id);
    let label = audit_field(account_label);
    let mut m = string_of("Unlock accepted for request ");
    push_str(&mut m, id.as_str());
    push_str(&mut m, "; account ");
    push_str(&mut m, label.as_str());
    record(AuditKind::Information, m)
}

pub open spec fn rejected_text(request_id: Seq<char>, reason: Seq<char>) -> Seq<char> {
    "Unlock rejected for request "@ + audit_text(request_id) + "; reason "@ + audit_text(reason)
}

/// The audit event for a rejected unlock.
pub fn unlock_rejected(request_id: &str, reason: &str) -> (r: AuditRecord)
    ensures
        r.kind == AuditKind::Warning,
        r.message@ == rejected_text(request_id@, reason@),
{
    let id = audit_field(request_id);
    let why = audit_field(reason);
    let mut m = string_of("Unlock rejected for request ");
    push_str(&mut m, id.as_str());
    push_str(&mut m, "; reason ");
    push_str(&mut m, why.as_str());
    record(AuditKind::Warning, m)
}

pub open spec fn rate_limited_text(request_id: Seq<char>) -> Seq<char> {
    "Unlock rate limited for request "@ + audit_text(request_id)
}

/// The audit event for an unlock refused by the rate limiter.
pub fn unlock_rate_limited(request_id: &str) -> (r: AuditRecord)
    ensures
        r.kind == AuditKind::Warning,
        r.message@ == rate_limited_text(request_id@),
{
    let id = audit_field(request_id);
    let mut m = string_of("Unlock rate limited for request ");
    push_str(&mut m, id.as_str());
    record(AuditKind::Warning, m)
}

pub open spec fn vault_error_text(request_id: Seq<char>, message: Seq<char>) -> Seq<char> {
    "Vault or credential unlock error for request "@ + audit_text(request_id) + ": "@
        + audit_text(message)
}

/// The audit event for a vault or credential error.
pub fn vault_error(request_id: &str, message: &str) -> (r: AuditRecord)
    ensures
        r.kind == AuditKind::Error,
        r.message@ == vault_error_text(request_id@, message@),
{
    let id = audit_field(request_id);
    let text = audit_field(message);
    let mut m = string_of("Vault or credential unlock error for request ");
    push_str(&mut m, id.as_str());
    push_str(&mut m, ": ");
    push_str(&mut m, text.as_str());
    record(AuditKind::Error, m)
}

/// The audit event for a failed named-pipe client.
pub fn ipc_error(message: &str) -> (r: AuditRecord)
    ensures
        r.kind == AuditKind::Warning,
        r.message@ == "Named-pipe client error: "@ + audit_text(message@),
{
    let text = audit_field(message);
    let mut m = string_of("Named-pipe client error: ");
    push_str(&mut m, text.as_str());
    record(AuditKind::Warning, m)
}

} // verus!
