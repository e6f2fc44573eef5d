use otpuac::audit::audit_field;
use otpuac::audit::MAX_AUDIT_FIELD_CHARS;
use otpuac::unlock::{RateLimiter, NANOS_PER_SECOND};

fn at_seconds(seconds: u64) -> u64 {
    seconds * NANOS_PER_SECOND
}

#[test]
fn audit_field_replaces_controls_and_truncates() {
    let value = format!("abc\n{}", "x".repeat(MAX_AUDIT_FIELD_CHARS + 10));
    let sanitized = audit_field(&value);

    assert!(!sanitized.contains('\n'));
    assert!(sanitized.ends_with("..."));
    assert!(sanitized.len() <= MAX_AUDIT_FIELD_CHARS + 3);
}

#[test]
fn rate_limiter_blocks_after_configured_failures() {
    let mut limiter = RateLimiter::with_policy(2, at_seconds(60), at_seconds(300), None);
    let now = at_seconds(100);

    assert!(!limiter.is_limited(now));
    limiter.record_failure(now);
    assert!(!limiter.is_limited(now));
    limiter.record_failure(now);
    assert!(limiter.is_limited(now));
}

#[test]
fn rate_limiter_expires_old_failures() {
    let mut limiter = RateLimiter::with_policy(1, at_seconds(60), at_seconds(1), None);
    let now = at_seconds(100);

    limiter.record_failure(now);
    assert!(limiter.is_limited(now));
    assert!(!limiter.is_limited(now + at_seconds(2)));
}

#[test]
fn rate_limiter_rejects_replayed_totp_steps() {
    let mut limiter = RateLimiter::new();

    assert!(!limiter.is_replay(10));
    limiter.record_success(10);

    assert!(limiter.is_replay(10));
    assert!(limiter.is_replay(9));
    assert!(!limiter.is_replay(11));
}
