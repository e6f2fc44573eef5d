use otpuac::audit::{
    audit_char, ipc_error, service_failed, service_started, service_stopped, unlock_accepted,
    unlock_rate_limited, unlock_rejected, vault_error, AuditKind,
};
use otpuac::error::OtpuacError;
use otpuac::host::{
    is_allowed_credential_ui_host, normalize_windows_path, validate_client, ClientPolicy,
};
use otpuac::ipc::{
    decode_frame, encode_frame, incoming_payload_len, split_frame, ProviderUnlockRequest,
    ProviderUnlockResponse, UnlockDecision, UnlockFailureReason, MAX_IPC_MESSAGE_BYTES,
};
use otpuac::paths::{
    default_install_dir, default_program_data_dir, platform_default_vault_path, state_path_for_vault,
    state_path_in, APP_DIR_NAME, SERVICE_STATE_FILE,
};
use otpuac::protect::{InsecureDevProtector, UnsupportedProtector};
use otpuac::provider::{
    clsid_key, credential_field_state, credential_field_text, credential_pack_flags,
    credential_provider_key, field_metadata, guid_eq, hresult_from_win32, inproc_server_key,
    provider_request_id, qualified_username, submission_outcome, submitted_code_is_blank,
    FieldInteractiveState, FieldKind, FieldState, Guid, SubmitOutcome, E_FAIL, FIELD_COUNT,
    FIELD_SUBMIT, FIELD_TITLE, FIELD_TOTP, STATUS_CODE_ACCEPTED, STATUS_ENTER_CODE,
    STATUS_PACK_FAILED, TITLE_PROMPT, TileState,
};
use otpuac::setup::{
    enrollment_contents, existing_install_plan, install_plan, install_policy,
    installed_artifact_paths, is_invalid_local_account_char, managed_install_metadata,
    rollback_plan, rolls_back_on_failure, uninstall_plan, validate_installed_files, validate_remove_data_target,
    InstallStep, RollbackStep, UninstallStep,
};
use otpuac::state::RuntimeState;
use otpuac::totp::{
    accepted_step_at, add_signed, code_at, decode_totp_secret, dynamic_truncate,
    encode_totp_secret, generate_totp_secret, normalize_base32_secret, otpauth_uri, url_component,
    verify_at, TotpPolicy,
};
use otpuac::unlock::{
    begin_unlock, finish_unlock, redact_response, RateLimiter, NANOS_PER_SECOND,
};
use otpuac::vault::{ManagedAccount, VaultFile};
use otpuac::wide::{string_from_wide_ptr, wide_null, wide_ptr_to_vec, wide_vec_to_string};
use otpuac::wipe::secure_zero_u16;
use std::path::Path;

const SECRET: &[u8; 20] = b"12345678901234567890";
const SECRET_BASE32: &str = "GEZDGNBVGY3TQOJQGEZDGNBVGY3TQOJQ";
const NOW_UNIX: u64 = 1_700_000_000;

fn test_vault() -> VaultFile {
    VaultFile::new(
        ManagedAccount {
            username: "admin".to_string(),
            domain: Some("TESTPC".to_string()),
        },
        "correct horse battery staple",
        SECRET,
        TotpPolicy::default(),
        &InsecureDevProtector,
        NOW_UNIX,
    )
    .unwrap()
}

fn policy_with(digits: u32, step_seconds: u64, skew_steps: u8, issuer: &str) -> TotpPolicy {
    TotpPolicy {
        digits,
        step_seconds,
        skew_steps,
        issuer: issuer.to_string(),
    }
}

#[test]
fn frame_round_trip_on_concrete_payload() {
    let frame = encode_frame(b"hello").unwrap();
    assert_eq!(frame, vec![5, 0, 0, 0, b'h', b'e', b'l', b'l', b'o']);
    assert_eq!(decode_frame(&frame).unwrap(), b"hello".to_vec());

    let empty = encode_frame(&[]).unwrap();
    assert_eq!(empty, vec![0, 0, 0, 0]);
    assert_eq!(decode_frame(&empty).unwrap(), Vec::<u8>::new());

    let (declared, rest) = split_frame(&frame).unwrap();
    assert_eq!(declared, 5);
    assert_eq!(rest, b"hello".to_vec());
}

#[test]
fn frame_errors_name_the_problem() {
    let too_large = vec![0_u8; MAX_IPC_MESSAGE_BYTES + 1];
    let err = encode_frame(&too_large).unwrap_err();
    assert_eq!(err.message(), "invalid IPC message: message is too large: 65537 bytes");

    let err = decode_frame(&[1, 2]).unwrap_err();
    assert_eq!(
        err.message(),
        "invalid IPC message: frame must include a four-byte length prefix"
    );

    let err = decode_frame(&[0, 0, 2, 0]).unwrap_err();
    assert_eq!(
        err.message(),
        "invalid IPC message: declared message is too large: 131072 bytes"
    );

    let err = decode_frame(&[3, 0, 0, 0, 1]).unwrap_err();
    assert!(matches!(err, OtpuacError::InvalidIpc(_)));
    assert_eq!(
        err.message(),
        "invalid IPC message: declared message length 3 does not match frame payload length 1"
    );

    assert_eq!(incoming_payload_len(&[0, 0, 1, 0]).unwrap(), 65536);
    let err = incoming_payload_len(&[1, 0, 1, 0]).unwrap_err();
    assert_eq!(err.message(), "invalid IPC message: incoming message too large: 65537");
}

#[test]
fn accepted_step_lies_within_skew() {
    let policy = TotpPolicy::default();
    let code = code_at(SECRET, &policy, 60).unwrap();
    assert_eq!(code, "359152");

    assert_eq!(accepted_step_at(SECRET, &policy, &code, 89).unwrap(), Some(2));
    assert_eq!(accepted_step_at(SECRET, &policy, &code, 30).unwrap(), Some(2));
    assert_eq!(accepted_step_at(SECRET, &policy, &code, 95).unwrap(), Some(2));
    assert_eq!(accepted_step_at(SECRET, &policy, &code, 121).unwrap(), None);
    assert_eq!(accepted_step_at(SECRET, &policy, " 359152\t", 60).unwrap(), Some(2));

    let strict = policy_with(6, 30, 0, "OTPUAC");
    assert_eq!(accepted_step_at(SECRET, &strict, &code, 30).unwrap(), None);
    assert_eq!(accepted_step_at(SECRET, &strict, &code, 60).unwrap(), Some(2));
}

#[test]
fn malformed_codes_are_refused_before_comparison() {
    let policy = TotpPolicy::default();
    for code in ["12a456", "12345", "1234567", "", "１２３４５６"] {
        let err = verify_at(SECRET, &policy, code, 60).unwrap_err();
        assert!(matches!(err, OtpuacError::InvalidTotpCode));
        assert_eq!(err.message(), "TOTP code must contain only ASCII digits");
    }
    assert!(!verify_at(SECRET, &policy, "000000", 60).unwrap());
}

#[test]
fn each_policy_problem_is_reported() {
    let cases = [
        (policy_with(5, 30, 1, "OTPUAC"), "digits must be between 6 and 8"),
        (policy_with(9, 30, 1, "OTPUAC"), "digits must be between 6 and 8"),
        (policy_with(6, 0, 1, "OTPUAC"), "step_seconds must be greater than zero"),
        (policy_with(6, 30, 3, "OTPUAC"), "skew_steps must not exceed two"),
        (policy_with(6, 30, 2, " \t "), "issuer is required"),
    ];
    for (policy, problem) in cases {
        let err = policy.validate().unwrap_err();
        assert!(matches!(err, OtpuacError::InvalidTotpPolicy(p) if p == problem));
        assert_eq!(err.message(), format!("invalid TOTP policy: {problem}"));
        assert!(code_at(SECRET, &policy, 60).is_err());
        assert!(otpauth_uri("admin", SECRET_BASE32, &policy).is_err());
    }
    assert!(policy_with(8, 60, 2, "Corp").validate().is_ok());
}

#[test]
fn hotp_digits_and_truncation() {
    let digest: [u8; 20] = [
        0x1f, 0x86, 0x98, 0x69, 0x0e, 0x02, 0xca, 0x16, 0x61, 0x85, 0x50, 0xef, 0x7f, 0x19, 0xda,
        0x8e, 0x94, 0x5b, 0x55, 0x5a,
    ];
    assert_eq!(dynamic_truncate(&digest), 0x50ef_7f19);

    let policy = policy_with(8, 30, 1, "OTPUAC");
    assert_eq!(code_at(SECRET, &policy, 1_111_111_109).unwrap(), "07081804");
    assert_eq!(code_at(SECRET, &TotpPolicy::default(), NOW_UNIX).unwrap(), "921300");
}

#[test]
fn signed_step_offsets_stay_in_range() {
    assert_eq!(add_signed(10, 3), Some(13));
    assert_eq!(add_signed(5, -5), Some(0));
    assert_eq!(add_signed(5, -6), None);
    assert_eq!(add_signed(u64::MAX, 1), None);
    assert_eq!(add_signed(u64::MAX, -1), Some(u64::MAX - 1));
}

#[test]
fn base32_codec_matches_known_vector() {
    assert_eq!(encode_totp_secret(SECRET), SECRET_BASE32);
    assert_eq!(
        decode_totp_secret("gezd gnbv gy3t qojq gezd gnbv gy3t qojq====").unwrap().as_slice(),
        SECRET
    );
    assert_eq!(normalize_base32_secret(" ab=c\td\n"), "ABCD");
    assert_eq!(normalize_base32_secret("ß"), "SS");

    let err = decode_totp_secret("1").unwrap_err();
    assert!(matches!(err, OtpuacError::Base32));
    assert_eq!(err.message(), "base32 error");

    let a = generate_totp_secret();
    let b = generate_totp_secret();
    assert_eq!(a.len(), 20);
    assert_eq!(b.len(), 20);
    assert_ne!(a, b);
}

#[test]
fn enrollment_uri_is_exact() {
    assert_eq!(url_component("a b/ü~-._"), "a%20b%2F%C3%BC~-._");
    let uri = otpauth_uri("TESTPC\\admin", SECRET_BASE32, &TotpPolicy::default()).unwrap();
    assert_eq!(
        uri,
        "otpauth://totp/OTPUAC%3ATESTPC%5Cadmin?secret=GEZDGNBVGY3TQOJQGEZDGNBVGY3TQOJQ\
         &issuer=OTPUAC&algorithm=SHA1&digits=6&period=30"
    );
}

#[test]
fn vault_stores_base64_of_protected_secrets() {
    let vault = test_vault();
    assert_eq!(vault.version, 1);
    assert_eq!(vault.totp_secret.scheme, "insecure-dev-plaintext");
    assert_eq!(vault.totp_secret.data_base64, "MTIzNDU2Nzg5MDEyMzQ1Njc4OTA=");
    assert_eq!(vault.created_at_unix, NOW_UNIX);
    assert_eq!(vault.encoded_totp_secret(&InsecureDevProtector).unwrap(), SECRET_BASE32);
    assert!(vault.validate().is_ok());
    assert!(!vault.has_empty_secret_blob());

    let released = vault.release_credential(&InsecureDevProtector).unwrap();
    assert_eq!(released.password, "correct horse battery staple");
    assert_eq!(released.account.label(), "TESTPC\\admin");

    let (credential, step) = vault.unlock_with_step("921300", NOW_UNIX, &InsecureDevProtector).unwrap();
    assert_eq!(step, NOW_UNIX / 30);
    assert_eq!(credential.password, "correct horse battery staple");
}

#[test]
fn vault_errors_are_reported() {
    let mut wrong_scheme = test_vault();
    wrong_scheme.totp_secret.scheme = "dpapi".to_string();
    let err = wrong_scheme.unlock("921300", NOW_UNIX, &InsecureDevProtector).unwrap_err();
    assert!(matches!(
        &err,
        OtpuacError::SchemeMismatch { expected, actual }
            if expected == "insecure-dev-plaintext" && actual == "dpapi"
    ));
    assert_eq!(
        err.message(),
        "protected blob scheme mismatch: expected insecure-dev-plaintext, got dpapi"
    );

    let mut bad_base64 = test_vault();
    bad_base64.totp_secret.data_base64 = "!!!!".to_string();
    let err = bad_base64.unlock("921300", NOW_UNIX, &InsecureDevProtector).unwrap_err();
    assert!(matches!(err, OtpuacError::Base64(_)));
    assert!(err.message().starts_with("base64 error: "));

    let mut bad_utf8 = test_vault();
    bad_utf8.password.data_base64 = "/w==".to_string();
    let err = bad_utf8.release_credential(&InsecureDevProtector).unwrap_err();
    assert_eq!(err.message(), "invalid vault: password is not valid UTF-8");

    let mut old_version = test_vault();
    old_version.version = 2;
    let err = old_version.validate().unwrap_err();
    assert_eq!(err.message(), "invalid vault: unsupported version 2");

    let mut empty_blob = test_vault();
    empty_blob.password.data_base64 = String::new();
    assert!(empty_blob.has_empty_secret_blob());
    let err = empty_blob.validate().unwrap_err();
    assert_eq!(err.message(), "invalid vault: protected secret blobs must not be empty");

    let err = VaultFile::new(
        ManagedAccount {
            username: "  ".to_string(),
            domain: None,
        },
        "pw",
        SECRET,
        TotpPolicy::default(),
        &InsecureDevProtector,
        NOW_UNIX,
    )
    .unwrap_err();
    assert_eq!(err.message(), "invalid vault: managed account username is required");

    let err = VaultFile::new(
        ManagedAccount {
            username: "admin".to_string(),
            domain: None,
        },
        "pw",
        SECRET,
        TotpPolicy::default(),
        &UnsupportedProtector,
        NOW_UNIX,
    )
    .unwrap_err();
    assert!(matches!(err, OtpuacError::UnsupportedPlatform(_)));
    assert_eq!(
        err.message(),
        "unsupported platform feature: secret protection is only available in Windows release builds"
    );
}

#[test]
fn runtime_state_accepts_only_current_version() {
    let state = RuntimeState::new(Some(7));
    assert_eq!(state.version, 1);
    assert_eq!(state.last_accepted_totp_step, Some(7));
    assert!(state.validate().is_ok());
    assert!(RuntimeState::default().last_accepted_totp_step.is_none());

    let old = RuntimeState {
        version: 2,
        last_accepted_totp_step: None,
    };
    assert_eq!(
        old.validate().unwrap_err().message(),
        "invalid runtime state: unsupported service state version 2"
    );
}

#[test]
fn limiter_success_lifts_lockout_and_keeps_highest_step() {
    let mut limiter = RateLimiter::with_policy(1, 60 * NANOS_PER_SECOND, 300 * NANOS_PER_SECOND, None);
    let now = 100 * NANOS_PER_SECOND;
    limiter.record_failure(now);
    assert!(limiter.is_limited(now + NANOS_PER_SECOND));

    limiter.record_success(40);
    assert!(!limiter.is_limited(now + NANOS_PER_SECOND));
    limiter.record_success(30);
    assert_eq!(limiter.last_accepted_step(), Some(40));
    assert!(limiter.is_replay(40));
    assert!(limiter.is_replay(30));
    assert!(!limiter.is_replay(41));
    assert_eq!(limiter.lockout(), 300 * NANOS_PER_SECOND);

    let remembered = RateLimiter::with_last_accepted_step(Some(12));
    assert!(remembered.is_replay(12));
    assert!(!remembered.is_replay(13));
}

#[test]
fn lockout_holds_until_it_expires() {
    let mut limiter = RateLimiter::new();
    let now = 1_000 * NANOS_PER_SECOND;
    for _ in 0..4 {
        limiter.record_failure(now);
        assert!(!limiter.is_limited(now));
    }
    limiter.record_failure(now);
    assert!(limiter.is_limited(now));
    assert!(limiter.is_limited(now + 299 * NANOS_PER_SECOND));
    assert!(!limiter.is_limited(now + 300 * NANOS_PER_SECOND));
}

#[test]
fn unlock_flow_approves_then_detects_replay() {
    let vault = test_vault();
    let mut limiter = RateLimiter::new();
    let now = NOW_UNIX * NANOS_PER_SECOND;
    let request = ProviderUnlockRequest::credential_ui("req", "921300");

    assert!(begin_unlock(&request, &mut limiter, now).is_none());
    let (response, record) = finish_unlock(
        &request,
        Ok(vault.clone()),
        &mut limiter,
        now,
        NOW_UNIX,
        &InsecureDevProtector,
        false,
    );
    assert_eq!(response.request_id, "req");
    assert!(matches!(
        &response.decision,
        UnlockDecision::Approved { username, domain: Some(d), password }
            if username == "admin" && d == "TESTPC" && password == "<redacted>"
    ));
    assert_eq!(record.kind, AuditKind::Information);
    assert_eq!(record.message, "Unlock accepted for request req; account TESTPC\\admin");
    assert_eq!(limiter.last_accepted_step(), Some(NOW_UNIX / 30));

    let (response, record) = finish_unlock(
        &request,
        Ok(vault.clone()),
        &mut limiter,
        now,
        NOW_UNIX,
        &InsecureDevProtector,
        true,
    );
    assert!(matches!(
        &response.decision,
        UnlockDecision::Denied { reason: UnlockFailureReason::ReplayDetected, message }
            if message == "This TOTP code was already used"
    ));
    assert_eq!(record.kind, AuditKind::Warning);
    assert_eq!(record.message, "Unlock rejected for request req; reason replayed TOTP code");
}

#[test]
fn unlock_flow_emits_secret_when_asked() {
    let mut limiter = RateLimiter::new();
    let now = NOW_UNIX * NANOS_PER_SECOND;
    let request = ProviderUnlockRequest::credential_ui("req", "921300");
    let (response, _) = finish_unlock(
        &request,
        Ok(test_vault()),
        &mut limiter,
        now,
        NOW_UNIX,
        &InsecureDevProtector,
        true,
    );
    assert!(matches!(
        &response.decision,
        UnlockDecision::Approved { password, .. } if password == "correct horse battery staple"
    ));
    let redacted = redact_response(response);
    assert!(matches!(
        &redacted.decision,
        UnlockDecision::Approved { password, .. } if password == "<redacted>"
    ));
}

#[test]
fn unlock_flow_denies_bad_codes_and_reports_vault_errors() {
    let mut limiter = RateLimiter::new();
    let now = NOW_UNIX * NANOS_PER_SECOND;
    let request = ProviderUnlockRequest::credential_ui("req", "000000");
    let (response, record) = finish_unlock(
        &request,
        Ok(test_vault()),
        &mut limiter,
        now,
        NOW_UNIX,
        &InsecureDevProtector,
        false,
    );
    assert!(matches!(
        &response.decision,
        UnlockDecision::Denied { reason: UnlockFailureReason::InvalidCode, message }
            if message == "TOTP code was rejected"
    ));
    assert_eq!(record.message, "Unlock rejected for request req; reason invalid TOTP code");

    let (response, record) = finish_unlock(
        &request,
        Err(OtpuacError::Io("missing".to_string())),
        &mut limiter,
        now,
        NOW_UNIX,
        &InsecureDevProtector,
        false,
    );
    assert!(matches!(
        &response.decision,
        UnlockDecision::Error { message } if message == "OTPUAC could not unlock the managed credential"
    ));
    assert_eq!(record.kind, AuditKind::Error);
    assert_eq!(
        record.message,
        "Vault or credential unlock error for request req: I/O error: missing"
    );
}

#[test]
fn unlock_flow_refuses_other_scenarios_and_limited_clients() {
    let mut limiter = RateLimiter::new();
    let now = 10 * NANOS_PER_SECOND;
    let mut request = ProviderUnlockRequest::credential_ui("req", "123456");
    request.usage_scenario = "CPUS_LOGON".to_string();
    let (response, record) = begin_unlock(&request, &mut limiter, now).unwrap();
    assert!(matches!(
        &response.decision,
        UnlockDecision::Denied { reason: UnlockFailureReason::UnsupportedUsageScenario, message }
            if message == "OTPUAC only supports UAC Credential UI requests"
    ));
    assert_eq!(
        record.message,
        "Unlock rejected for request req; reason unsupported usage scenario"
    );

    let mut strict = RateLimiter::with_policy(1, 60 * NANOS_PER_SECOND, 300 * NANOS_PER_SECOND, None);
    strict.record_failure(now);
    let request = ProviderUnlockRequest::credential_ui("req", "123456");
    let (response, record) = begin_unlock(&request, &mut strict, now).unwrap();
    assert!(matches!(
        &response.decision,
        UnlockDecision::Denied { reason: UnlockFailureReason::RateLimited, message }
            if message == "Too many failed attempts; wait before trying again"
    ));
    assert_eq!(record.message, "Unlock rate limited for request req");
}

#[test]
fn audit_messages_are_exact() {
    assert_eq!(service_started().message, "OTPUAC service started");
    assert_eq!(service_stopped().message, "OTPUAC service stopped");
    let failed = service_failed("boom");
    assert_eq!(failed.kind, AuditKind::Error);
    assert_eq!(failed.message, "OTPUAC service failed: boom");
    assert_eq!(
        unlock_accepted("r\n1", "PC\\admin").message,
        "Unlock accepted for request r 1; account PC\\admin"
    );
    assert_eq!(
        unlock_rejected("r1", "bad\tcode").message,
        "Unlock rejected for request r1; reason bad code"
    );
    assert_eq!(unlock_rate_limited("r1").message, "Unlock rate limited for request r1");
    assert_eq!(
        vault_error("r1", "disk").message,
        "Vault or credential unlock error for request r1: disk"
    );
    let pipe = ipc_error("broken\u{7f}pipe");
    assert_eq!(pipe.kind, AuditKind::Warning);
    assert_eq!(pipe.message, "Named-pipe client error: broken pipe");
    assert_eq!(audit_char('\u{85}'), ' ');
    assert_eq!(audit_char('é'), 'é');
}

#[test]
fn debug_texts_match_derived_formatting() {
    let request = ProviderUnlockRequest::credential_ui("req", "123456");
    assert_eq!(
        request.debug_text(),
        "ProviderUnlockRequest { request_id: \"req\", usage_scenario: \"CPUS_CREDUI\", totp_code: \"<redacted>\" }"
    );
    let denied = UnlockDecision::Denied {
        reason: UnlockFailureReason::RateLimited,
        message: "slow \"down\"".to_string(),
    };
    assert_eq!(
        denied.debug_text(),
        "Denied { reason: RateLimited, message: \"slow \\\"down\\\"\" }"
    );
    let mut response = ProviderUnlockResponse {
        request_id: "r".to_string(),
        decision: UnlockDecision::Approved {
            username: "admin".to_string(),
            domain: None,
            password: "secret".to_string(),
        },
    };
    assert_eq!(
        response.debug_text(),
        "ProviderUnlockResponse { request_id: \"r\", decision: Approved { username: \"admin\", domain: None, password: \"<redacted>\" } }"
    );
    response.zeroize_secrets();
    assert!(matches!(
        response.into_decision(),
        UnlockDecision::Approved { password, .. } if password.is_empty()
    ));
}

#[test]
fn install_paths_follow_environment() {
    assert_eq!(
        default_install_dir(Some("D:\\Apps")),
        Path::new("D:\\Apps").join(APP_DIR_NAME).to_string_lossy()
    );
    assert_eq!(
        default_install_dir(None),
        Path::new("C:\\Program Files").join("OTPUAC").to_string_lossy()
    );
    assert_eq!(
        default_program_data_dir(None),
        Path::new("C:\\ProgramData").join("OTPUAC").to_string_lossy()
    );
    assert_eq!(default_program_data_dir(Some("data/")), "data/OTPUAC");
}

#[test]
fn default_vault_follows_platform() {
    assert_eq!(
        platform_default_vault_path(false, Some("ignored")),
        Path::new("target").join("otpuac-dev").join("vault.json").to_string_lossy()
    );
    assert_eq!(
        platform_default_vault_path(true, Some("pd")),
        Path::new("pd").join("OTPUAC").join("vault.json").to_string_lossy()
    );
    assert_eq!(
        platform_default_vault_path(true, None),
        Path::new("C:\\ProgramData").join("OTPUAC").join("vault.json").to_string_lossy()
    );
}

#[test]
fn service_state_sits_next_to_the_vault() {
    assert_eq!(
        state_path_for_vault("program-data/vault.json"),
        Path::new("program-data").join(SERVICE_STATE_FILE).to_string_lossy()
    );
    assert_eq!(state_path_for_vault("vault.json"), SERVICE_STATE_FILE);
    assert_eq!(state_path_for_vault(""), SERVICE_STATE_FILE);
    assert_eq!(state_path_in(None), SERVICE_STATE_FILE);
    assert_eq!(state_path_in(Some("dir/")), "dir/service-state.json");
}

#[test]
fn install_plan_and_enrollment() {
    assert_eq!(existing_install_plan("m.json", "v.json", true, true).unwrap(), true);
    assert_eq!(existing_install_plan("m.json", "v.json", true, false).unwrap(), false);
    assert_eq!(existing_install_plan("m.json", "v.json", false, false).unwrap(), false);
    let err = existing_install_plan("m.json", "v.json", false, true).unwrap_err();
    assert_eq!(
        err.message(),
        "invalid configuration: v.json already exists but m.json is missing; uninstall or recover manually before reinstalling"
    );

    let vault = test_vault();
    let metadata = managed_install_metadata(&vault.account, "S-1-5-21-1".to_string(), "C:\\OTPUAC", 5);
    assert_eq!(metadata.version, 1);
    assert_eq!(metadata.install_kind, "managed-local-admin");
    assert_eq!(metadata.service_name, "OTPUAC");
    assert!(validate_remove_data_target("pd", Some(&metadata)).is_ok());

    let sheet = enrollment_contents(&metadata, &vault, SECRET_BASE32, "otpauth://x", "C:\\a.exe");
    assert_eq!(
        sheet,
        "OTPUAC authenticator enrollment\r\n\r\nManaged account: TESTPC\\admin\r\nAccount SID: S-1-5-21-1\r\n\r\n\
         Add a new TOTP account in your authenticator app with this secret:\r\nGEZDGNBVGY3TQOJQGEZDGNBVGY3TQOJQ\r\n\r\n\
         Enrollment URI:\r\notpauth://x\r\n\r\nAfter enrollment, verify a code.\r\n\r\nFrom elevated PowerShell:\r\n\
         & \"C:\\a.exe\" verify --code 123456\r\n\r\nFrom elevated Command Prompt:\r\n\"C:\\a.exe\" verify --code 123456\r\n"
    );
    assert!(is_invalid_local_account_char('@'));
    assert!(!is_invalid_local_account_char('a'));
}

#[test]
fn installed_files_are_checked_in_order() {
    let paths = installed_artifact_paths("inst/");
    assert_eq!(
        paths,
        vec![
            "inst/otpuac_provider_rs.dll".to_string(),
            "inst/otpuac-service.exe".to_string(),
            "inst/otpuac-admin.exe".to_string(),
        ]
    );
    assert!(validate_installed_files(&paths, &[true, true, true]).is_ok());
    let err = validate_installed_files(&paths, &[true, false, false]).unwrap_err();
    assert_eq!(
        err.message(),
        "invalid vault: missing installed artifact: inst/otpuac-service.exe"
    );

    let policy = install_policy("Corp".to_string());
    assert_eq!(policy.issuer, "Corp");
    assert_eq!((policy.digits, policy.step_seconds, policy.skew_steps), (6, 30, 1));
}

#[test]
fn install_plan_provisions_only_new_installs() {
    assert_eq!(
        install_plan(false, true),
        vec![
            InstallStep::CreateManagedAccount,
            InstallStep::HideManagedAccount,
            InstallStep::WriteVault,
            InstallStep::WriteMetadata,
            InstallStep::RegisterProvider,
            InstallStep::RegisterEventLogSource,
            InstallStep::InstallService,
            InstallStep::WriteEnrollmentFile,
        ]
    );
    assert_eq!(
        install_plan(true, false),
        vec![
            InstallStep::ReadExistingInstall,
            InstallStep::RegisterProvider,
            InstallStep::RegisterEventLogSource,
            InstallStep::InstallService,
        ]
    );
    assert!(!rolls_back_on_failure(InstallStep::CreateManagedAccount, false));
    assert!(rolls_back_on_failure(InstallStep::HideManagedAccount, false));
    assert!(rolls_back_on_failure(InstallStep::WriteEnrollmentFile, false));
    assert!(!rolls_back_on_failure(InstallStep::InstallService, true));
    assert!(!rolls_back_on_failure(InstallStep::ReadExistingInstall, true));
    assert_eq!(
        rollback_plan(InstallStep::WriteVault, false),
        vec![
            RollbackStep::UnhideManagedAccount,
            RollbackStep::DeleteManagedAccount,
            RollbackStep::RemoveMetadataFile,
            RollbackStep::RemoveVaultFile,
        ]
    );
    assert!(rollback_plan(InstallStep::CreateManagedAccount, false).is_empty());
    assert!(rollback_plan(InstallStep::InstallService, true).is_empty());
}

#[test]
fn uninstall_plan_orders_and_guards_removals() {
    let vault = test_vault();
    let metadata = managed_install_metadata(&vault.account, "S-1".to_string(), "C:\\OTPUAC", 5);

    let (steps, outcome) = uninstall_plan("pd", Some(&metadata), true, true, true, true);
    assert_eq!(
        steps,
        vec![
            UninstallStep::StopAndDeleteService,
            UninstallStep::UnregisterEventLogSource,
            UninstallStep::UnregisterProvider,
            UninstallStep::UnhideManagedAccount,
            UninstallStep::DeleteManagedAccount,
            UninstallStep::RemoveDataDir,
        ]
    );
    assert!(outcome.is_ok());

    let (steps, outcome) = uninstall_plan("pd", Some(&metadata), false, true, false, false);
    assert_eq!(
        steps,
        vec![
            UninstallStep::StopAndDeleteService,
            UninstallStep::UnregisterEventLogSource,
            UninstallStep::UnhideManagedAccount,
        ]
    );
    assert!(outcome.is_ok());

    let (steps, outcome) = uninstall_plan("pd", None, false, true, true, true);
    assert_eq!(
        steps,
        vec![UninstallStep::StopAndDeleteService, UninstallStep::UnregisterEventLogSource]
    );
    assert_eq!(
        outcome.unwrap_err().message(),
        "invalid configuration: refusing to remove pd because OTPUAC setup metadata is missing"
    );

    let mut foreign = metadata.clone();
    foreign.managed_account_created_by_otpuac = false;
    foreign.service_name = "Other".to_string();
    let (steps, outcome) = uninstall_plan("pd", Some(&foreign), true, true, true, true);
    assert_eq!(
        steps,
        vec![
            UninstallStep::StopAndDeleteService,
            UninstallStep::UnregisterEventLogSource,
            UninstallStep::UnregisterProvider,
        ]
    );
    assert!(outcome.is_err());
}

#[test]
fn provider_tile_fields() {
    let totp = field_metadata(FIELD_TOTP).unwrap();
    assert_eq!(totp.field_type, FieldKind::PasswordText);
    assert_eq!(totp.label, "Authenticator code");
    assert!(field_metadata(FIELD_COUNT).is_none());
    assert_eq!(
        credential_field_state(FIELD_TOTP),
        Some((FieldState::DisplayInSelectedTile, FieldInteractiveState::Focused))
    );
    assert_eq!(credential_field_state(7), None);

    let prompt: Vec<u16> = TITLE_PROMPT.encode_utf16().chain(std::iter::once(0)).collect();
    assert_eq!(credential_field_text(FIELD_TITLE, &[], &[]).unwrap(), prompt);
    assert_eq!(credential_field_text(FIELD_TITLE, &[0x41, 0], &[]).unwrap(), vec![0x41, 0]);
    assert_eq!(credential_field_text(FIELD_TOTP, &[], &[0x31, 0x32]).unwrap(), vec![0x31, 0x32, 0]);
    assert!(credential_field_text(FIELD_COUNT, &[], &[]).is_none());

    assert!(submitted_code_is_blank(" \t"));
    assert!(!submitted_code_is_blank(" 1 "));
    let approved = submission_outcome(Ok(UnlockDecision::Approved {
        username: "admin".to_string(),
        domain: Some("PC".to_string()),
        password: "pw".to_string(),
    }));
    assert!(matches!(
        approved,
        SubmitOutcome::Pack { qualified_username, password }
            if qualified_username == "PC\\admin" && password == "pw"
    ));
    let failed = submission_outcome(Err("pipe closed".to_string()));
    assert!(matches!(failed, SubmitOutcome::ShowError { message } if message == "pipe closed"));
}

fn wide(text: &str) -> Vec<u16> {
    text.encode_utf16().chain(std::iter::once(0)).collect()
}

#[test]
fn tile_keeps_code_and_status() {
    let mut tile = TileState::new(0x1000_0000);
    assert!(tile.uses_wow_buffer());
    assert!(!TileState::new(0x1).uses_wow_buffer());

    assert!(!tile.set_string_value(FIELD_SUBMIT, &[0x31]));
    assert!(tile.totp_code.is_empty());
    assert_eq!(tile.string_value(FIELD_TITLE).unwrap(), wide(TITLE_PROMPT));

    assert!(tile.set_string_value(FIELD_TOTP, &[0x20, 0x20, 0]));
    assert!(tile.submitted_code().is_none());
    assert_eq!(tile.status, wide(STATUS_ENTER_CODE));
    assert_eq!(tile.string_value(FIELD_TITLE).unwrap(), wide(STATUS_ENTER_CODE));

    let long: Vec<u16> = "12345678901234567890".encode_utf16().collect();
    assert!(tile.set_string_value(FIELD_TOTP, &long));
    assert_eq!(tile.totp_code.len(), 16);
    assert!(tile.set_string_value(FIELD_TOTP, &[0x31, 0x32, 0x33, 0, 0x34]));
    assert_eq!(tile.string_value(FIELD_TOTP).unwrap(), vec![0x31, 0x32, 0x33, 0]);
    assert_eq!(tile.submitted_code().unwrap(), "123");

    let outcome = tile.answer_received(Ok(UnlockDecision::Denied {
        reason: UnlockFailureReason::InvalidCode,
        message: "TOTP code was rejected".to_string(),
    }));
    assert!(matches!(outcome, SubmitOutcome::ShowError { .. }));
    assert!(tile.totp_code.is_empty());
    assert_eq!(tile.status, wide("TOTP code was rejected"));

    tile.set_string_value(FIELD_TOTP, &[0x39]);
    let outcome = tile.answer_received(Ok(UnlockDecision::Approved {
        username: "admin".to_string(),
        domain: None,
        password: "pw".to_string(),
    }));
    assert!(matches!(
        outcome,
        SubmitOutcome::Pack { qualified_username, .. } if qualified_username == "admin"
    ));
    assert!(tile.totp_code.is_empty());
    tile.packing_finished(true);
    assert_eq!(tile.status, wide(STATUS_CODE_ACCEPTED));
    tile.packing_finished(false);
    assert_eq!(tile.status, wide(STATUS_PACK_FAILED));

    tile.set_status("x");
    tile.set_string_value(FIELD_TOTP, &[0x31]);
    tile.clear_totp_code();
    assert!(tile.totp_code.is_empty());
    assert_eq!(tile.status, wide("x"));
}

#[test]
fn provider_registration_values() {
    assert_eq!(provider_request_id(42), "provider-42");
    assert_eq!(qualified_username("admin", Some("PC")), "PC\\admin");
    assert_eq!(qualified_username("admin", Some("  ")), "admin");
    assert_eq!(qualified_username("admin", None), "admin");
    assert_eq!(clsid_key("{X}"), "CLSID\\{X}");
    assert_eq!(inproc_server_key("{X}"), "CLSID\\{X}\\InprocServer32");
    assert_eq!(
        credential_provider_key("{X}"),
        "SOFTWARE\\Microsoft\\Windows\\CurrentVersion\\Authentication\\Credential Providers\\{X}"
    );
    assert_eq!(hresult_from_win32(0), E_FAIL);
    assert_eq!(hresult_from_win32(5), 0x8007_0005_u32 as i32);
    assert_eq!(hresult_from_win32(0x1_2345), 0x8007_2345_u32 as i32);
    assert_eq!(credential_pack_flags(false), 1);
    assert_eq!(credential_pack_flags(true), 3);

    let a = Guid { data1: 1, data2: 2, data3: 3, data4: [4; 8] };
    let mut b = a;
    assert!(guid_eq(&a, &b));
    b.data4[7] = 5;
    assert!(!guid_eq(&a, &b));
}

#[test]
fn wide_strings_round_trip_through_utf16() {
    assert_eq!(wide_null("é😀"), vec![0xE9, 0xD83D, 0xDE00, 0]);
    assert_eq!(wide_vec_to_string(&[0x48, 0xD800]), "H\u{FFFD}");
    assert_eq!(
        wide_vec_to_string(&[0xD83D, 0xDE00, 0xDC00, 0xD800, 0x41]),
        "😀\u{FFFD}\u{FFFD}A"
    );
    assert_eq!(wide_ptr_to_vec(&[0x41, 0x42, 0, 0x43], 10), vec![0x41, 0x42]);
    assert_eq!(wide_ptr_to_vec(&[0x41, 0x42, 0, 0x43], 1), vec![0x41]);
    assert_eq!(wide_ptr_to_vec(&[0x41, 0x42], 10), vec![0x41, 0x42]);
    assert_eq!(string_from_wide_ptr(&[0x48, 0x69, 0, 0x21]), "Hi");

    let mut buffer = vec![1_u16, 2, 3];
    secure_zero_u16(&mut buffer);
    assert_eq!(buffer, vec![0, 0, 0]);
}

#[test]
fn credential_prompt_hosts_are_recognised() {
    assert_eq!(normalize_windows_path("\\\\?\\\\\\?\\C:/Foo/BAR.exe"), "c:\\foo\\bar.exe");
    assert_eq!(normalize_windows_path("\\\\.\\pipe"), "\\\\.\\pipe");

    let system32 = Some("C:\\Windows\\System32");
    assert!(is_allowed_credential_ui_host("C:\\Windows\\System32\\consent.exe", system32));
    assert!(is_allowed_credential_ui_host("\\\\?\\C:\\WINDOWS\\system32\\LogonUI.exe", system32));
    assert!(is_allowed_credential_ui_host("c:/windows/system32/credentialuibroker.exe", None));
    assert!(!is_allowed_credential_ui_host("C:\\Windows\\System32\\cmd.exe", system32));
    assert!(!is_allowed_credential_ui_host("C:\\Windows\\SysWOW64\\consent.exe", system32));
    assert!(is_allowed_credential_ui_host("D:\\Win\\consent.exe", Some("D:\\Win")));

    assert!(validate_client(ClientPolicy::AllowAny, "C:\\evil.exe", system32).is_ok());
    assert!(validate_client(
        ClientPolicy::CredentialUiHostsOnly,
        "C:\\Windows\\System32\\consent.exe",
        system32
    )
    .is_ok());
    let err = validate_client(ClientPolicy::CredentialUiHostsOnly, "C:\\evil.exe", system32)
        .unwrap_err();
    assert_eq!(
        err.message(),
        "invalid IPC message: unauthorized named-pipe client process: C:\\evil.exe"
    );
}
