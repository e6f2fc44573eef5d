use otpuac::error::OtpuacError;
use otpuac::ipc::{
    decode_frame, encode_frame, ProviderUnlockRequest, ProviderUnlockResponse, UnlockDecision,
    CRED_UI_USAGE_SCENARIO,
};
use otpuac::paths::{
    default_vault_path, service_state_path, setup_metadata_path, vault_path, SERVICE_STATE_FILE,
    SETUP_METADATA_FILE, VAULT_FILE,
};
use otpuac::protect::InsecureDevProtector;
use otpuac::totp::{
    code_at, decode_totp_secret, encode_totp_secret, generate_totp_secret, hotp, verify_at,
    TotpPolicy,
};
use otpuac::vault::{ManagedAccount, VaultFile};
use std::path::{Path, PathBuf};

fn path_text(path: PathBuf) -> String {
    path.to_string_lossy().into_owned()
}

#[test]
fn ipc_frame_round_trips() {
    let request = ProviderUnlockRequest::credential_ui("req", "123456");
    let mut object = serde_json::Map::new();
    object.insert("request_id".to_string(), serde_json::Value::String(request.request_id.clone()));
    object.insert(
        "usage_scenario".to_string(),
        serde_json::Value::String(request.usage_scenario.clone()),
    );
    object.insert("totp_code".to_string(), serde_json::Value::String(request.totp_code.clone()));
    let payload = serde_json::to_vec(&serde_json::Value::Object(object)).unwrap();

    let frame = encode_frame(&payload).unwrap();
    let decoded_payload = decode_frame(&frame).unwrap();
    let decoded: serde_json::Value = serde_json::from_slice(&decoded_payload).unwrap();

    assert_eq!(decoded["request_id"].as_str().unwrap(), request.request_id);
    assert_eq!(decoded["usage_scenario"].as_str().unwrap(), request.usage_scenario);
    assert_eq!(decoded["totp_code"].as_str().unwrap(), request.totp_code);
}

#[test]
fn debug_output_redacts_ipc_secrets() {
    let request = ProviderUnlockRequest::credential_ui("req", "123456");
    let response = ProviderUnlockResponse {
        request_id: "req".to_string(),
        decision: UnlockDecision::Approved {
            username: "admin".to_string(),
            domain: None,
            password: "correct horse battery staple".to_string(),
        },
    };

    let debug = format!("{} {}", request.debug_text(), response.debug_text());

    assert!(debug.contains("<redacted>"));
    assert!(!debug.contains("123456"));
    assert!(!debug.contains("correct horse battery staple"));
}

#[test]
fn credential_ui_request_uses_shared_scenario() {
    let request = ProviderUnlockRequest::credential_ui("req", "123456");

    assert_eq!(request.request_id, "req");
    assert_eq!(request.usage_scenario, CRED_UI_USAGE_SCENARIO);
    assert_eq!(request.totp_code, "123456");
}

#[test]
fn derived_program_data_paths_use_shared_filenames() {
    let root = Path::new("program-data");

    assert_eq!(setup_metadata_path("program-data"), path_text(root.join(SETUP_METADATA_FILE)));
    assert_eq!(service_state_path("program-data"), path_text(root.join(SERVICE_STATE_FILE)));
    assert_eq!(vault_path("program-data"), path_text(root.join(VAULT_FILE)));
}

#[test]
fn non_windows_default_vault_path_uses_dev_target() {
    assert_eq!(
        default_vault_path(),
        path_text(PathBuf::from("target").join("otpuac-dev").join(VAULT_FILE))
    );
}

#[test]
fn hotp_matches_rfc_4226_vectors() {
    let secret = b"12345678901234567890";
    let expected = [
        "755224", "287082", "359152", "969429", "338314", "254676", "287922", "162583", "399871",
        "520489",
    ];

    for (counter, expected_code) in expected.into_iter().enumerate() {
        assert_eq!(hotp(secret, counter as u64, 6).unwrap(), expected_code);
    }
}

#[test]
fn totp_matches_rfc_6238_sha1_vector() {
    let secret = b"12345678901234567890";
    let policy = TotpPolicy {
        digits: 8,
        step_seconds: 30,
        skew_steps: 1,
        issuer: "OTPUAC".to_string(),
    };

    assert_eq!(code_at(secret, &policy, 59).unwrap(), "94287082");
}

#[test]
fn verify_allows_configured_clock_skew() {
    let secret = b"12345678901234567890";
    let policy = TotpPolicy::default();
    let code = code_at(secret, &policy, 60).unwrap();

    assert!(verify_at(secret, &policy, &code, 61).unwrap());
    assert!(verify_at(secret, &policy, &code, 89).unwrap());
    assert!(!verify_at(secret, &policy, &code, 121).unwrap());
}

#[test]
fn base32_secret_round_trips() {
    let secret = generate_totp_secret();
    let encoded = encode_totp_secret(&secret);
    let decoded = decode_totp_secret(&encoded).unwrap();

    assert_eq!(&*decoded, &*secret);
}

#[test]
fn vault_unlocks_with_valid_totp() {
    let protector = InsecureDevProtector;
    let policy = TotpPolicy::default();
    let secret = b"12345678901234567890";
    let vault = VaultFile::new(
        ManagedAccount {
            username: "admin".to_string(),
            domain: Some("TESTPC".to_string()),
        },
        "correct horse battery staple",
        secret,
        policy.clone(),
        &protector,
        1_700_000_000,
    )
    .unwrap();
    let code = code_at(secret, &policy, 1_700_000_000).unwrap();

    let credential = vault.unlock(&code, 1_700_000_000, &protector).unwrap();

    assert_eq!(credential.account.label(), "TESTPC\\admin");
    assert_eq!(credential.password, "correct horse battery staple");
}

#[test]
fn vault_rejects_invalid_totp() {
    let protector = InsecureDevProtector;
    let policy = TotpPolicy::default();
    let secret = b"12345678901234567890";
    let vault = VaultFile::new(
        ManagedAccount {
            username: "admin".to_string(),
            domain: None,
        },
        "password",
        secret,
        policy,
        &protector,
        1_700_000_000,
    )
    .unwrap();

    assert!(matches!(
        vault.unlock("000000", 1_700_000_000, &protector),
        Err(OtpuacError::TotpRejected)
    ));
}
