use otpuac::paths::SERVICE_NAME;
use otpuac::setup::{
    generate_windows_password, validate_local_account_name, validate_remove_data_target,
    SetupMetadata, PASSWORD_LEN,
};

fn valid_metadata() -> SetupMetadata {
    SetupMetadata {
        version: 1,
        install_kind: "managed-local-admin".to_string(),
        managed_account_username: "OTPUACAdmin".to_string(),
        managed_account_domain: None,
        managed_account_sid: "S-1-5-21-test".to_string(),
        managed_account_created_by_otpuac: true,
        install_dir: r"C:\Program Files\OTPUAC".to_string(),
        service_name: SERVICE_NAME.to_string(),
        created_at_unix: 1,
    }
}

#[test]
fn remove_data_target_requires_setup_metadata() {
    let err = validate_remove_data_target("program-data", None).unwrap_err();
    assert!(err.message().contains("setup metadata is missing"));
}

#[test]
fn remove_data_target_rejects_unexpected_metadata() {
    let mut metadata = valid_metadata();
    metadata.service_name = "OtherService".to_string();

    let err = validate_remove_data_target("program-data", Some(&metadata)).unwrap_err();
    assert!(err.message().contains("setup metadata is not valid"));
}

#[test]
fn remove_data_target_accepts_otpuac_metadata() {
    let metadata = valid_metadata();

    validate_remove_data_target("program-data", Some(&metadata)).unwrap();
}

#[test]
fn generated_password_contains_required_character_classes() {
    let password = generate_windows_password();

    assert_eq!(password.len(), PASSWORD_LEN);
    assert!(password.bytes().any(|byte| byte.is_ascii_lowercase()));
    assert!(password.bytes().any(|byte| byte.is_ascii_uppercase()));
    assert!(password.bytes().any(|byte| byte.is_ascii_digit()));
    assert!(password.bytes().any(|byte| !byte.is_ascii_alphanumeric()));
}

#[test]
fn account_name_validation_rejects_windows_special_characters() {
    assert!(validate_local_account_name("OTPUACAdmin").is_ok());
    assert!(validate_local_account_name("bad\\name").is_err());
    assert!(validate_local_account_name(" name").is_err());
    assert!(validate_local_account_name("averyveryverylongusername").is_err());
}
