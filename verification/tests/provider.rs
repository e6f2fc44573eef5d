use otpuac::provider::{build_unlock_request, OTPUAC_USAGE_SCENARIO};

#[test]
fn request_uses_uac_credential_ui_scenario() {
    let request = build_unlock_request("req-1", "123456");

    assert_eq!(request.request_id, "req-1");
    assert_eq!(request.usage_scenario, OTPUAC_USAGE_SCENARIO);
    assert_eq!(request.totp_code, "123456");
}
