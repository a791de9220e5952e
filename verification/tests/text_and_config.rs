use transcorp_digital_twin::config::{parse_u16_text, split_commas, AppConfig, DEFAULT_PORT};
use transcorp_digital_twin::models::card::CardStatus;
use transcorp_digital_twin::models::error::{
    auth_failed, block_old_card, customer_already_registered, entity_not_found,
    insufficient_balance, invalid_flag, invalid_otp, invalid_txn_id, kit_entity_mismatch,
    kit_not_found, missing_field, no_data, otp_expired, ErrorDetail,
};
use transcorp_digital_twin::text::{
    decimal_string, hex_upper_string, signed_decimal_string, text_eq, zero_padded_string,
};

#[test]
fn decimal_rendering() {
    assert_eq!(decimal_string(0), "0");
    assert_eq!(decimal_string(7), "7");
    assert_eq!(decimal_string(1234567890), "1234567890");
    assert_eq!(decimal_string(u64::MAX), u64::MAX.to_string());
    assert_eq!(signed_decimal_string(-42), "-42");
    assert_eq!(signed_decimal_string(i64::MIN), i64::MIN.to_string());
    assert_eq!(signed_decimal_string(123456789), "123456789");
}

#[test]
fn zero_padding_matches_format() {
    assert_eq!(zero_padded_string(42, 6), format!("{:06}", 42));
    assert_eq!(zero_padded_string(123456, 6), "123456");
    assert_eq!(zero_padded_string(1234567, 6), "1234567");
    assert_eq!(zero_padded_string(0, 3), "000");
}

#[test]
fn hex_rendering() {
    assert_eq!(hex_upper_string(&[0x00, 0xAB, 0x0F, 0xF0]), "00AB0FF0");
    assert_eq!(hex_upper_string(&[]), "");
}

#[test]
fn literal_comparison() {
    assert!(text_eq(&"UL".to_string(), "UL"));
    assert!(!text_eq(&"UL".to_string(), "L"));
}

#[test]
fn port_parsing_follows_rust() {
    for s in ["8080", "+80", "0", "65535", "65536", "", "+", "-1", "80a", " 80", "007", "99999999999"] {
        assert_eq!(parse_u16_text(s), s.parse::<u16>().ok(), "input {:?}", s);
    }
}

#[test]
fn config_from_settings() {
    let c = AppConfig::from_settings(None, None, None, None, None);
    assert_eq!(c.port, DEFAULT_PORT);
    assert_eq!(c.port, 8080);
    assert_eq!(c.partner_webhook_url, None);
    assert_eq!(c.valid_auth_tokens, vec!["test-token".to_string()]);
    assert_eq!(c.valid_tenants, vec!["BUSINESS".to_string(), "SANDBOXTEST".to_string()]);
    let c = AppConfig::from_settings(
        Some("9000"),
        Some("http://partner".to_string()),
        None,
        None,
        Some((vec!["t".to_string()], vec!["X".to_string()])),
    );
    assert_eq!(c.port, 9000);
    assert_eq!(c.partner_webhook_url.as_deref(), Some("http://partner"));
    assert_eq!(c.valid_auth_tokens, vec!["t".to_string()]);
    assert_eq!(c.valid_tenants, vec!["X".to_string()]);
    let c = AppConfig::from_settings(Some("not a port"), None, None, None, None);
    assert_eq!(c.port, 8080);
    let (t, n) = AppConfig::defaults();
    assert_eq!(t, vec!["test-token".to_string()]);
    assert_eq!(n, vec!["BUSINESS".to_string(), "SANDBOXTEST".to_string()]);
}

#[test]
fn list_settings_win_over_the_auth_file() {
    let c = AppConfig::from_settings(
        None,
        None,
        Some("a,b"),
        Some("T1"),
        Some((vec!["t".to_string()], vec!["X".to_string()])),
    );
    assert_eq!(c.valid_auth_tokens, vec!["a".to_string(), "b".to_string()]);
    assert_eq!(c.valid_tenants, vec!["T1".to_string()]);
    let c = AppConfig::from_settings(None, None, None, Some("P,Q,R"), None);
    assert_eq!(c.valid_auth_tokens, vec!["test-token".to_string()]);
    assert_eq!(c.valid_tenants, vec!["P".to_string(), "Q".to_string(), "R".to_string()]);
}

#[test]
fn comma_lists_split_like_std() {
    for s in ["", "a", "a,b", ",", "a,,b", "test-token,other", "x,", ",y", "ünï,cödé"] {
        let expected: Vec<String> = s.split(',').map(|p| p.to_string()).collect();
        assert_eq!(split_commas(s), expected, "input {:?}", s);
    }
}

fn check(e: ErrorDetail, code: &str, message: &str) {
    assert_eq!(e.code, code);
    assert_eq!(e.short_message, message);
    assert_eq!(e.detail_message, message);
}

#[test]
fn error_catalogue() {
    check(missing_field("entityId"), "Y105", "Mandatory field entityId is missing");
    check(entity_not_found("E1"), "Y226", "Entity Id Invalid: E1");
    check(insufficient_balance(), "Y212", "Insufficient Balance");
    check(invalid_otp(), "Y103", "Invalid OTP");
    check(otp_expired(), "Y101", "OTP expired please regenerate OTP");
    check(customer_already_registered(), "Y503", "Customer Already Registered");
    check(kit_not_found(), "Y3126", "Kit not found");
    check(invalid_flag(), "Y3125", "Invalid flag! Valid flags 'UL', 'L', 'BL'");
    check(block_old_card(), "Y3117", "Block old card");
    check(auth_failed(), "Y230", "Authentication Failed");
    check(no_data(), "Y508", "No data exists");
    check(invalid_txn_id("T9"), "Y223", "Transaction ID T9 is invalid");
    check(kit_entity_mismatch(), "Y3122", "EntityId to kitNo mismatch");
}

#[test]
fn error_status_codes() {
    for code in ["Y300", "Y301", "Y302", "Y303", "Y304", "Y230"] {
        assert_eq!(ErrorDetail::new(code, "m").http_status(), 401);
    }
    for code in ["Y105", "Y226", "Y3126", "Y2004", ""] {
        assert_eq!(ErrorDetail::new(code, "m").http_status(), 400);
    }
    let e = missing_field("kitNo");
    assert_eq!(e.clone().code, e.code);
}

#[test]
fn card_status_wire_names() {
    assert_eq!(CardStatus::Active.as_str(), "ACTIVE");
    assert_eq!(CardStatus::Locked.as_str(), "LOCKED");
    assert_eq!(CardStatus::Allocated.as_str(), "ALLOCATED");
    assert_eq!(CardStatus::Blocked.as_str(), "BLOCKED");
    assert_eq!(CardStatus::Replaced.as_str(), "REPLACED");
    assert_eq!(CardStatus::Unactivated.as_str(), "UNACTIVATED");
}
