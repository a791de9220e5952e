use transcorp_digital_twin::handlers::encryption::{encrypt_with_key, EncryptRequest};
use transcorp_digital_twin::middleware::auth::AuthValidator;
use transcorp_digital_twin::services::balance::{credit, debit};
use transcorp_digital_twin::services::id_gen::{
    expiry_for, generate_bank_tid, generate_card_number, generate_expiry, generate_kit_no,
    generate_otp, generate_token, generate_txn_id,
};
use transcorp_digital_twin::state::Table;

fn all_digits(s: &str) -> bool {
    !s.is_empty() && s.chars().all(|c| c.is_ascii_digit())
}

#[test]
fn otp_is_six_digits_in_range() {
    for _ in 0..50 {
        let otp = generate_otp();
        assert_eq!(otp.len(), 6);
        let n: u64 = otp.parse().unwrap();
        assert!((100_000..999_999).contains(&n));
    }
}

#[test]
fn token_is_uuid_hex() {
    let t = generate_token();
    assert_eq!(t.len(), 33);
    assert!(t.ends_with('='));
    assert!(t[..32].chars().all(|c| c.is_ascii_hexdigit() && !c.is_ascii_lowercase()));
    assert_eq!(&t[12..13], "4");
    assert_ne!(generate_token(), generate_token());
}

#[test]
fn identifiers_have_their_forms() {
    let k = generate_kit_no();
    assert_eq!(k.len(), 12);
    assert!(all_digits(&k));
    let c = generate_card_number();
    assert!(c.starts_with("4804XXXXXXXX"));
    assert_eq!(c.len(), 16);
    let n: u32 = c[12..].parse().unwrap();
    assert!((1000..9999).contains(&n));
    let b = generate_bank_tid();
    assert_eq!(b.len(), 9);
    assert!(all_digits(&b));
    let id = generate_txn_id();
    assert!((100_000_000..999_999_999).contains(&id));
}

#[test]
fn expiry_is_three_years_on() {
    // 2000-01-01T00:00:00Z plus 1095 days is 2002-12-31.
    assert_eq!(expiry_for(946684800), "1202");
    let e = generate_expiry();
    assert_eq!(e.len(), 4);
    assert!(all_digits(&e));
    let month: u32 = e[..2].parse().unwrap();
    assert!((1..=12).contains(&month));
}

#[test]
fn credit_creates_and_adds() {
    let mut t: Table<i64> = Table::new();
    assert_eq!(credit(&mut t, "A", 500).unwrap(), 500);
    assert_eq!(credit(&mut t, "A", 250).unwrap(), 750);
    assert_eq!(*t.get("A").unwrap(), 750);
    assert_eq!(t.keys(), &vec!["A".to_string()]);
}

#[test]
fn debit_refuses_overdraft_but_creates_entry() {
    let mut t: Table<i64> = Table::new();
    let e = debit(&mut t, "B", 100).unwrap_err();
    assert_eq!(e.code, "Y212");
    assert_eq!(*t.get("B").unwrap(), 0);
    credit(&mut t, "B", 300).unwrap();
    assert_eq!(debit(&mut t, "B", 100).unwrap(), 200);
    assert_eq!(debit(&mut t, "B", 200).unwrap(), 0);
    assert!(debit(&mut t, "B", 1).is_err());
}

#[test]
fn credit_then_debit_restores_balance() {
    let mut t: Table<i64> = Table::new();
    credit(&mut t, "C", 1234).unwrap();
    credit(&mut t, "C", 99).unwrap();
    assert_eq!(debit(&mut t, "C", 99).unwrap(), 1234);
}

#[test]
fn encryption_is_base64() {
    let form = EncryptRequest { json_data: "hello".to_string(), entity_key: "k".to_string() };
    assert_eq!(encrypt_with_key(&form), "aGVsbG8=");
    let form = EncryptRequest { json_data: String::new(), entity_key: String::new() };
    assert_eq!(encrypt_with_key(&form), "");
    let form = EncryptRequest { json_data: "{\"a\":1}".to_string(), entity_key: "k".to_string() };
    assert_eq!(encrypt_with_key(&form), "eyJhIjoxfQ==");
}

fn validator() -> AuthValidator {
    AuthValidator {
        valid_tokens: vec!["test-token".to_string()],
        valid_tenants: vec!["BUSINESS".to_string(), "SANDBOXTEST".to_string()],
    }
}

#[test]
fn auth_admits_bare_and_bearer_tokens() {
    let v = validator();
    assert!(v.check(Some("test-token"), Some("BUSINESS")).is_ok());
    assert!(v.check(Some("Bearer test-token"), Some("SANDBOXTEST")).is_ok());
}

#[test]
fn auth_refuses_bad_token_before_tenant() {
    let v = validator();
    let e = v.check(Some("other"), None).unwrap_err();
    assert_eq!(e.code, "Y230");
    assert_eq!(e.http_status(), 401);
    let e = v.check(None, Some("BUSINESS")).unwrap_err();
    assert_eq!(e.code, "Y230");
    let e = v.check(Some("bearer test-token"), Some("BUSINESS")).unwrap_err();
    assert_eq!(e.code, "Y230");
}

#[test]
fn auth_refuses_bad_tenant() {
    let v = validator();
    let e = v.check(Some("test-token"), Some("OTHER")).unwrap_err();
    assert_eq!(e.code, "Y104");
    assert_eq!(e.short_message, "Invalid or missing TENANT header");
    assert_eq!(e.http_status(), 400);
    let e = v.check(Some("test-token"), None).unwrap_err();
    assert_eq!(e.code, "Y104");
}
