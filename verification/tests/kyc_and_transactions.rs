use transcorp_digital_twin::handlers::card::{add_card, fetch_balance, get_card_list};
use transcorp_digital_twin::handlers::kyc::{
    generate_otp, generate_otp_with, register_customer, register_customer_with, RegistrationDraws,
};
use transcorp_digital_twin::handlers::registration::register_corporate;
use transcorp_digital_twin::handlers::transaction::{
    create_transaction, create_transaction_with, fetch_by_entity, fetch_by_ext_id, TxnDraws,
};
use transcorp_digital_twin::handlers::CardMint;
use transcorp_digital_twin::models::card::{AddCardRequest, CardStatus, GetCardListRequest};
use transcorp_digital_twin::models::corporate::RegisterCorporateRequest;
use transcorp_digital_twin::models::customer::{
    CommunicationInfo, GenerateOtpRequest, KitInfo, RegisterCustomerRequest,
};
use transcorp_digital_twin::models::transaction::CreateTransactionRequest;
use transcorp_digital_twin::state::AppState;

fn s(x: &str) -> Option<String> {
    Some(x.to_string())
}

fn customer_request(entity: &str, otp: &str) -> RegisterCustomerRequest {
    RegisterCustomerRequest {
        entity_id: s(entity),
        otp: s(otp),
        channel_name: None,
        entity_type: None,
        business_type: None,
        business_id: None,
        title: None,
        first_name: s("Asha"),
        middle_name: None,
        last_name: s("Rao"),
        gender: s("F"),
        is_nri_customer: None,
        is_minor: None,
        is_dependant: None,
        marital_status: None,
        country_code: None,
        employment_industry: None,
        employment_type: None,
        plastic_code: None,
        kit_info: None,
        address_info: None,
        communication_info: None,
        kyc_info: None,
        date_info: None,
    }
}

fn kit(no: Option<&str>, status: Option<&str>) -> KitInfo {
    KitInfo {
        kit_no: no.map(|x| x.to_string()),
        card_type: None,
        card_category: None,
        card_reg_status: status.map(|x| x.to_string()),
        alias_name: None,
        fourth_line: None,
    }
}

fn otp_for(state: &mut AppState, entity: &str) -> String {
    let req = GenerateOtpRequest { entity_id: s(entity), mobile_number: s("9999999999") };
    let resp = generate_otp(state, &req).unwrap();
    assert!(resp.success);
    assert_eq!(resp.entity_id, entity);
    state.otps.get(entity).unwrap().otp.clone()
}

fn registered(entity: &str) -> AppState {
    let mut state = AppState::new(None);
    let otp = otp_for(&mut state, entity);
    register_customer(&mut state, &customer_request(entity, &otp)).unwrap();
    state
}

#[test]
fn otp_issue_and_refusals() {
    let mut state = AppState::new(None);
    let req = GenerateOtpRequest { entity_id: s("C1"), mobile_number: None };
    assert_eq!(generate_otp(&mut state, &req).unwrap_err().short_message, "Mandatory field mobileNumber is missing");
    let req = GenerateOtpRequest { entity_id: s("C1"), mobile_number: s("98") };
    generate_otp_with(&mut state, &req, "123456".to_string(), 1000).unwrap();
    let record = state.otps.get("C1").unwrap();
    assert_eq!(record.otp, "123456");
    assert_eq!(record.expires_at, 1300);
    assert_eq!(record.mobile, "98");
}

#[test]
fn registration_with_valid_otp() {
    let mut state = AppState::new(None);
    let otp = otp_for(&mut state, "C1");
    let mut req = customer_request("C1", &otp);
    req.communication_info = Some(vec![CommunicationInfo { contact_no: s("98765"), email_id: s("a@b.c") }]);
    req.kit_info = Some(vec![kit(Some("KIT1"), Some("LOCKED")), kit(None, None)]);
    let resp = register_customer(&mut state, &req).unwrap();
    assert_eq!(resp.entity_id, "C1");
    assert_eq!(resp.kit_no, "KIT1");
    assert_eq!(resp.token.len(), 33);
    assert!(!resp.valid);
    let customer = state.customers.get("C1").unwrap();
    assert_eq!(customer.mobile, "98765");
    assert_eq!(customer.email.as_deref(), Some("a@b.c"));
    assert_eq!(customer.kyc_status, "MIN_KYC");
    assert_eq!(customer.token, resp.token);
    assert_eq!(fetch_balance(&state, "C1").unwrap().balance_paise, 0);
    assert_eq!(state.cards.get("KIT1").unwrap().status, CardStatus::Locked);
    assert_eq!(state.cards.keys().len(), 2);
    assert!(state.otps.get("C1").is_none());
    let list = get_card_list(&state, &GetCardListRequest { entity_id: s("C1") }).unwrap();
    assert_eq!(list.card_status_list, vec!["LOCKED".to_string(), "ACTIVE".to_string()]);
}

#[test]
fn registration_refusals() {
    let mut state = AppState::new(None);
    let e = register_customer(&mut state, &customer_request("C1", "000000")).unwrap_err();
    assert_eq!(e.code, "Y103");
    let otp = otp_for(&mut state, "C1");
    let wrong = if otp == "100000" { "100001" } else { "100000" };
    assert_eq!(register_customer(&mut state, &customer_request("C1", wrong)).unwrap_err().code, "Y103");
    let mut req = customer_request("C1", &otp);
    req.last_name = None;
    assert_eq!(register_customer(&mut state, &req).unwrap_err().short_message, "Mandatory field lastName is missing");
    register_customer(&mut state, &customer_request("C1", &otp)).unwrap();
    assert_eq!(register_customer(&mut state, &customer_request("C1", &otp)).unwrap_err().code, "Y503");
}

#[test]
fn expired_otp_is_refused() {
    let mut state = AppState::new(None);
    let req = GenerateOtpRequest { entity_id: s("C2"), mobile_number: s("98") };
    generate_otp_with(&mut state, &req, "654321".to_string(), 1000).unwrap();
    let draws = RegistrationDraws { kit_no: "000000000001".to_string(), token: "T=".to_string(), now: 1301, cards: vec![] };
    let e = register_customer_with(&mut state, &customer_request("C2", "654321"), draws).unwrap_err();
    assert_eq!(e.code, "Y101");
    let draws = RegistrationDraws { kit_no: "000000000001".to_string(), token: "T=".to_string(), now: 1300, cards: vec![] };
    let resp = register_customer_with(&mut state, &customer_request("C2", "654321"), draws).unwrap();
    assert_eq!(resp.kit_no, "000000000001");
    assert_eq!(resp.token, "T=");
}

#[test]
fn registration_with_drawn_cards() {
    let mut state = AppState::new(None);
    let req = GenerateOtpRequest { entity_id: s("C3"), mobile_number: s("98") };
    generate_otp_with(&mut state, &req, "111111".to_string(), 0).unwrap();
    let mut body = customer_request("C3", "111111");
    body.channel_name = s("FULL_KYC");
    body.kit_info = Some(vec![kit(None, Some("UNACTIVATED"))]);
    let mint = CardMint {
        kit_no: "555555555555".to_string(),
        card_number: "4804XXXXXXXX4321".to_string(),
        expiry_date: "0331".to_string(),
        created_at: 5,
    };
    let draws = RegistrationDraws { kit_no: "999999999999".to_string(), token: "T=".to_string(), now: 10, cards: vec![mint] };
    let resp = register_customer_with(&mut state, &body, draws).unwrap();
    assert_eq!(resp.kit_no, "999999999999");
    let card = state.cards.get("555555555555").unwrap();
    assert_eq!(card.status, CardStatus::Unactivated);
    assert_eq!(card.card_number, "4804XXXXXXXX4321");
    assert_eq!(card.created_at, 10);
    assert_eq!(state.customers.get("C3").unwrap().kyc_status, "FULL_KYC");
    let add = AddCardRequest { entity_id: s("C3"), business_type: None, card_type: None, kit_no: s("KX") };
    assert!(add_card(&mut state, &add).is_ok());
}

fn corporate(state: &mut AppState, entity: &str, kit: &str) {
    let req = RegisterCorporateRequest {
        entity_id: s(entity),
        entity_type: s("CORPORATE"),
        business_type: s("B"),
        business_id: None,
        title: None,
        first_name: s("Acme"),
        last_name: None,
        gender: None,
        special_date: None,
        kit_no: s(kit),
        contact_no: None,
        email_address: None,
        address: None,
        address2: None,
        city: None,
        state: None,
        country: None,
        pincode: None,
        id_type: None,
        id_number: None,
        countryof_issue: None,
        dependent: None,
        id_expiry: None,
        kyc_ref_no: None,
        kyc_status: None,
        country_code: None,
        address_dto: None,
        contact_no1: None,
        email_address1: None,
        email_address2: None,
    };
    register_corporate(state, &req).unwrap();
}

fn txn(from: &str, to: &str, amount: Option<Option<i64>>, kind: &str, ext: &str) -> CreateTransactionRequest {
    CreateTransactionRequest {
        to_entity_id: s(to),
        from_entity_id: s(from),
        yapcode: None,
        product_id: None,
        description: s("test"),
        amount,
        transaction_type: s(kind),
        transaction_origin: s("MOBILE"),
        business: s("BIZ"),
        business_entity_id: None,
        business_type: None,
        external_transaction_id: s(ext),
        from_product_id: None,
    }
}

#[test]
fn load_then_transfer() {
    let mut state = registered("C1");
    corporate(&mut state, "B1", "KB1");
    let out = create_transaction(&mut state, &txn("B1", "B1", Some(Some(10_000)), "M2C", "E1")).unwrap();
    assert!((100_000_000..999_999_999).contains(&out.response.tx_id));
    assert!(out.notification.is_none());
    assert_eq!(fetch_balance(&state, "B1").unwrap().balance_paise, 10_000);
    create_transaction(&mut state, &txn("B1", "C1", Some(Some(2_500)), "B2C", "E2")).unwrap();
    assert_eq!(fetch_balance(&state, "B1").unwrap().balance_paise, 7_500);
    assert_eq!(fetch_balance(&state, "C1").unwrap().balance_paise, 2_500);
    let f = fetch_by_ext_id(&state, "E2").unwrap();
    assert_eq!(f.transaction.amount_paise, 2_500);
    assert_eq!(f.transaction.balance_paise, Some(2_500));
    assert_eq!(f.transaction.credit_debit_type.as_deref(), Some("CREDIT"));
    assert_eq!(f.transaction.transaction_status, "PAYMENT_SUCCESS");
    assert_eq!(f.transaction.your_wallet.as_deref(), Some("GENERAL"));
    assert_eq!(f.transaction.beneficiary_wallet.as_deref(), Some(""));
    assert_eq!(f.transaction.bank_tid.as_ref().unwrap().len(), 9);
    assert!(f.balance_paise.is_none());
    create_transaction(&mut state, &txn("C1", "B1", Some(Some(500)), "C2B", "E3")).unwrap();
    assert_eq!(fetch_by_ext_id(&state, "E3").unwrap().transaction.credit_debit_type.as_deref(), Some("DEBIT"));
    assert_eq!(fetch_balance(&state, "C1").unwrap().balance_paise, 2_000);
    assert_eq!(fetch_balance(&state, "B1").unwrap().balance_paise, 8_000);
}

#[test]
fn transaction_refusals() {
    let mut state = registered("C1");
    let e = create_transaction(&mut state, &txn("C1", "C9", Some(Some(100)), "C2C", "E1")).unwrap_err();
    assert_eq!(e.code, "Y212");
    assert!(fetch_by_ext_id(&state, "E1").is_err());
    let e = create_transaction(&mut state, &txn("X", "C1", Some(Some(100)), "C2C", "E1")).unwrap_err();
    assert_eq!(e.code, "Y212");
    assert_eq!(fetch_balance(&state, "X").unwrap().balance_paise, 0);
    assert_eq!(create_transaction(&mut state, &txn("C1", "C1", None, "M2C", "E1")).unwrap_err().short_message, "Mandatory field amount is missing");
    let e = create_transaction(&mut state, &txn("C1", "C1", Some(None), "M2C", "E1")).unwrap_err();
    assert_eq!((e.code.as_str(), e.short_message.as_str()), ("Y512", "Amount Must be greater than zero"));
    assert_eq!(create_transaction(&mut state, &txn("C1", "C1", Some(Some(0)), "M2C", "E1")).unwrap_err().code, "Y512");
    assert_eq!(create_transaction(&mut state, &txn("C1", "C1", Some(Some(5)), "X2Y", "E1")).unwrap_err().code, "Y401");
    assert_eq!(create_transaction(&mut state, &txn("C1", "C1", Some(Some(5)), "", "E1")).unwrap_err().short_message, "Mandatory field transactionType is missing");
    create_transaction(&mut state, &txn("C1", "C1", Some(Some(5)), "M2C", "E1")).unwrap();
    let e = create_transaction(&mut state, &txn("C1", "C1", Some(Some(5)), "M2C", "E1")).unwrap_err();
    assert_eq!((e.code.as_str(), e.short_message.as_str()), ("Y2004", "Transaction repeated within allowable time"));
    assert_eq!(fetch_balance(&state, "C1").unwrap().balance_paise, 5);
    let e = fetch_by_ext_id(&state, "NOPE").unwrap_err();
    assert_eq!(e.short_message, "Transaction ID NOPE is invalid");
}

#[test]
fn partner_notification() {
    let mut state = AppState::new(Some("http://partner/hook".to_string()));
    let draws = TxnDraws { tx_id: 123456789, bank_tid: "100000000".to_string(), time: 946684800000, now_seconds: 946684800 };
    let out = create_transaction_with(&mut state, &txn("A", "B", Some(Some(1050)), "M2C", "EXT"), draws).unwrap();
    assert_eq!(out.response.tx_id, 123456789);
    let n = out.notification.unwrap();
    assert_eq!(n.txn_ref_no, "123456789");
    assert_eq!(n.txn_date, "20000101000000");
    assert_eq!(n.txn_amt_paise, 1050);
    assert_eq!(n.balance_paise, Some(1050));
    assert_eq!(n.entity_id.as_deref(), Some("B"));
    assert_eq!(n.cur_code.as_deref(), Some("356"));
    assert_eq!(n.txn_currency.as_deref(), Some("INR"));
    assert_eq!(n.transaction_fees.as_deref(), Some("0.0"));
    assert_eq!(n.channel.as_deref(), Some("MOBILE"));
    assert_eq!(n.ext_txn_id, "EXT");
    let stored = fetch_by_ext_id(&state, "EXT").unwrap().transaction;
    assert_eq!(stored.time, 946684800000);
    assert_eq!(stored.tx_ref, 123456789);
}

#[test]
fn latest_transaction_by_entity() {
    let mut state = AppState::new(None);
    assert!(fetch_by_entity(&state, "B").is_none());
    let d = |t: i64| TxnDraws { tx_id: 100000000 + t, bank_tid: "100000000".to_string(), time: t, now_seconds: 0 };
    create_transaction_with(&mut state, &txn("A", "B", Some(Some(1)), "M2C", "E1"), d(30)).unwrap();
    create_transaction_with(&mut state, &txn("A", "B", Some(Some(2)), "M2C", "E2"), d(10)).unwrap();
    create_transaction_with(&mut state, &txn("A", "C", Some(Some(3)), "M2C", "E3"), d(50)).unwrap();
    let latest = fetch_by_entity(&state, "B").unwrap();
    assert_eq!(latest.transaction.external_transaction_id, "E1");
    create_transaction_with(&mut state, &txn("A", "B", Some(Some(4)), "M2C", "E4"), d(30)).unwrap();
    assert_eq!(fetch_by_entity(&state, "B").unwrap().transaction.external_transaction_id, "E4");
    assert!(fetch_by_entity(&state, "A").is_none());
}
