use transcorp_digital_twin::handlers::card::{
    add_card, add_card_with, fetch_balance, fetch_preference, get_card_list, lock_unlock_block,
    pci_card_details, replace_card, replace_card_with, request_physical_card, set_pin,
    set_preferences, update_preference_external,
};
use transcorp_digital_twin::handlers::registration::register_corporate;
use transcorp_digital_twin::handlers::CardMint;
use transcorp_digital_twin::models::card::{
    AddCardRequest, BlockRequest, CardStatus, FetchPreferenceRequest, GetCardListRequest,
    LimitConfig, PciCardDetailsRequest, ReplaceCardRequest, RequestPhysicalCardRequest,
    SetPreferencesRequest, UpdatePreferenceExternalRequest,
};
use transcorp_digital_twin::models::corporate::RegisterCorporateRequest;
use transcorp_digital_twin::state::AppState;

fn s(x: &str) -> Option<String> {
    Some(x.to_string())
}

fn corporate_request(entity: &str, kit: &str) -> RegisterCorporateRequest {
    RegisterCorporateRequest {
        entity_id: s(entity),
        entity_type: s("CORPORATE"),
        business_type: s("BUSINESS"),
        business_id: None,
        title: None,
        first_name: s("Acme"),
        last_name: None,
        gender: None,
        special_date: None,
        kit_no: s(kit),
        contact_no: None,
        email_address: None,
        address: None,
        address2: None,
        city: None,
        state: None,
        country: None,
        pincode: None,
        id_type: None,
        id_number: None,
        countryof_issue: None,
        dependent: None,
        id_expiry: None,
        kyc_ref_no: None,
        kyc_status: None,
        country_code: None,
        address_dto: None,
        contact_no1: None,
        email_address1: None,
        email_address2: None,
    }
}

fn with_corporate() -> AppState {
    let mut state = AppState::new(None);
    register_corporate(&mut state, &corporate_request("CORP1", "K100")).unwrap();
    state
}

fn block(entity: &str, kit: &str, flag: &str) -> BlockRequest {
    BlockRequest { entity_id: s(entity), kit_no: s(kit), flag: s(flag), reason: None }
}

fn mint(kit: &str) -> CardMint {
    CardMint {
        kit_no: kit.to_string(),
        card_number: "4804XXXXXXXX1234".to_string(),
        expiry_date: "0130".to_string(),
        created_at: 1_700_000_000,
    }
}

#[test]
fn corporate_registration_issues_a_card_and_a_zero_balance() {
    let state = with_corporate();
    let card = state.cards.get("K100").unwrap();
    assert_eq!(card.entity_id, "CORP1");
    assert_eq!(card.card_type, "VIRTUAL");
    assert_eq!(card.card_category, "PREPAID");
    assert_eq!(card.network_type, "VISA");
    assert_eq!(card.status, CardStatus::Active);
    let balance = fetch_balance(&state, "CORP1").unwrap();
    assert_eq!(balance.balance_paise, 0);
    assert_eq!(balance.product_id, "GENERAL");
    assert_eq!(balance.lien_balance_paise, 0);
}

#[test]
fn corporate_registration_refusals() {
    let mut state = with_corporate();
    let e = register_corporate(&mut state, &corporate_request("CORP1", "K101")).unwrap_err();
    assert_eq!(e.code, "Y502");
    assert_eq!(e.short_message, "Business already Exists");
    let mut req = corporate_request("CORP2", "K102");
    req.kit_no = s("");
    let e = register_corporate(&mut state, &req).unwrap_err();
    assert_eq!(e.short_message, "Mandatory field kitNo is missing");
    let mut req = corporate_request("CORP2", "K102");
    req.entity_type = None;
    assert_eq!(register_corporate(&mut state, &req).unwrap_err().short_message, "Mandatory field entityType is missing");
}

#[test]
fn fetch_balance_of_unknown_entity() {
    let state = AppState::new(None);
    let e = fetch_balance(&state, "NOPE").unwrap_err();
    assert_eq!(e.code, "Y226");
    assert_eq!(e.short_message, "Entity Id Invalid: NOPE");
}

#[test]
fn add_card_types_and_kits() {
    let mut state = with_corporate();
    let req = AddCardRequest { entity_id: s("CORP1"), business_type: None, card_type: s("P"), kit_no: s("K200") };
    assert!(add_card(&mut state, &req).unwrap().success);
    assert_eq!(state.cards.get("K200").unwrap().card_type, "PHYSICAL");
    let req = AddCardRequest { entity_id: s("CORP1"), business_type: None, card_type: s("GIFT"), kit_no: None };
    add_card_with(&mut state, &req, mint("K300")).unwrap();
    let card = state.cards.get("K300").unwrap();
    assert_eq!(card.card_type, "GIFT");
    assert_eq!(card.card_number, "4804XXXXXXXX1234");
    assert_eq!(card.expiry_date, "0130");
    let req = AddCardRequest { entity_id: s("CORP1"), business_type: None, card_type: None, kit_no: None };
    add_card(&mut state, &req).unwrap();
    assert_eq!(state.cards.keys().len(), 4);
    let fresh = state.cards.keys()[3].clone();
    assert_eq!(fresh.len(), 12);
    assert_eq!(state.cards.get(&fresh).unwrap().card_type, "VIRTUAL");
}

#[test]
fn add_card_refusals() {
    let mut state = with_corporate();
    let req = AddCardRequest { entity_id: s(""), business_type: None, card_type: None, kit_no: None };
    assert_eq!(add_card(&mut state, &req).unwrap_err().code, "Y105");
    let req = AddCardRequest { entity_id: s("GHOST"), business_type: None, card_type: None, kit_no: None };
    assert_eq!(add_card(&mut state, &req).unwrap_err().short_message, "Entity Id Invalid: GHOST");
}

#[test]
fn card_list_lists_only_the_entitys_cards() {
    let mut state = with_corporate();
    register_corporate(&mut state, &corporate_request("CORP2", "K900")).unwrap();
    let req = AddCardRequest { entity_id: s("CORP1"), business_type: None, card_type: s("V"), kit_no: s("K101") };
    add_card(&mut state, &req).unwrap();
    let list = get_card_list(&state, &GetCardListRequest { entity_id: s("CORP1") }).unwrap();
    assert_eq!(list.kit_list, vec!["K100".to_string(), "K101".to_string()]);
    assert_eq!(list.card_status_list, vec!["ACTIVE".to_string(), "ACTIVE".to_string()]);
    assert_eq!(list.card_type_list, vec!["VIRTUAL".to_string(), "VIRTUAL".to_string()]);
    assert_eq!(list.network_type_list.len(), 2);
    assert_eq!(list.card_list.len(), 2);
    assert_eq!(list.expiry_date_list.len(), 2);
    let e = get_card_list(&state, &GetCardListRequest { entity_id: s("CORP3") }).unwrap_err();
    assert_eq!(e.code, "Y508");
    let e = get_card_list(&state, &GetCardListRequest { entity_id: None }).unwrap_err();
    assert_eq!(e.code, "Y105");
}

#[test]
fn lock_unlock_and_block() {
    let mut state = with_corporate();
    lock_unlock_block(&mut state, &block("CORP1", "K100", "L")).unwrap();
    assert_eq!(state.cards.get("K100").unwrap().status, CardStatus::Locked);
    lock_unlock_block(&mut state, &block("CORP1", "K100", "UL")).unwrap();
    assert_eq!(state.cards.get("K100").unwrap().status, CardStatus::Active);
    lock_unlock_block(&mut state, &block("CORP1", "K100", "BL")).unwrap();
    assert_eq!(state.cards.get("K100").unwrap().status, CardStatus::Blocked);
    let e = lock_unlock_block(&mut state, &block("CORP1", "K100", "UL")).unwrap_err();
    assert_eq!(e.code, "Y224");
    assert_eq!(e.short_message, "The Entity is blocked from transaction");
    let e = lock_unlock_block(&mut state, &block("CORP1", "K100", "L")).unwrap_err();
    assert_eq!(e.code, "Y224");
    assert_eq!(state.cards.get("K100").unwrap().status, CardStatus::Blocked);
}

#[test]
fn lock_refusals() {
    let mut state = with_corporate();
    assert_eq!(lock_unlock_block(&mut state, &block("CORP1", "K100", "X")).unwrap_err().code, "Y3125");
    assert_eq!(lock_unlock_block(&mut state, &block("CORP1", "NOKIT", "L")).unwrap_err().code, "Y3126");
    assert_eq!(lock_unlock_block(&mut state, &block("OTHER", "K100", "L")).unwrap_err().code, "Y3122");
    assert_eq!(
        lock_unlock_block(&mut state, &block("CORP1", "K100", "")).unwrap_err().short_message,
        "Mandatory field flag is missing"
    );
}

#[test]
fn replace_requires_a_blocked_card() {
    let mut state = with_corporate();
    let req = ReplaceCardRequest {
        entity_id: s("CORP1"),
        old_kit_no: s("K100"),
        new_kit_no: s("K150"),
        business_type: None,
        card_type: None,
    };
    assert_eq!(replace_card(&mut state, &req).unwrap_err().code, "Y3117");
    lock_unlock_block(&mut state, &block("CORP1", "K100", "BL")).unwrap();
    assert_eq!(replace_card(&mut state, &req).unwrap(), "success");
    assert_eq!(state.cards.get("K100").unwrap().status, CardStatus::Replaced);
    let new_card = state.cards.get("K150").unwrap();
    assert_eq!(new_card.status, CardStatus::Active);
    assert_eq!(new_card.card_type, "VIRTUAL");
    assert_eq!(new_card.entity_id, "CORP1");
}

#[test]
fn replace_with_drawn_kit() {
    let mut state = with_corporate();
    lock_unlock_block(&mut state, &block("CORP1", "K100", "BL")).unwrap();
    let req = ReplaceCardRequest {
        entity_id: s("CORP1"),
        old_kit_no: s("K100"),
        new_kit_no: None,
        business_type: None,
        card_type: s("PHYSICAL"),
    };
    replace_card_with(&mut state, &req, mint("K777")).unwrap();
    let card = state.cards.get("K777").unwrap();
    assert_eq!(card.card_type, "PHYSICAL");
    assert_eq!(card.created_at, 1_700_000_000);
    let req = ReplaceCardRequest {
        entity_id: s("CORP1"),
        old_kit_no: None,
        new_kit_no: None,
        business_type: None,
        card_type: None,
    };
    assert_eq!(replace_card(&mut state, &req).unwrap_err().short_message, "Mandatory field oldKitNo is missing");
}

#[test]
fn physical_card_request() {
    let mut state = with_corporate();
    let req = RequestPhysicalCardRequest { entity_id: s("CORP1"), kit_no: s("K100"), address_dto: None };
    assert!(request_physical_card(&mut state, &req).unwrap());
    assert!(state.cards.get("K100").unwrap().physical_card_requested);
    let req = RequestPhysicalCardRequest { entity_id: s("CORP9"), kit_no: s("K100"), address_dto: None };
    assert_eq!(request_physical_card(&mut state, &req).unwrap_err().code, "Y3122");
}

fn prefs(entity: &str) -> SetPreferencesRequest {
    SetPreferencesRequest {
        entity_id: s(entity),
        status: None,
        atm: None,
        pos: None,
        ecom: None,
        dcc: None,
        contactless: None,
        international: None,
        limit_config: None,
        overall_limit_config: None,
    }
}

#[test]
fn preferences_default_set_and_fetch() {
    let mut state = with_corporate();
    let fetch = FetchPreferenceRequest { entity_id: s("CORP1") };
    let p = fetch_preference(&state, &fetch).unwrap();
    assert_eq!(
        (p.atm, p.pos, p.ecom, p.dcc, p.contactless, p.international),
        (Some(true), Some(true), Some(true), Some(false), Some(true), Some(false))
    );
    let mut req = prefs("CORP1");
    req.atm = Some(false);
    req.limit_config = Some(LimitConfig {
        txn_type: s("ATM"),
        daily_limit_value: s("1000"),
        daily_limit_cnt: None,
        max_amount: None,
    });
    assert!(set_preferences(&mut state, &req).unwrap());
    let p = fetch_preference(&state, &fetch).unwrap();
    assert_eq!(p.atm, Some(false));
    assert_eq!(p.pos, None);
    let stored = state.preferences.get("CORP1").unwrap();
    assert_eq!(stored.limit_config.as_ref().unwrap().daily_limit_value.as_deref(), Some("1000"));
    let mut req = prefs("CORP1");
    req.pos = Some(true);
    set_preferences(&mut state, &req).unwrap();
    let p = fetch_preference(&state, &fetch).unwrap();
    assert_eq!((p.atm, p.pos), (Some(false), Some(true)));
    assert_eq!(set_preferences(&mut state, &prefs("NOPE")).unwrap_err().code, "Y226");
}

fn external(entity: &str, status: &str, kind: &str) -> UpdatePreferenceExternalRequest {
    UpdatePreferenceExternalRequest { entity_id: s(entity), status: s(status), pref_type: s(kind) }
}

#[test]
fn external_preference_switches() {
    let mut state = with_corporate();
    let fetch = FetchPreferenceRequest { entity_id: s("CORP1") };
    update_preference_external(&mut state, &external("CORP1", "ALLOWED", "ECOM")).unwrap();
    update_preference_external(&mut state, &external("CORP1", "BLOCKED", "INTERNATIONAL")).unwrap();
    let p = fetch_preference(&state, &fetch).unwrap();
    assert_eq!(p.ecom, Some(true));
    assert_eq!(p.international, Some(false));
    assert_eq!(p.atm, None);
    update_preference_external(&mut state, &external("CORP1", "ALLOWED", "UNKNOWN")).unwrap();
    assert_eq!(fetch_preference(&state, &fetch).unwrap(), p);
    let e = update_preference_external(&mut state, &external("CORP1", "ALLOWED", "")).unwrap_err();
    assert_eq!(e.short_message, "Mandatory field type is missing");
}

#[test]
fn card_links() {
    let state = with_corporate();
    let req = PciCardDetailsRequest {
        token: None,
        kit_no: s("K100"),
        entity_id: s("CORP1"),
        app_guid: None,
        business: None,
        callback_url: None,
        dob: None,
    };
    assert_eq!(pci_card_details(&state, &req).unwrap(), "https://mock-pci.example.com/card/K100");
    assert_eq!(set_pin(&state, &req).unwrap(), "https://mock-pci.example.com/setpin/K100");
    let req = PciCardDetailsRequest { kit_no: s("K999"), ..req };
    assert_eq!(pci_card_details(&state, &req).unwrap_err().code, "Y3126");
}

#[test]
fn reissued_kit_is_listed_once() {
    let mut state = with_corporate();
    let req = AddCardRequest { entity_id: s("CORP1"), business_type: None, card_type: s("P"), kit_no: s("K100") };
    add_card(&mut state, &req).unwrap();
    let list = get_card_list(&state, &GetCardListRequest { entity_id: s("CORP1") }).unwrap();
    assert_eq!(list.kit_list, vec!["K100".to_string()]);
    assert_eq!(list.card_type_list, vec!["PHYSICAL".to_string()]);
}
