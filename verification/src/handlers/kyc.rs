//! KYC requests: one-time passwords and customer registration.

use vstd::prelude::*;

use crate::handlers::{CardMint, CardMintView, mint_card, mint_valid, required};
use crate::models::card::{Card, CardStatus, CardView};
use crate::models::customer::{
    CommunicationInfo, Customer, CustomerView, GenerateOtpRequest, GenerateOtpResponse,
    GenerateOtpResponseView, KitInfo, OtpRecord, OtpRecordView, RegisterCustomerRequest,
    RegisterCustomerResponse, RegisterCustomerResponseView,
};
use crate::models::error::{
    self, ErrorDetail, ErrorDetailView, customer_already_registered_error, invalid_otp_error,
    missing_field_error, otp_expired_error, outcome,
};
use crate::services::id_gen::{
    self, MAX_UNIX_SECONDS, is_kit_no_text, is_otp_text, is_token_text, now_unix_seconds,
};
use crate::state::{AppModel, AppState, TableModel};
use crate::text::{clone_opt, owned, present, text_eq};

verus! {

/// How long a one-time password stays valid, in seconds.
pub const OTP_LIFETIME_SECONDS: i64 = 300i64;

/// What `generate_otp` does, given the drawn password and the time: the
/// password is recorded for the entity, expiring five minutes later.
pub open spec fn generate_otp_spec(s: AppModel, body: GenerateOtpRequest, otp: Seq<char>, now: i64) -> (
    AppModel,
    Result<GenerateOtpResponseView, ErrorDetailView>,
) {
    if !present(body.entity_id) {
        (s, Err(missing_field_error("entityId"@)))
    } else if !present(body.mobile_number) {
        (s, Err(missing_field_error("mobileNumber"@)))
    } else {
        let id = body.entity_id->0@;
        let record = OtpRecordView {
            otp,
            entity_id: id,
            mobile: body.mobile_number->0@,
            expires_at: (now + OTP_LIFETIME_SECONDS) as i64,
        };
        (
            AppModel { otps: s.otps.insert(id, record), ..s },
            Ok(GenerateOtpResponseView { success: true, entity_id: id }),
        )
    }
}

/// Issues the given one-time password to an entity at time `now`.
pub fn generate_otp_with(state: &mut AppState, body: &GenerateOtpRequest, otp: String, now: i64) -> (r: Result<
    GenerateOtpResponse,
    ErrorDetail,
>)
    requires
        old(state).wf(),
        now <= i64::MAX - OTP_LIFETIME_SECONDS,
    ensures
        final(state).wf(),
        (final(state)@, outcome(r)) == generate_otp_spec(old(state)@, *body, otp@, now),
{
    let entity_id = match required(&body.entity_id, "entityId") {
        Ok(id) => id,
        Err(e) => return Err(e),
    };
    let mobile = match required(&body.mobile_number, "mobileNumber") {
        Ok(m) => m,
        Err(e) => return Err(e),
    };
    let record = OtpRecord {
        otp,
        entity_id: entity_id.clone(),
        mobile,
        expires_at: now + OTP_LIFETIME_SECONDS,
    };
    let ghost before = state.otps@;
    state.otps.insert(entity_id.clone(), record);
    assert(state.otps@.map_values(|o: OtpRecord| o@) =~= before.map_values(|o: OtpRecord| o@).insert(
        entity_id@,
        record@,
    ));
    Ok(GenerateOtpResponse { success: true, entity_id })
}

/// Issues a fresh six-digit one-time password to an entity, valid for five minutes.
pub fn generate_otp(state: &mut AppState, body: &GenerateOtpRequest) -> (r: Result<
    GenerateOtpResponse,
    ErrorDetail,
>)
    requires
        old(state).wf(),
    ensures
        final(state).wf(),
        exists|otp: Seq<char>, now: i64|
            is_otp_text(otp) && 0 <= now <= MAX_UNIX_SECONDS && (final(state)@, outcome(r))
                == #[trigger] generate_otp_spec(old(state)@, *body, otp, now),
{
    let otp = id_gen::generate_otp();
    let now = now_unix_seconds();
    let ghost o = otp@;
    let r = generate_otp_with(state, body, otp, now);
    assert((final(state)@, outcome(r)) == generate_otp_spec(old(state)@, *body, o, now));
    r
}

/// The freshly drawn parts of a registration: a kit number to report where
/// the request names none, a token, the time, and one drawn card per kit.
#[derive(Debug)]
pub struct RegistrationDraws {
    pub kit_no: String,
    pub token: String,
    pub now: i64,
    pub cards: Vec<CardMint>,
}

/// The abstract value of a [`RegistrationDraws`].
pub struct RegistrationDrawsView {
    pub kit_no: Seq<char>,
    pub token: Seq<char>,
    pub now: i64,
    pub cards: Seq<CardMintView>,
}

impl View for RegistrationDraws {
    type V = RegistrationDrawsView;

    open spec fn view(&self) -> RegistrationDrawsView {
        RegistrationDrawsView {
            kit_no: self.kit_no@,
            token: self.token@,
            now: self.now,
            cards: self.cards@.map_values(|m: CardMint| m@),
        }
    }
}

/// What every registration draw satisfies, for a request with `kits` kits.
pub open spec fn registration_draws_valid(d: RegistrationDrawsView, kits: nat) -> bool {
    &&& is_kit_no_text(d.kit_no)
    &&& is_token_text(d.token)
    &&& 0 <= d.now <= MAX_UNIX_SECONDS
    &&& d.cards.len() == kits
    &&& forall|i: int| 0 <= i < kits ==> mint_valid(#[trigger] d.cards[i])
}

/// The kits that a registration request carries.
pub open spec fn requested_kits(body: RegisterCustomerRequest) -> Seq<KitInfo> {
    match body.kit_info {
        Some(v) => v@,
        None => Seq::empty(),
    }
}

/// The contacts that a registration request carries.
pub open spec fn requested_contacts(body: RegisterCustomerRequest) -> Seq<CommunicationInfo> {
    match body.communication_info {
        Some(v) => v@,
        None => Seq::empty(),
    }
}

/// The status of a card issued with a registration: `ACTIVE`, `LOCKED` and
/// `UNACTIVATED` as named, anything else active.
pub open spec fn registered_status(requested: Option<String>) -> CardStatus {
    match requested {
        Some(s) => if s@ == "ACTIVE"@ {
            CardStatus::Active
        } else if s@ == "LOCKED"@ {
            CardStatus::Locked
        } else if s@ == "UNACTIVATED"@ {
            CardStatus::Unactivated
        } else {
            CardStatus::Active
        },
        None => CardStatus::Active,
    }
}

/// The card issued for one kit of a registration.
pub open spec fn kit_card(kit: KitInfo, m: CardMintView, entity_id: Seq<char>, now: i64) -> CardView {
    CardView {
        kit_no: match kit.kit_no {
            Some(k) => k@,
            None => m.kit_no,
        },
        entity_id,
        card_number: m.card_number,
        card_type: match kit.card_type {
            Some(t) => t@,
            None => "VIRTUAL"@,
        },
        card_category: match kit.card_category {
            Some(c) => c@,
            None => "PREPAID"@,
        },
        status: registered_status(kit.card_reg_status),
        network_type: "VISA"@,
        expiry_date: m.expiry_date,
        physical_card_requested: false,
        created_at: now,
    }
}

/// The cards after issuing the cards of the first `n` kits, in order.
pub open spec fn issue_kit_cards(
    cards: TableModel<CardView>,
    kits: Seq<KitInfo>,
    mints: Seq<CardMintView>,
    entity_id: Seq<char>,
    now: i64,
    n: int,
) -> TableModel<CardView>
    decreases n,
{
    if n <= 0 {
        cards
    } else {
        let c = kit_card(kits[n - 1], mints[n - 1], entity_id, now);
        issue_kit_cards(cards, kits, mints, entity_id, now, n - 1).insert(c.kit_no, c)
    }
}

/// The state after a successful registration.
pub open spec fn registered_state(s: AppModel, body: RegisterCustomerRequest, d: RegistrationDrawsView) -> AppModel {
    let id = body.entity_id->0@;
    let contacts = requested_contacts(body);
    let kits = requested_kits(body);
    let customer = CustomerView {
        entity_id: id,
        first_name: body.first_name->0@,
        middle_name: body.middle_name.deep_view(),
        last_name: body.last_name->0@,
        gender: body.gender.deep_view(),
        mobile: if contacts.len() > 0 && contacts[0].contact_no is Some {
            contacts[0].contact_no->0@
        } else {
            Seq::empty()
        },
        email: if contacts.len() > 0 {
            contacts[0].email_id.deep_view()
        } else {
            None
        },
        token: d.token,
        kyc_status: match body.channel_name {
            Some(c) => c@,
            None => "MIN_KYC"@,
        },
        created_at: d.now,
    };
    AppModel {
        customers: s.customers.insert(id, customer),
        otps: s.otps.remove(id),
        cards: issue_kit_cards(s.cards, kits, d.cards, id, d.now, kits.len() as int),
        balances: s.balances.insert(id, 0),
        ..s
    }
}

/// What `register_customer` does, given the drawn parts: a new customer with
/// a valid, unexpired password is stored with a zero balance and a card for
/// each kit, and the password is used up.
pub open spec fn register_customer_spec(s: AppModel, body: RegisterCustomerRequest, d: RegistrationDrawsView) -> (
    AppModel,
    Result<RegisterCustomerResponseView, ErrorDetailView>,
) {
    if !present(body.entity_id) {
        (s, Err(missing_field_error("entityId"@)))
    } else if !present(body.otp) {
        (s, Err(missing_field_error("otp"@)))
    } else if !present(body.first_name) {
        (s, Err(missing_field_error("firstName"@)))
    } else if !present(body.last_name) {
        (s, Err(missing_field_error("lastName"@)))
    } else {
        let id = body.entity_id->0@;
        if s.customers.contains(id) {
            (s, Err(customer_already_registered_error()))
        } else if !s.otps.contains_key(id) {
            (s, Err(invalid_otp_error()))
        } else if s.otps[id].expires_at < d.now {
            (s, Err(otp_expired_error()))
        } else if s.otps[id].otp != body.otp->0@ {
            (s, Err(invalid_otp_error()))
        } else {
            let kits = requested_kits(body);
            let kit = if kits.len() > 0 && kits[0].kit_no is Some {
                kits[0].kit_no->0@
            } else {
                d.kit_no
            };
            (
                registered_state(s, body, d),
                Ok(RegisterCustomerResponseView { entity_id: id, kit_no: kit, token: d.token, valid: false }),
            )
        }
    }
}

/// The card status named at registration.
fn registered_status_of(requested: &Option<String>) -> (s: CardStatus)
    ensures
        s == registered_status(*requested),
{
    match requested {
        Some(s) => {
            if text_eq(s, "ACTIVE") {
                CardStatus::Active
            } else if text_eq(s, "LOCKED") {
                CardStatus::Locked
            } else if text_eq(s, "UNACTIVATED") {
                CardStatus::Unactivated
            } else {
                CardStatus::Active
            }
        },
        None => CardStatus::Active,
    }
}

/// The text of an optional field, or a literal where it is absent.
fn text_or(field: &Option<String>, fallback: &str) -> (t: String)
    ensures
        t@ == match *field {
            Some(f) => f@,
            None => fallback@,
        },
{
    match field {
        Some(f) => f.clone(),
        None => owned(fallback),
    }
}

/// Issues the card of each kit of a registration.
fn issue_cards(state: &mut AppState, kits: &Vec<KitInfo>, mints: &Vec<CardMint>, entity_id: &String, now: i64)
    requires
        old(state).wf(),
        mints@.len() == kits@.len(),
    ensures
        final(state).wf(),
        final(state)@ == (AppModel {
            cards: issue_kit_cards(
                old(state)@.cards,
                kits@,
                mints@.map_values(|m: CardMint| m@),
                entity_id@,
                now,
                kits@.len() as int,
            ),
            ..old(state)@
        }),
{
    let ghost mv = mints@.map_values(|m: CardMint| m@);
    let mut i: usize = 0;
    while i < kits.len()
        invariant
            i <= kits@.len(),
            mints@.len() == kits@.len(),
            mv == mints@.map_values(|m: CardMint| m@),
            state.wf(),
            state@ == (AppModel {
                cards: issue_kit_cards(old(state)@.cards, kits@, mv, entity_id@, now, i as int),
                ..old(state)@
            }),
        decreases kits@.len() - i,
    {
        let kit = &kits[i];
        let m = &mints[i];
        assert(m@ == mv[i as int]);
        let card = Card {
            kit_no: match &kit.kit_no {
                Some(k) => k.clone(),
                None => m.kit_no.clone(),
            },
            entity_id: entity_id.clone(),
            card_number: m.card_number.clone(),
            card_type: text_or(&kit.card_type, "VIRTUAL"),
            card_category: text_or(&kit.card_category, "PREPAID"),
            status: registered_status_of(&kit.card_reg_status),
            network_type: owned("VISA"),
            expiry_date: m.expiry_date.clone(),
            physical_card_requested: false,
            created_at: now,
        };
        assert(card@ == kit_card(kits@[i as int], mv[i as int], entity_id@, now));
        let key = card.kit_no.clone();
        state.cards.insert(key, card);
        i = i + 1;
    }
}

/// The first contact of a registration request, if any.
fn first_contact(body: &RegisterCustomerRequest) -> (c: Option<&CommunicationInfo>)
    ensures
        match c {
            Some(c) => requested_contacts(*body).len() > 0 && *c == requested_contacts(*body)[0],
            None => requested_contacts(*body).len() == 0,
        },
{
    match &body.communication_info {
        Some(v) => {
            if v.len() > 0 {
                Some(&v[0])
            } else {
                None
            }
        },
        None => None,
    }
}

/// Registers a customer with the given drawn parts.
pub fn register_customer_with(
    state: &mut AppState,
    body: &RegisterCustomerRequest,
    draws: RegistrationDraws,
) -> (r: Result<RegisterCustomerResponse, ErrorDetail>)
    requires
        old(state).wf(),
        draws.cards@.len() == requested_kits(*body).len(),
    ensures
        final(state).wf(),
        (final(state)@, outcome(r)) == register_customer_spec(old(state)@, *body, draws@),
{
    let entity_id = match required(&body.entity_id, "entityId") {
        Ok(id) => id,
        Err(e) => return Err(e),
    };
    let otp = match required(&body.otp, "otp") {
        Ok(o) => o,
        Err(e) => return Err(e),
    };
    let first_name = match required(&body.first_name, "firstName") {
        Ok(n) => n,
        Err(e) => return Err(e),
    };
    let last_name = match required(&body.last_name, "lastName") {
        Ok(n) => n,
        Err(e) => return Err(e),
    };
    if state.customers.contains_key(entity_id.as_str()) {
        return Err(error::customer_already_registered());
    }
    let now = draws.now;
    match state.otps.get(entity_id.as_str()) {
        Some(record) => {
            if record.expires_at < now {
                return Err(error::otp_expired());
            }
            if record.otp != otp {
                return Err(error::invalid_otp());
            }
        },
        None => return Err(error::invalid_otp()),
    }
    let ghost d = draws@;
    let kit_no = match &body.kit_info {
        Some(kits) => {
            if kits.len() > 0 {
                match &kits[0].kit_no {
                    Some(k) => k.clone(),
                    None => draws.kit_no,
                }
            } else {
                draws.kit_no
            }
        },
        None => draws.kit_no,
    };
    let contact = first_contact(body);
    let mobile = match contact {
        Some(c) => match &c.contact_no {
            Some(m) => m.clone(),
            None => String::new(),
        },
        None => String::new(),
    };
    let email = match contact {
        Some(c) => clone_opt(&c.email_id),
        None => None,
    };
    let customer = Customer {
        entity_id: entity_id.clone(),
        first_name,
        middle_name: clone_opt(&body.middle_name),
        last_name,
        gender: clone_opt(&body.gender),
        mobile,
        email,
        token: draws.token.clone(),
        kyc_status: text_or(&body.channel_name, "MIN_KYC"),
        created_at: now,
    };
    state.customers.insert(entity_id.clone(), customer);
    state.balances.insert(entity_id.clone(), 0);
    match &body.kit_info {
        Some(kits) => issue_cards(state, kits, &draws.cards, &entity_id, now),
        None => {
            assert(issue_kit_cards(old(state)@.cards, Seq::empty(), d.cards, entity_id@, now, 0)
                == old(state)@.cards);
        },
    }
    let ghost before = state.otps@;
    state.otps.remove(entity_id.as_str());
    assert(state.otps@.map_values(|o: OtpRecord| o@) =~= before.map_values(|o: OtpRecord| o@).remove(
        entity_id@,
    ));
    Ok(RegisterCustomerResponse { entity_id, kit_no, token: draws.token, valid: false })
}

/// Registers a customer who holds a valid, unexpired password: the customer
/// is stored with a fresh token and a zero balance, a card is issued for each
/// kit of the request, and the password is used up.
pub fn register_customer(state: &mut AppState, body: &RegisterCustomerRequest) -> (r: Result<
    RegisterCustomerResponse,
    ErrorDetail,
>)
    requires
        old(state).wf(),
    ensures
        final(state).wf(),
        exists|d: RegistrationDrawsView|
            registration_draws_valid(d, requested_kits(*body).len()) && (final(state)@, outcome(r))
                == #[trigger] register_customer_spec(old(state)@, *body, d),
{
    let n: usize = match &body.kit_info {
        Some(kits) => kits.len(),
        None => 0,
    };
    let mut cards: Vec<CardMint> = Vec::new();
    let mut i: usize = 0;
    while i < n
        invariant
            i <= n,
            cards@.len() == i,
            forall|j: int| 0 <= j < i ==> mint_valid(#[trigger] cards@[j]@),
        decreases n - i,
    {
        cards.push(mint_card());
        i = i + 1;
    }
    let draws = RegistrationDraws {
        kit_no: id_gen::generate_kit_no(),
        token: id_gen::generate_token(),
        now: now_unix_seconds(),
        cards,
    };
    let ghost d = draws@;
    assert(registration_draws_valid(d, requested_kits(*body).len()));
    let r = register_customer_with(state, body, draws);
    assert((final(state)@, outcome(r)) == register_customer_spec(old(state)@, *body, d));
    r
}

} // verus!
