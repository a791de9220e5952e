//! Registration of business entities.

use vstd::prelude::*;

use crate::handlers::{CardMint, CardMintView, mint_card, mint_valid, required};
use crate::models::card::{Card, CardStatus, CardView};
use crate::models::corporate::{
    Corporate, CorporateView, RegisterCorporateRequest, RegisterCorporateResponse,
    RegisterCorporateResponseView,
};
use crate::models::error::{ErrorDetail, ErrorDetailView, error_view, missing_field_error, outcome};
use crate::state::{AppModel, AppState};
use crate::text::{clone_opt, owned, present};

verus! {

/// The error for a business entity that is already registered.
pub open spec fn business_exists_error() -> ErrorDetailView {
    error_view("Y502"@, "Business already Exists"@)
}

/// What `register_corporate` does, given the drawn parts of its card: a new
/// business entity is stored with a zero balance and a virtual prepaid card
/// under the requested kit number.
pub open spec fn register_corporate_spec(s: AppModel, body: RegisterCorporateRequest, m: CardMintView) -> (
    AppModel,
    Result<RegisterCorporateResponseView, ErrorDetailView>,
) {
    if !present(body.entity_id) {
        (s, Err(missing_field_error("entityId"@)))
    } else if !present(body.entity_type) {
        (s, Err(missing_field_error("entityType"@)))
    } else if !present(body.business_type) {
        (s, Err(missing_field_error("businessType"@)))
    } else if !present(body.first_name) {
        (s, Err(missing_field_error("firstName"@)))
    } else if !present(body.kit_no) {
        (s, Err(missing_field_error("kitNo"@)))
    } else {
        let id = body.entity_id->0@;
        let kit = body.kit_no->0@;
        if s.corporates.contains(id) {
            (s, Err(business_exists_error()))
        } else {
            let corporate = CorporateView {
                entity_id: id,
                entity_type: body.entity_type->0@,
                business_type: body.business_type->0@,
                first_name: body.first_name->0@,
                last_name: body.last_name.deep_view(),
                kit_no: kit,
                created_at: m.created_at,
            };
            let card = CardView {
                kit_no: kit,
                entity_id: id,
                card_number: m.card_number,
                card_type: "VIRTUAL"@,
                card_category: "PREPAID"@,
                status: CardStatus::Active,
                network_type: "VISA"@,
                expiry_date: m.expiry_date,
                physical_card_requested: false,
                created_at: m.created_at,
            };
            (
                AppModel {
                    corporates: s.corporates.insert(id, corporate),
                    balances: s.balances.insert(id, 0),
                    cards: s.cards.insert(kit, card),
                    ..s
                },
                Ok(RegisterCorporateResponseView { entity_id: id }),
            )
        }
    }
}

/// Registers a business entity with the given drawn parts of its card; the
/// drawn kit number is not used, the request names the kit.
pub fn register_corporate_with(state: &mut AppState, body: &RegisterCorporateRequest, mint: CardMint) -> (r: Result<
    RegisterCorporateResponse,
    ErrorDetail,
>)
    requires
        old(state).wf(),
    ensures
        final(state).wf(),
        (final(state)@, outcome(r)) == register_corporate_spec(old(state)@, *body, mint@),
{
    let entity_id = match required(&body.entity_id, "entityId") {
        Ok(id) => id,
        Err(e) => return Err(e),
    };
    let entity_type = match required(&body.entity_type, "entityType") {
        Ok(t) => t,
        Err(e) => return Err(e),
    };
    let business_type = match required(&body.business_type, "businessType") {
        Ok(t) => t,
        Err(e) => return Err(e),
    };
    let first_name = match required(&body.first_name, "firstName") {
        Ok(n) => n,
        Err(e) => return Err(e),
    };
    let kit_no = match required(&body.kit_no, "kitNo") {
        Ok(k) => k,
        Err(e) => return Err(e),
    };
    if state.corporates.contains_key(entity_id.as_str()) {
        return Err(ErrorDetail::new("Y502", "Business already Exists"));
    }
    let now = mint.created_at;
    let corporate = Corporate {
        entity_id: entity_id.clone(),
        entity_type,
        business_type,
        first_name,
        last_name: clone_opt(&body.last_name),
        kit_no: kit_no.clone(),
        created_at: now,
    };
    state.corporates.insert(entity_id.clone(), corporate);
    state.balances.insert(entity_id.clone(), 0);
    let card = Card {
        kit_no: kit_no.clone(),
        entity_id: entity_id.clone(),
        card_number: mint.card_number,
        card_type: owned("VIRTUAL"),
        card_category: owned("PREPAID"),
        status: CardStatus::Active,
        network_type: owned("VISA"),
        expiry_date: mint.expiry_date,
        physical_card_requested: false,
        created_at: now,
    };
    state.cards.insert(kit_no, card);
    Ok(RegisterCorporateResponse { entity_id })
}

/// Registers a business entity that is not yet registered, with a zero
/// balance and an active virtual prepaid card under the requested kit number.
pub fn register_corporate(state: &mut AppState, body: &RegisterCorporateRequest) -> (r: Result<
    RegisterCorporateResponse,
    ErrorDetail,
>)
    requires
        old(state).wf(),
    ensures
        final(state).wf(),
        exists|m: CardMintView|
            mint_valid(m) && (final(state)@, outcome(r)) == #[trigger] register_corporate_spec(
                old(state)@,
                *body,
                m,
            ),
{
    let mint = mint_card();
    let ghost m = mint@;
    let r = register_corporate_with(state, body, mint);
    assert((final(state)@, outcome(r)) == register_corporate_spec(old(state)@, *body, m));
    r
}

} // verus!
