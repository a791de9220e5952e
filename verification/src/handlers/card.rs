//! Card requests: issuing, listing, locking and blocking, replacing, physical
//! cards, channel preferences, and the card-detail links.

use vstd::prelude::*;

use crate::handlers::{CardMint, CardMintView, mint_card, mint_valid, required};
use crate::models::card::{
    AddCardRequest, BalanceEntry, BalanceEntryView, BlockRequest, Card, CardPreferences,
    CardPreferencesView, CardStatus, CardView, FetchPreferenceRequest, FetchPreferenceResponse,
    GetCardListRequest, GetCardListResponse, GetCardListResponseView, PciCardDetailsRequest,
    ReplaceCardRequest, RequestPhysicalCardRequest, SetPreferencesRequest, SuccessResult,
    UpdatePreferenceExternalRequest, empty_preferences, status_text,
};
use crate::models::error::{
    self, ErrorDetail, ErrorDetailView, entity_not_found_error, error_view,
    kit_entity_mismatch_error, kit_not_found_error, missing_field_error, no_data_error,
    invalid_flag_error, block_old_card_error, outcome,
};
use crate::state::{AppModel, AppState, TableModel};
use crate::text::{owned, present, text_eq};

verus! {

/// The error for a lock or unlock of a blocked card.
pub open spec fn entity_blocked_error() -> ErrorDetailView {
    error_view("Y224"@, "The Entity is blocked from transaction"@)
}

/// The card type recorded for a requested type: `P` is a physical card, `V`
/// or no type a virtual one, and any other text is kept as it is.
pub open spec fn card_type_for(requested: Option<String>) -> Seq<char> {
    match requested {
        Some(t) => if t@ == "P"@ {
            "PHYSICAL"@
        } else if t@ == "V"@ {
            "VIRTUAL"@
        } else {
            t@
        },
        None => "VIRTUAL"@,
    }
}

/// The state with `cards` in place of its cards.
pub open spec fn with_cards(s: AppModel, cards: TableModel<CardView>) -> AppModel {
    AppModel { cards, ..s }
}

/// The state with `preferences` in place of its preferences.
pub open spec fn with_preferences(s: AppModel, preferences: TableModel<CardPreferencesView>) -> AppModel {
    AppModel { preferences, ..s }
}

/// What `add_card` does, given the drawn parts of the new card.
pub open spec fn add_card_spec(s: AppModel, body: AddCardRequest, m: CardMintView) -> (
    AppModel,
    Result<SuccessResult, ErrorDetailView>,
) {
    if !present(body.entity_id) {
        (s, Err(missing_field_error("entityId"@)))
    } else {
        let id = body.entity_id->0@;
        if !s.has_entity(id) {
            (s, Err(entity_not_found_error(id)))
        } else {
            let kit = match body.kit_no {
                Some(k) => k@,
                None => m.kit_no,
            };
            let card = CardView {
                kit_no: kit,
                entity_id: id,
                card_number: m.card_number,
                card_type: card_type_for(body.card_type),
                card_category: "PREPAID"@,
                status: CardStatus::Active,
                network_type: "VISA"@,
                expiry_date: m.expiry_date,
                physical_card_requested: false,
                created_at: m.created_at,
            };
            (with_cards(s, s.cards.insert(kit, card)), Ok(SuccessResult { success: true }))
        }
    }
}

/// The recorded card type for a requested type.
fn card_type_text(requested: &Option<String>) -> (t: String)
    ensures
        t@ == card_type_for(*requested),
{
    match requested {
        Some(t) => {
            if text_eq(t, "P") {
                owned("PHYSICAL")
            } else if text_eq(t, "V") {
                owned("VIRTUAL")
            } else {
                t.clone()
            }
        },
        None => owned("VIRTUAL"),
    }
}

/// Issues a card to a known customer or corporate, with the given drawn parts.
pub fn add_card_with(state: &mut AppState, body: &AddCardRequest, mint: CardMint) -> (r: Result<
    SuccessResult,
    ErrorDetail,
>)
    requires
        old(state).wf(),
    ensures
        final(state).wf(),
        (final(state)@, outcome(r)) == add_card_spec(old(state)@, *body, mint@),
{
    let entity_id = match required(&body.entity_id, "entityId") {
        Ok(id) => id,
        Err(e) => return Err(e),
    };
    if !state.entity_exists(entity_id.as_str()) {
        return Err(error::entity_not_found(entity_id.as_str()));
    }
    let kit_no = match &body.kit_no {
        Some(k) => k.clone(),
        None => mint.kit_no,
    };
    let card = Card {
        kit_no: kit_no.clone(),
        entity_id,
        card_number: mint.card_number,
        card_type: card_type_text(&body.card_type),
        card_category: owned("PREPAID"),
        status: CardStatus::Active,
        network_type: owned("VISA"),
        expiry_date: mint.expiry_date,
        physical_card_requested: false,
        created_at: mint.created_at,
    };
    state.cards.insert(kit_no, card);
    Ok(SuccessResult { success: true })
}

/// Issues a card to a known customer or corporate: active, prepaid, on VISA,
/// under the requested kit number or a fresh one.
pub fn add_card(state: &mut AppState, body: &AddCardRequest) -> (r: Result<SuccessResult, ErrorDetail>)
    requires
        old(state).wf(),
    ensures
        final(state).wf(),
        exists|m: CardMintView|
            mint_valid(m) && (final(state)@, outcome(r)) == #[trigger] add_card_spec(
                old(state)@,
                *body,
                m,
            ),
{
    let mint = mint_card();
    let ghost m = mint@;
    let r = add_card_with(state, body, mint);
    assert((final(state)@, outcome(r)) == add_card_spec(old(state)@, *body, m));
    r
}

/// What `fetch_balance` answers.
pub open spec fn fetch_balance_spec(s: AppModel, entity_id: Seq<char>) -> Result<
    BalanceEntryView,
    ErrorDetailView,
> {
    if s.balances.contains(entity_id) {
        Ok(
            BalanceEntryView {
                entity_id,
                product_id: "GENERAL"@,
                balance_paise: s.balances.map[entity_id],
                lien_balance_paise: 0,
            },
        )
    } else {
        Err(entity_not_found_error(entity_id))
    }
}

/// The balance of an entity that has one.
pub fn fetch_balance(state: &AppState, entity_id: &str) -> (r: Result<BalanceEntry, ErrorDetail>)
    ensures
        outcome(r) == fetch_balance_spec(state@, entity_id@),
{
    match state.balances.get(entity_id) {
        Some(b) => Ok(
            BalanceEntry {
                entity_id: owned(entity_id),
                product_id: owned("GENERAL"),
                balance_paise: *b,
                lien_balance_paise: 0,
            },
        ),
        None => Err(error::entity_not_found(entity_id)),
    }
}

/// The state with the card under `kit` given status `status`.
pub open spec fn set_status(s: AppModel, kit: Seq<char>, status: CardStatus) -> AppModel {
    with_cards(s, s.cards.insert(kit, CardView { status, ..s.cards.map[kit] }))
}

/// What `lock_unlock_block` does: `L` locks and `UL` unlocks a card that is
/// not blocked, `BL` blocks it.
pub open spec fn lock_unlock_block_spec(s: AppModel, body: BlockRequest) -> (
    AppModel,
    Result<SuccessResult, ErrorDetailView>,
) {
    if !present(body.entity_id) {
        (s, Err(missing_field_error("entityId"@)))
    } else if !present(body.kit_no) {
        (s, Err(missing_field_error("kitNo"@)))
    } else if !present(body.flag) {
        (s, Err(missing_field_error("flag"@)))
    } else {
        let id = body.entity_id->0@;
        let kit = body.kit_no->0@;
        let flag = body.flag->0@;
        if !s.cards.contains(kit) {
            (s, Err(kit_not_found_error()))
        } else if s.cards.map[kit].entity_id != id {
            (s, Err(kit_entity_mismatch_error()))
        } else if flag == "L"@ {
            if s.cards.map[kit].status == CardStatus::Blocked {
                (s, Err(entity_blocked_error()))
            } else {
                (set_status(s, kit, CardStatus::Locked), Ok(SuccessResult { success: true }))
            }
        } else if flag == "UL"@ {
            if s.cards.map[kit].status == CardStatus::Blocked {
                (s, Err(entity_blocked_error()))
            } else {
                (set_status(s, kit, CardStatus::Active), Ok(SuccessResult { success: true }))
            }
        } else if flag == "BL"@ {
            (set_status(s, kit, CardStatus::Blocked), Ok(SuccessResult { success: true }))
        } else {
            (s, Err(invalid_flag_error()))
        }
    }
}

/// Gives the card under `kit` the status `status`.
fn update_status(state: &mut AppState, kit: String, card: &Card, status: CardStatus)
    requires
        old(state).wf(),
        old(state)@.cards.contains(kit@),
        card@ == old(state)@.cards.map[kit@],
    ensures
        final(state).wf(),
        final(state)@ == set_status(old(state)@, kit@, status),
{
    let mut updated = card.clone();
    updated.status = status;
    state.cards.insert(kit, updated);
}

/// Locks (`L`), unlocks (`UL`) or blocks (`BL`) a card of the requesting entity.
pub fn lock_unlock_block(state: &mut AppState, body: &BlockRequest) -> (r: Result<
    SuccessResult,
    ErrorDetail,
>)
    requires
        old(state).wf(),
    ensures
        final(state).wf(),
        (final(state)@, outcome(r)) == lock_unlock_block_spec(old(state)@, *body),
{
    let entity_id = match required(&body.entity_id, "entityId") {
        Ok(id) => id,
        Err(e) => return Err(e),
    };
    let kit_no = match required(&body.kit_no, "kitNo") {
        Ok(k) => k,
        Err(e) => return Err(e),
    };
    let flag = match required(&body.flag, "flag") {
        Ok(f) => f,
        Err(e) => return Err(e),
    };
    let card = match state.cards.get(kit_no.as_str()) {
        Some(c) => c.clone(),
        None => return Err(error::kit_not_found()),
    };
    if card.entity_id != entity_id {
        return Err(error::kit_entity_mismatch());
    }
    if text_eq(&flag, "L") {
        if card.status == CardStatus::Blocked {
            return Err(ErrorDetail::new("Y224", "The Entity is blocked from transaction"));
        }
        update_status(state, kit_no, &card, CardStatus::Locked);
    } else if text_eq(&flag, "UL") {
        if card.status == CardStatus::Blocked {
            return Err(ErrorDetail::new("Y224", "The Entity is blocked from transaction"));
        }
        update_status(state, kit_no, &card, CardStatus::Active);
    } else if text_eq(&flag, "BL") {
        update_status(state, kit_no, &card, CardStatus::Blocked);
    } else {
        return Err(error::invalid_flag());
    }
    Ok(SuccessResult { success: true })
}

/// The cards of `entity_id` among the first `n` cards of the table, in order.
pub open spec fn cards_of(cards: TableModel<CardView>, entity_id: Seq<char>, n: int) -> Seq<CardView>
    decreases n,
{
    if n <= 0 {
        Seq::empty()
    } else {
        let earlier = cards_of(cards, entity_id, n - 1);
        let c = cards.map[cards.order[n - 1]];
        if c.entity_id == entity_id {
            earlier.push(c)
        } else {
            earlier
        }
    }
}

/// The cards of `entity_id`, in the order in which they were first issued.
pub open spec fn entity_cards(cards: TableModel<CardView>, entity_id: Seq<char>) -> Seq<CardView> {
    cards_of(cards, entity_id, cards.order.len() as int)
}

/// The parallel lists describing `cards`.
pub open spec fn card_list_view(cards: Seq<CardView>) -> GetCardListResponseView {
    GetCardListResponseView {
        card_list: cards.map_values(|c: CardView| c.card_number),
        kit_list: cards.map_values(|c: CardView| c.kit_no),
        expiry_date_list: cards.map_values(|c: CardView| c.expiry_date),
        card_status_list: cards.map_values(|c: CardView| status_text(c.status)),
        card_type_list: cards.map_values(|c: CardView| c.card_type),
        network_type_list: cards.map_values(|c: CardView| c.network_type),
    }
}

/// What `get_card_list` answers: the cards of the entity, or an error when it has none.
pub open spec fn get_card_list_spec(s: AppModel, body: GetCardListRequest) -> Result<
    GetCardListResponseView,
    ErrorDetailView,
> {
    if !present(body.entity_id) {
        Err(missing_field_error("entityId"@))
    } else {
        let cards = entity_cards(s.cards, body.entity_id->0@);
        if cards.len() == 0 {
            Err(no_data_error())
        } else {
            Ok(card_list_view(cards))
        }
    }
}

/// The cards of an entity, as parallel lists of numbers, kits, expiries,
/// statuses, types and networks.
pub fn get_card_list(state: &AppState, body: &GetCardListRequest) -> (r: Result<
    GetCardListResponse,
    ErrorDetail,
>)
    requires
        state.wf(),
    ensures
        outcome(r) == get_card_list_spec(state@, *body),
{
    let entity_id = match required(&body.entity_id, "entityId") {
        Ok(id) => id,
        Err(e) => return Err(e),
    };
    let keys = state.cards.keys();
    let mut card_list: Vec<String> = Vec::new();
    let mut kit_list: Vec<String> = Vec::new();
    let mut expiry_date_list: Vec<String> = Vec::new();
    let mut card_status_list: Vec<String> = Vec::new();
    let mut card_type_list: Vec<String> = Vec::new();
    let mut network_type_list: Vec<String> = Vec::new();
    let mut count: usize = 0;
    let mut i: usize = 0;
    proof {
        let v = card_list_view(cards_of(state@.cards, entity_id@, 0));
        assert(card_list.deep_view() =~= v.card_list);
        assert(kit_list.deep_view() =~= v.kit_list);
        assert(expiry_date_list.deep_view() =~= v.expiry_date_list);
        assert(card_status_list.deep_view() =~= v.card_status_list);
        assert(card_type_list.deep_view() =~= v.card_type_list);
        assert(network_type_list.deep_view() =~= v.network_type_list);
    }
    while i < keys.len()
        invariant
            i <= keys@.len(),
            keys.deep_view() == state@.cards.order,
            state.wf(),
            card_list.deep_view() == card_list_view(cards_of(state@.cards, entity_id@, i as int)).card_list,
            kit_list.deep_view() == card_list_view(cards_of(state@.cards, entity_id@, i as int)).kit_list,
            expiry_date_list.deep_view() == card_list_view(
                cards_of(state@.cards, entity_id@, i as int),
            ).expiry_date_list,
            card_status_list.deep_view() == card_list_view(
                cards_of(state@.cards, entity_id@, i as int),
            ).card_status_list,
            card_type_list.deep_view() == card_list_view(cards_of(state@.cards, entity_id@, i as int)).card_type_list,
            network_type_list.deep_view() == card_list_view(
                cards_of(state@.cards, entity_id@, i as int),
            ).network_type_list,
            count as int == cards_of(state@.cards, entity_id@, i as int).len(),
            count <= i,
        decreases keys@.len() - i,
    {
        let ghost before = cards_of(state@.cards, entity_id@, i as int);
        let key = &keys[i];
        assert(key@ == state@.cards.order[i as int]);
        proof {
            state.lemma_order_keys_present(i as int);
        }
        match state.cards.get(key.as_str()) {
            Some(c) => {
                if c.entity_id == entity_id {
                    let ghost after = before.push(c@);
                    let ghost va = card_list_view(after);
                    let ghost vb = card_list_view(before);
                    card_list.push(c.card_number.clone());
                    assert(va.card_list =~= vb.card_list.push(c.card_number@));
                    assert(card_list.deep_view() =~= vb.card_list.push(c.card_number@));
                    kit_list.push(c.kit_no.clone());
                    assert(va.kit_list =~= vb.kit_list.push(c.kit_no@));
                    assert(kit_list.deep_view() =~= vb.kit_list.push(c.kit_no@));
                    expiry_date_list.push(c.expiry_date.clone());
                    assert(va.expiry_date_list =~= vb.expiry_date_list.push(c.expiry_date@));
                    assert(expiry_date_list.deep_view() =~= vb.expiry_date_list.push(c.expiry_date@));
                    card_status_list.push(owned(c.status.as_str()));
                    assert(va.card_status_list =~= vb.card_status_list.push(status_text(c.status)));
                    assert(card_status_list.deep_view() =~= vb.card_status_list.push(status_text(c.status)));
                    card_type_list.push(c.card_type.clone());
                    assert(va.card_type_list =~= vb.card_type_list.push(c.card_type@));
                    assert(card_type_list.deep_view() =~= vb.card_type_list.push(c.card_type@));
                    network_type_list.push(c.network_type.clone());
                    assert(va.network_type_list =~= vb.network_type_list.push(c.network_type@));
                    assert(network_type_list.deep_view() =~= vb.network_type_list.push(c.network_type@));
                    count = count + 1;
                }
            },
            None => {},
        }
        i = i + 1;
    }
    let resp = GetCardListResponse {
        card_list,
        kit_list,
        expiry_date_list,
        card_status_list,
        card_type_list,
        network_type_list,
    };
    assert(resp@ =~= card_list_view(cards_of(state@.cards, entity_id@, i as int)));
    if count == 0 {
        return Err(error::no_data());
    }
    Ok(resp)
}

/// What `replace_card` does, given the drawn parts of the new card: a blocked
/// card of the entity is marked replaced and a new active card takes its
/// category and network.
pub open spec fn replace_card_spec(s: AppModel, body: ReplaceCardRequest, m: CardMintView) -> (
    AppModel,
    Result<Seq<char>, ErrorDetailView>,
) {
    if !present(body.entity_id) {
        (s, Err(missing_field_error("entityId"@)))
    } else if !present(body.old_kit_no) {
        (s, Err(missing_field_error("oldKitNo"@)))
    } else {
        let id = body.entity_id->0@;
        let old_kit = body.old_kit_no->0@;
        if !s.cards.contains(old_kit) {
            (s, Err(kit_not_found_error()))
        } else {
            let old_card = s.cards.map[old_kit];
            if old_card.entity_id != id {
                (s, Err(kit_entity_mismatch_error()))
            } else if old_card.status != CardStatus::Blocked {
                (s, Err(block_old_card_error()))
            } else {
                let cards = s.cards.insert(old_kit, CardView { status: CardStatus::Replaced, ..old_card });
                let new_kit = match body.new_kit_no {
                    Some(k) => k@,
                    None => m.kit_no,
                };
                let new_card = CardView {
                    kit_no: new_kit,
                    entity_id: id,
                    card_number: m.card_number,
                    card_type: match body.card_type {
                        Some(t) => t@,
                        None => old_card.card_type,
                    },
                    card_category: old_card.card_category,
                    status: CardStatus::Active,
                    network_type: old_card.network_type,
                    expiry_date: m.expiry_date,
                    physical_card_requested: false,
                    created_at: m.created_at,
                };
                (with_cards(s, cards.insert(new_kit, new_card)), Ok("success"@))
            }
        }
    }
}

/// Replaces a blocked card of the entity, with the given drawn parts.
pub fn replace_card_with(state: &mut AppState, body: &ReplaceCardRequest, mint: CardMint) -> (r: Result<
    String,
    ErrorDetail,
>)
    requires
        old(state).wf(),
    ensures
        final(state).wf(),
        (final(state)@, outcome(r)) == replace_card_spec(old(state)@, *body, mint@),
{
    let entity_id = match required(&body.entity_id, "entityId") {
        Ok(id) => id,
        Err(e) => return Err(e),
    };
    let old_kit_no = match required(&body.old_kit_no, "oldKitNo") {
        Ok(k) => k,
        Err(e) => return Err(e),
    };
    let old_card = match state.cards.get(old_kit_no.as_str()) {
        Some(c) => c.clone(),
        None => return Err(error::kit_not_found()),
    };
    if old_card.entity_id != entity_id {
        return Err(error::kit_entity_mismatch());
    }
    if old_card.status != CardStatus::Blocked {
        return Err(error::block_old_card());
    }
    update_status(state, old_kit_no, &old_card, CardStatus::Replaced);
    let new_kit_no = match &body.new_kit_no {
        Some(k) => k.clone(),
        None => mint.kit_no,
    };
    let card_type = match &body.card_type {
        Some(t) => t.clone(),
        None => old_card.card_type.clone(),
    };
    let new_card = Card {
        kit_no: new_kit_no.clone(),
        entity_id,
        card_number: mint.card_number,
        card_type,
        card_category: old_card.card_category.clone(),
        status: CardStatus::Active,
        network_type: old_card.network_type.clone(),
        expiry_date: mint.expiry_date,
        physical_card_requested: false,
        created_at: mint.created_at,
    };
    state.cards.insert(new_kit_no, new_card);
    Ok(owned("success"))
}

/// Replaces a blocked card of the entity: the old card is marked replaced and
/// a new active card is issued under the requested kit number or a fresh one.
pub fn replace_card(state: &mut AppState, body: &ReplaceCardRequest) -> (r: Result<String, ErrorDetail>)
    requires
        old(state).wf(),
    ensures
        final(state).wf(),
        exists|m: CardMintView|
            mint_valid(m) && (final(state)@, outcome(r)) == #[trigger] replace_card_spec(
                old(state)@,
                *body,
                m,
            ),
{
    let mint = mint_card();
    let ghost m = mint@;
    let r = replace_card_with(state, body, mint);
    assert((final(state)@, outcome(r)) == replace_card_spec(old(state)@, *body, m));
    r
}

/// The error, if any, of a request naming a card of an entity: the fields
/// must be present, the card must exist and it must belong to the entity.
pub open spec fn card_of_entity_error(s: AppModel, entity_id: Option<String>, kit_no: Option<String>) -> Option<
    ErrorDetailView,
> {
    if !present(entity_id) {
        Some(missing_field_error("entityId"@))
    } else if !present(kit_no) {
        Some(missing_field_error("kitNo"@))
    } else if !s.cards.contains(kit_no->0@) {
        Some(kit_not_found_error())
    } else if s.cards.map[kit_no->0@].entity_id != entity_id->0@ {
        Some(kit_entity_mismatch_error())
    } else {
        None
    }
}

/// What `request_physical_card` does: marks the entity's card as having a
/// physical card requested.
pub open spec fn request_physical_card_spec(s: AppModel, body: RequestPhysicalCardRequest) -> (
    AppModel,
    Result<bool, ErrorDetailView>,
) {
    match card_of_entity_error(s, body.entity_id, body.kit_no) {
        Some(e) => (s, Err(e)),
        None => {
            let kit = body.kit_no->0@;
            (
                with_cards(
                    s,
                    s.cards.insert(kit, CardView { physical_card_requested: true, ..s.cards.map[kit] }),
                ),
                Ok(true),
            )
        },
    }
}

/// Records a request for a physical card for a card of the entity.
pub fn request_physical_card(state: &mut AppState, body: &RequestPhysicalCardRequest) -> (r: Result<
    bool,
    ErrorDetail,
>)
    requires
        old(state).wf(),
    ensures
        final(state).wf(),
        (final(state)@, outcome(r)) == request_physical_card_spec(old(state)@, *body),
{
    let entity_id = match required(&body.entity_id, "entityId") {
        Ok(id) => id,
        Err(e) => return Err(e),
    };
    let kit_no = match required(&body.kit_no, "kitNo") {
        Ok(k) => k,
        Err(e) => return Err(e),
    };
    let mut card = match state.cards.get(kit_no.as_str()) {
        Some(c) => c.clone(),
        None => return Err(error::kit_not_found()),
    };
    if card.entity_id != entity_id {
        return Err(error::kit_entity_mismatch());
    }
    card.physical_card_requested = true;
    state.cards.insert(kit_no, card);
    Ok(true)
}

/// The preferences of `entity_id`, or the empty preferences where it has none.
pub open spec fn preferences_or_empty(s: AppModel, entity_id: Seq<char>) -> CardPreferencesView {
    if s.preferences.contains(entity_id) {
        s.preferences.map[entity_id]
    } else {
        empty_preferences(entity_id)
    }
}

/// `current` with each switch and limit that the request sets replaced.
pub open spec fn merge_preferences(current: CardPreferencesView, body: SetPreferencesRequest) -> CardPreferencesView {
    CardPreferencesView {
        entity_id: current.entity_id,
        atm: if body.atm is Some { body.atm } else { current.atm },
        pos: if body.pos is Some { body.pos } else { current.pos },
        ecom: if body.ecom is Some { body.ecom } else { current.ecom },
        dcc: if body.dcc is Some { body.dcc } else { current.dcc },
        contactless: if body.contactless is Some { body.contactless } else { current.contactless },
        international: if body.international is Some { body.international } else { current.international },
        limit_config: match body.limit_config {
            Some(l) => Some(l@),
            None => current.limit_config,
        },
        overall_limit_config: match body.overall_limit_config {
            Some(l) => Some(l@),
            None => current.overall_limit_config,
        },
    }
}

/// What `set_preferences` does for a known entity: the switches and limits
/// that the request sets replace the stored ones; the others are kept.
pub open spec fn set_preferences_spec(s: AppModel, body: SetPreferencesRequest) -> (
    AppModel,
    Result<bool, ErrorDetailView>,
) {
    if !present(body.entity_id) {
        (s, Err(missing_field_error("entityId"@)))
    } else {
        let id = body.entity_id->0@;
        if !s.has_entity(id) {
            (s, Err(entity_not_found_error(id)))
        } else {
            (
                with_preferences(
                    s,
                    s.preferences.insert(id, merge_preferences(preferences_or_empty(s, id), body)),
                ),
                Ok(true),
            )
        }
    }
}

/// The stored preferences of an entity, or empty ones.
fn current_preferences(state: &AppState, entity_id: &String) -> (p: CardPreferences)
    ensures
        p@ == preferences_or_empty(state@, entity_id@),
{
    match state.preferences.get(entity_id.as_str()) {
        Some(p) => p.clone(),
        None => CardPreferences::for_entity(entity_id.clone()),
    }
}

/// Sets the channel switches and limits that the request names for a known entity.
pub fn set_preferences(state: &mut AppState, body: &SetPreferencesRequest) -> (r: Result<
    bool,
    ErrorDetail,
>)
    requires
        old(state).wf(),
    ensures
        final(state).wf(),
        (final(state)@, outcome(r)) == set_preferences_spec(old(state)@, *body),
{
    let entity_id = match required(&body.entity_id, "entityId") {
        Ok(id) => id,
        Err(e) => return Err(e),
    };
    if !state.entity_exists(entity_id.as_str()) {
        return Err(error::entity_not_found(entity_id.as_str()));
    }
    let mut prefs = current_preferences(state, &entity_id);
    if let Some(v) = body.atm {
        prefs.atm = Some(v);
    }
    if let Some(v) = body.pos {
        prefs.pos = Some(v);
    }
    if let Some(v) = body.ecom {
        prefs.ecom = Some(v);
    }
    if let Some(v) = body.dcc {
        prefs.dcc = Some(v);
    }
    if let Some(v) = body.contactless {
        prefs.contactless = Some(v);
    }
    if let Some(v) = body.international {
        prefs.international = Some(v);
    }
    if let Some(l) = &body.limit_config {
        prefs.limit_config = Some(l.clone());
    }
    if let Some(l) = &body.overall_limit_config {
        prefs.overall_limit_config = Some(l.clone());
    }
    state.preferences.insert(entity_id, prefs);
    Ok(true)
}

/// `current` with the switch that `pref_type` names set to `enabled`; an
/// unknown type changes nothing.
pub open spec fn switch_preference(current: CardPreferencesView, pref_type: Seq<char>, enabled: bool) -> CardPreferencesView {
    if pref_type == "ECOM"@ {
        CardPreferencesView { ecom: Some(enabled), ..current }
    } else if pref_type == "POS"@ {
        CardPreferencesView { pos: Some(enabled), ..current }
    } else if pref_type == "ATM"@ {
        CardPreferencesView { atm: Some(enabled), ..current }
    } else if pref_type == "CONTACTLESS"@ {
        CardPreferencesView { contactless: Some(enabled), ..current }
    } else if pref_type == "INTERNATIONAL"@ {
        CardPreferencesView { international: Some(enabled), ..current }
    } else if pref_type == "DCC"@ {
        CardPreferencesView { dcc: Some(enabled), ..current }
    } else {
        current
    }
}

/// What `update_preference_external` does for a known entity: the switch
/// that the type names is enabled when the status is `ALLOWED` and disabled
/// otherwise, and the entity's preferences are stored even where the type
/// names no switch.
pub open spec fn update_preference_external_spec(s: AppModel, body: UpdatePreferenceExternalRequest) -> (
    AppModel,
    Result<SuccessResult, ErrorDetailView>,
) {
    if !present(body.entity_id) {
        (s, Err(missing_field_error("entityId"@)))
    } else if !present(body.status) {
        (s, Err(missing_field_error("status"@)))
    } else if !present(body.pref_type) {
        (s, Err(missing_field_error("type"@)))
    } else {
        let id = body.entity_id->0@;
        if !s.has_entity(id) {
            (s, Err(entity_not_found_error(id)))
        } else {
            let enabled = body.status->0@ == "ALLOWED"@;
            (
                with_preferences(
                    s,
                    s.preferences.insert(
                        id,
                        switch_preference(preferences_or_empty(s, id), body.pref_type->0@, enabled),
                    ),
                ),
                Ok(SuccessResult { success: true }),
            )
        }
    }
}

/// Enables or disables one channel of a known entity.
pub fn update_preference_external(
    state: &mut AppState,
    body: &UpdatePreferenceExternalRequest,
) -> (r: Result<SuccessResult, ErrorDetail>)
    requires
        old(state).wf(),
    ensures
        final(state).wf(),
        (final(state)@, outcome(r)) == update_preference_external_spec(old(state)@, *body),
{
    let entity_id = match required(&body.entity_id, "entityId") {
        Ok(id) => id,
        Err(e) => return Err(e),
    };
    let status = match required(&body.status, "status") {
        Ok(s) => s,
        Err(e) => return Err(e),
    };
    let pref_type = match required(&body.pref_type, "type") {
        Ok(t) => t,
        Err(e) => return Err(e),
    };
    if !state.entity_exists(entity_id.as_str()) {
        return Err(error::entity_not_found(entity_id.as_str()));
    }
    let enabled = text_eq(&status, "ALLOWED");
    let mut prefs = current_preferences(state, &entity_id);
    if text_eq(&pref_type, "ECOM") {
        prefs.ecom = Some(enabled);
    } else if text_eq(&pref_type, "POS") {
        prefs.pos = Some(enabled);
    } else if text_eq(&pref_type, "ATM") {
        prefs.atm = Some(enabled);
    } else if text_eq(&pref_type, "CONTACTLESS") {
        prefs.contactless = Some(enabled);
    } else if text_eq(&pref_type, "INTERNATIONAL") {
        prefs.international = Some(enabled);
    } else if text_eq(&pref_type, "DCC") {
        prefs.dcc = Some(enabled);
    }
    state.preferences.insert(entity_id, prefs);
    Ok(SuccessResult { success: true })
}

/// What `pci_card_details` and `set_pin` answer: a link under `prefix`
/// followed by the kit number, for a card of the entity.
pub open spec fn card_link_spec(s: AppModel, body: PciCardDetailsRequest, prefix: Seq<char>) -> Result<
    Seq<char>,
    ErrorDetailView,
> {
    match card_of_entity_error(s, body.entity_id, body.kit_no) {
        Some(e) => Err(e),
        None => Ok(prefix + body.kit_no->0@),
    }
}

/// The link under `prefix` for a card of the entity.
fn card_link(state: &AppState, body: &PciCardDetailsRequest, prefix: &str) -> (r: Result<
    String,
    ErrorDetail,
>)
    ensures
        outcome(r) == card_link_spec(state@, *body, prefix@),
{
    let entity_id = match required(&body.entity_id, "entityId") {
        Ok(id) => id,
        Err(e) => return Err(e),
    };
    let kit_no = match required(&body.kit_no, "kitNo") {
        Ok(k) => k,
        Err(e) => return Err(e),
    };
    match state.cards.get(kit_no.as_str()) {
        Some(c) => {
            if c.entity_id != entity_id {
                return Err(error::kit_entity_mismatch());
            }
        },
        None => return Err(error::kit_not_found()),
    }
    let mut url = owned(prefix);
    url.append(kit_no.as_str());
    Ok(url)
}

/// The link at which the details of a card of the entity are shown.
pub fn pci_card_details(state: &AppState, body: &PciCardDetailsRequest) -> (r: Result<
    String,
    ErrorDetail,
>)
    ensures
        outcome(r) == card_link_spec(state@, *body, "https://mock-pci.example.com/card/"@),
{
    card_link(state, body, "https://mock-pci.example.com/card/")
}

/// The link at which the PIN of a card of the entity is set.
pub fn set_pin(state: &AppState, body: &PciCardDetailsRequest) -> (r: Result<String, ErrorDetail>)
    ensures
        outcome(r) == card_link_spec(state@, *body, "https://mock-pci.example.com/setpin/"@),
{
    card_link(state, body, "https://mock-pci.example.com/setpin/")
}

/// The switches reported for an entity that has set no preferences.
pub open spec fn default_switches() -> FetchPreferenceResponse {
    FetchPreferenceResponse {
        atm: Some(true),
        pos: Some(true),
        ecom: Some(true),
        dcc: Some(false),
        contactless: Some(true),
        international: Some(false),
    }
}

/// What `fetch_preference` answers: the stored switches of the entity, or
/// the defaults where it has stored none.
pub open spec fn fetch_preference_spec(s: AppModel, body: FetchPreferenceRequest) -> Result<
    FetchPreferenceResponse,
    ErrorDetailView,
> {
    if !present(body.entity_id) {
        Err(missing_field_error("entityId"@))
    } else {
        let id = body.entity_id->0@;
        if s.preferences.contains(id) {
            let p = s.preferences.map[id];
            Ok(
                FetchPreferenceResponse {
                    atm: p.atm,
                    pos: p.pos,
                    ecom: p.ecom,
                    dcc: p.dcc,
                    contactless: p.contactless,
                    international: p.international,
                },
            )
        } else {
            Ok(default_switches())
        }
    }
}

/// The channel switches of an entity.
pub fn fetch_preference(state: &AppState, body: &FetchPreferenceRequest) -> (r: Result<
    FetchPreferenceResponse,
    ErrorDetail,
>)
    ensures
        outcome(r) == fetch_preference_spec(state@, *body),
{
    let entity_id = match required(&body.entity_id, "entityId") {
        Ok(id) => id,
        Err(e) => return Err(e),
    };
    match state.preferences.get(entity_id.as_str()) {
        Some(p) => Ok(
            FetchPreferenceResponse {
                atm: p.atm,
                pos: p.pos,
                ecom: p.ecom,
                dcc: p.dcc,
                contactless: p.contactless,
                international: p.international,
            },
        ),
        None => Ok(
            FetchPreferenceResponse {
                atm: Some(true),
                pos: Some(true),
                ecom: Some(true),
                dcc: Some(false),
                contactless: Some(true),
                international: Some(false),
            },
        ),
    }
}

} // verus!
