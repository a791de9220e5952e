//! Cards, card preferences, and the card requests and responses.

use vstd::prelude::*;

use crate::text::clone_opt;

verus! {

/// The lifecycle status of a card.
#[derive(PartialEq, Eq, Structural, Clone, Copy, Debug)]
pub enum CardStatus {
    Active,
    Locked,
    Allocated,
    Blocked,
    Replaced,
    Unactivated,
}

/// The wire name of a card status.
pub open spec fn status_text(s: CardStatus) -> Seq<char> {
    match s {
        CardStatus::Active => "ACTIVE"@,
        CardStatus::Locked => "LOCKED"@,
        CardStatus::Allocated => "ALLOCATED"@,
        CardStatus::Blocked => "BLOCKED"@,
        CardStatus::Replaced => "REPLACED"@,
        CardStatus::Unactivated => "UNACTIVATED"@,
    }
}

impl CardStatus {
    /// The wire name of this status, as it is serialised.
    pub fn as_str(&self) -> (s: &'static str)
        ensures
            s@ == status_text(*self),
    {
        match self {
            CardStatus::Active => "ACTIVE",
            CardStatus::Locked => "LOCKED",
            CardStatus::Allocated => "ALLOCATED",
            CardStatus::Blocked => "BLOCKED",
            CardStatus::Replaced => "REPLACED",
            CardStatus::Unactivated => "UNACTIVATED",
        }
    }
}

/// A card issued to an entity, keyed by its kit number.
#[derive(Debug)]
pub struct Card {
    pub kit_no: String,
    pub entity_id: String,
    pub card_number: String,
    pub card_type: String,
    pub card_category: String,
    pub status: CardStatus,
    pub network_type: String,
    pub expiry_date: String,
    pub physical_card_requested: bool,
    pub created_at: i64,
}

/// The abstract value of a [`Card`].
pub struct CardView {
    pub kit_no: Seq<char>,
    pub entity_id: Seq<char>,
    pub card_number: Seq<char>,
    pub card_type: Seq<char>,
    pub card_category: Seq<char>,
    pub status: CardStatus,
    pub network_type: Seq<char>,
    pub expiry_date: Seq<char>,
    pub physical_card_requested: bool,
    pub created_at: i64,
}

impl View for Card {
    type V = CardView;

    open spec fn view(&self) -> CardView {
        CardView {
            kit_no: self.kit_no@,
            entity_id: self.entity_id@,
            card_number: self.card_number@,
            card_type: self.card_type@,
            card_category: self.card_category@,
            status: self.status,
            network_type: self.network_type@,
            expiry_date: self.expiry_date@,
            physical_card_requested: self.physical_card_requested,
            created_at: self.created_at,
        }
    }
}

impl Clone for Card {
    fn clone(&self) -> (r: Self)
        ensures
            r == *self,
    {
        Card {
            kit_no: self.kit_no.clone(),
            entity_id: self.entity_id.clone(),
            card_number: self.card_number.clone(),
            card_type: self.card_type.clone(),
            card_category: self.card_category.clone(),
            status: self.status,
            network_type: self.network_type.clone(),
            expiry_date: self.expiry_date.clone(),
            physical_card_requested: self.physical_card_requested,
            created_at: self.created_at,
        }
    }
}

/// Channel preferences and limits of an entity's cards.
#[derive(Debug)]
pub struct CardPreferences {
    pub entity_id: String,
    pub atm: Option<bool>,
    pub pos: Option<bool>,
    pub ecom: Option<bool>,
    pub dcc: Option<bool>,
    pub contactless: Option<bool>,
    pub international: Option<bool>,
    pub limit_config: Option<LimitConfig>,
    pub overall_limit_config: Option<OverallLimitConfig>,
}

/// The abstract value of a [`CardPreferences`].
pub struct CardPreferencesView {
    pub entity_id: Seq<char>,
    pub atm: Option<bool>,
    pub pos: Option<bool>,
    pub ecom: Option<bool>,
    pub dcc: Option<bool>,
    pub contactless: Option<bool>,
    pub international: Option<bool>,
    pub limit_config: Option<LimitConfigView>,
    pub overall_limit_config: Option<OverallLimitConfigView>,
}

impl View for CardPreferences {
    type V = CardPreferencesView;

    open spec fn view(&self) -> CardPreferencesView {
        CardPreferencesView {
            entity_id: self.entity_id@,
            atm: self.atm,
            pos: self.pos,
            ecom: self.ecom,
            dcc: self.dcc,
            contactless: self.contactless,
            international: self.international,
            limit_config: match self.limit_config {
                Some(l) => Some(l@),
                None => None,
            },
            overall_limit_config: match self.overall_limit_config {
                Some(l) => Some(l@),
                None => None,
            },
        }
    }
}

/// The preferences of an entity that has set none: every channel unset.
pub open spec fn empty_preferences(entity_id: Seq<char>) -> CardPreferencesView {
    CardPreferencesView {
        entity_id,
        atm: None,
        pos: None,
        ecom: None,
        dcc: None,
        contactless: None,
        international: None,
        limit_config: None,
        overall_limit_config: None,
    }
}

impl CardPreferences {
    /// The preferences of an entity that has set none: every channel unset.
    pub fn for_entity(entity_id: String) -> (p: CardPreferences)
        ensures
            p@ == empty_preferences(entity_id@),
    {
        CardPreferences {
            entity_id,
            atm: None,
            pos: None,
            ecom: None,
            dcc: None,
            contactless: None,
            international: None,
            limit_config: None,
            overall_limit_config: None,
        }
    }
}

impl Clone for CardPreferences {
    fn clone(&self) -> (r: Self)
        ensures
            r == *self,
    {
        CardPreferences {
            entity_id: self.entity_id.clone(),
            atm: self.atm,
            pos: self.pos,
            ecom: self.ecom,
            dcc: self.dcc,
            contactless: self.contactless,
            international: self.international,
            limit_config: match &self.limit_config {
                Some(l) => Some(l.clone()),
                None => None,
            },
            overall_limit_config: match &self.overall_limit_config {
                Some(l) => Some(l.clone()),
                None => None,
            },
        }
    }
}

/// A per-transaction-type limit.
#[derive(Debug)]
pub struct LimitConfig {
    pub txn_type: Option<String>,
    pub daily_limit_value: Option<String>,
    pub daily_limit_cnt: Option<String>,
    pub max_amount: Option<String>,
}

/// The abstract value of a [`LimitConfig`].
pub struct LimitConfigView {
    pub txn_type: Option<Seq<char>>,
    pub daily_limit_value: Option<Seq<char>>,
    pub daily_limit_cnt: Option<Seq<char>>,
    pub max_amount: Option<Seq<char>>,
}

impl View for LimitConfig {
    type V = LimitConfigView;

    open spec fn view(&self) -> LimitConfigView {
        LimitConfigView {
            txn_type: self.txn_type.deep_view(),
            daily_limit_value: self.daily_limit_value.deep_view(),
            daily_limit_cnt: self.daily_limit_cnt.deep_view(),
            max_amount: self.max_amount.deep_view(),
        }
    }
}

impl Clone for LimitConfig {
    fn clone(&self) -> (r: Self)
        ensures
            r == *self,
    {
        LimitConfig {
            txn_type: clone_opt(&self.txn_type),
            daily_limit_value: clone_opt(&self.daily_limit_value),
            daily_limit_cnt: clone_opt(&self.daily_limit_cnt),
            max_amount: clone_opt(&self.max_amount),
        }
    }
}

/// A limit over all transaction types.
#[derive(Debug)]
pub struct OverallLimitConfig {
    pub daily_limit_value: Option<String>,
    pub daily_limit_cnt: Option<String>,
}

/// The abstract value of an [`OverallLimitConfig`].
pub struct OverallLimitConfigView {
    pub daily_limit_value: Option<Seq<char>>,
    pub daily_limit_cnt: Option<Seq<char>>,
}

impl View for OverallLimitConfig {
    type V = OverallLimitConfigView;

    open spec fn view(&self) -> OverallLimitConfigView {
        OverallLimitConfigView {
            daily_limit_value: self.daily_limit_value.deep_view(),
            daily_limit_cnt: self.daily_limit_cnt.deep_view(),
        }
    }
}

impl Clone for OverallLimitConfig {
    fn clone(&self) -> (r: Self)
        ensures
            r == *self,
    {
        OverallLimitConfig {
            daily_limit_value: clone_opt(&self.daily_limit_value),
            daily_limit_cnt: clone_opt(&self.daily_limit_cnt),
        }
    }
}

// --- Request types ---

#[derive(Debug)]
pub struct AddCardRequest {
    pub entity_id: Option<String>,
    pub business_type: Option<String>,
    pub card_type: Option<String>,
    pub kit_no: Option<String>,
}

#[derive(Debug)]
pub struct GetCardListRequest {
    pub entity_id: Option<String>,
}

/// The cards of one entity, as parallel lists.
#[derive(Debug)]
pub struct GetCardListResponse {
    pub card_list: Vec<String>,
    pub kit_list: Vec<String>,
    pub expiry_date_list: Vec<String>,
    pub card_status_list: Vec<String>,
    pub card_type_list: Vec<String>,
    pub network_type_list: Vec<String>,
}

/// The abstract value of a [`GetCardListResponse`].
#[verifier::ext_equal]
pub struct GetCardListResponseView {
    pub card_list: Seq<Seq<char>>,
    pub kit_list: Seq<Seq<char>>,
    pub expiry_date_list: Seq<Seq<char>>,
    pub card_status_list: Seq<Seq<char>>,
    pub card_type_list: Seq<Seq<char>>,
    pub network_type_list: Seq<Seq<char>>,
}

impl View for GetCardListResponse {
    type V = GetCardListResponseView;

    open spec fn view(&self) -> GetCardListResponseView {
        GetCardListResponseView {
            card_list: self.card_list.deep_view(),
            kit_list: self.kit_list.deep_view(),
            expiry_date_list: self.expiry_date_list.deep_view(),
            card_status_list: self.card_status_list.deep_view(),
            card_type_list: self.card_type_list.deep_view(),
            network_type_list: self.network_type_list.deep_view(),
        }
    }
}

#[derive(Debug)]
pub struct BlockRequest {
    pub entity_id: Option<String>,
    pub kit_no: Option<String>,
    pub flag: Option<String>,
    pub reason: Option<String>,
}

#[derive(Debug)]
pub struct ReplaceCardRequest {
    pub entity_id: Option<String>,
    pub old_kit_no: Option<String>,
    pub new_kit_no: Option<String>,
    pub business_type: Option<String>,
    pub card_type: Option<String>,
}

#[derive(Debug)]
pub struct RequestPhysicalCardRequest {
    pub entity_id: Option<String>,
    pub kit_no: Option<String>,
    pub address_dto: Option<AddressDto>,
}

#[derive(Debug)]
pub struct AddressDto {
    pub address: Option<Vec<DeliveryAddress>>,
}

#[derive(Debug)]
pub struct DeliveryAddress {
    pub title: Option<String>,
    pub address1: Option<String>,
    pub address2: Option<String>,
    pub address3: Option<String>,
    pub fourth_line: Option<String>,
    pub city: Option<String>,
    pub state: Option<String>,
    pub country: Option<String>,
    pub pin_code: Option<String>,
    pub alias_name: Option<String>,
}

#[derive(Debug)]
pub struct SetPreferencesRequest {
    pub entity_id: Option<String>,
    pub status: Option<String>,
    pub atm: Option<bool>,
    pub pos: Option<bool>,
    pub ecom: Option<bool>,
    pub dcc: Option<bool>,
    pub contactless: Option<bool>,
    pub international: Option<bool>,
    pub limit_config: Option<LimitConfig>,
    pub overall_limit_config: Option<OverallLimitConfig>,
}

#[derive(Debug)]
pub struct FetchPreferenceRequest {
    pub entity_id: Option<String>,
}

/// The channel switches of an entity.
#[derive(Clone, Copy, Debug, PartialEq, Eq, Structural)]
pub struct FetchPreferenceResponse {
    pub atm: Option<bool>,
    pub pos: Option<bool>,
    pub ecom: Option<bool>,
    pub dcc: Option<bool>,
    pub contactless: Option<bool>,
    pub international: Option<bool>,
}

impl View for FetchPreferenceResponse {
    type V = FetchPreferenceResponse;

    open spec fn view(&self) -> FetchPreferenceResponse {
        *self
    }
}

#[derive(Debug)]
pub struct UpdatePreferenceExternalRequest {
    pub entity_id: Option<String>,
    pub status: Option<String>,
    pub pref_type: Option<String>,
}

#[derive(Debug)]
pub struct PciCardDetailsRequest {
    pub token: Option<String>,
    pub kit_no: Option<String>,
    pub entity_id: Option<String>,
    pub app_guid: Option<String>,
    pub business: Option<String>,
    pub callback_url: Option<String>,
    pub dob: Option<String>,
}

/// The acknowledgement of a request that changed state.
#[derive(Clone, Copy, Debug, PartialEq, Eq, Structural)]
pub struct SuccessResult {
    pub success: bool,
}

impl View for SuccessResult {
    type V = SuccessResult;

    open spec fn view(&self) -> SuccessResult {
        *self
    }
}

/// The balance of one entity, in paise.
#[derive(Debug)]
pub struct BalanceEntry {
    pub entity_id: String,
    pub product_id: String,
    pub balance_paise: i64,
    pub lien_balance_paise: i64,
}

/// The abstract value of a [`BalanceEntry`].
pub struct BalanceEntryView {
    pub entity_id: Seq<char>,
    pub product_id: Seq<char>,
    pub balance_paise: i64,
    pub lien_balance_paise: i64,
}

impl View for BalanceEntry {
    type V = BalanceEntryView;

    open spec fn view(&self) -> BalanceEntryView {
        BalanceEntryView {
            entity_id: self.entity_id@,
            product_id: self.product_id@,
            balance_paise: self.balance_paise,
            lien_balance_paise: self.lien_balance_paise,
        }
    }
}

} // verus!
