//! Properties of the service that span requests: what a later read gives
//! back of an earlier write, what money movements keep, and what every
//! request preserves.

use vstd::prelude::*;

use crate::handlers::CardMintView;
use crate::handlers::card::{
    entity_blocked_error, fetch_preference_spec, lock_unlock_block_spec, preferences_or_empty, replace_card_spec,
    set_preferences_spec, update_preference_external_spec,
};
use crate::handlers::kyc::{
    issue_kit_cards, kit_card, requested_kits, OTP_LIFETIME_SECONDS, RegistrationDrawsView, generate_otp_spec, register_customer_spec,
};
use crate::handlers::registration::register_corporate_spec;
use crate::handlers::transaction::{
    fetch_by_entity_spec, involves, latest_of, TxnDrawsView, create_transaction_spec, duplicate_error, fetch_by_ext_id_spec, flow_debits,
    requested_amount, transaction_fits,
};
use crate::models::card::{
    BlockRequest, CardStatus, FetchPreferenceRequest, ReplaceCardRequest, SetPreferencesRequest,
    UpdatePreferenceExternalRequest,
};
use crate::models::corporate::RegisterCorporateRequest;
use crate::models::customer::RegisterCustomerRequest;
use crate::models::customer::{GenerateOtpRequest, KitInfo};
use crate::models::error::{ErrorDetailView, invalid_flag_error, block_old_card_error, customer_already_registered_error, otp_expired_error};
use crate::models::transaction::{CreateTransactionRequest, TransactionView};
use crate::services::balance::{balance_of, credit_fits, credit_result, debit_result};
use crate::state::{AppModel, AppState, TableModel};
use crate::config::{parse_u16, digits_value, is_digit, unsigned_digits};
use crate::handlers::card::{add_card_spec, cards_of, entity_cards, fetch_balance_spec, get_card_list_spec};
use crate::middleware::auth::admission;
use crate::models::card::{AddCardRequest, CardView, FetchPreferenceResponse, GetCardListRequest, status_text};
use crate::models::error::no_data_error;
use crate::text::{decimal_text, digit_char, present};

verus! {

/// No balance is negative.
pub open spec fn balances_nonnegative(b: TableModel<i64>) -> bool {
    forall|k: Seq<char>| #[trigger] b.contains(k) ==> b.map[k] >= 0
}

/// After preferences are set for an entity, fetching them returns every
/// switch that the request set, and the earlier value of every other switch.
pub proof fn law_set_then_fetch_preferences(
    s: AppModel,
    body: SetPreferencesRequest,
    fetch: FetchPreferenceRequest,
)
    requires
        set_preferences_spec(s, body).1 is Ok,
        fetch.entity_id == body.entity_id,
    ensures
        ({
            let before = preferences_or_empty(s, body.entity_id->0@);
            let r = fetch_preference_spec(set_preferences_spec(s, body).0, fetch);
            &&& r is Ok
            &&& r->Ok_0.atm == (if body.atm is Some { body.atm } else { before.atm })
            &&& r->Ok_0.pos == (if body.pos is Some { body.pos } else { before.pos })
            &&& r->Ok_0.ecom == (if body.ecom is Some { body.ecom } else { before.ecom })
            &&& r->Ok_0.dcc == (if body.dcc is Some { body.dcc } else { before.dcc })
            &&& r->Ok_0.contactless == (if body.contactless is Some { body.contactless } else { before.contactless })
            &&& r->Ok_0.international == (if body.international is Some {
                body.international
            } else {
                before.international
            })
        }),
{
}

/// The switch that a preference type names, as fetched.
pub open spec fn fetched_switch(p: FetchPreferenceResponse, pref_type: Seq<char>) -> Option<bool> {
    if pref_type == "ECOM"@ {
        p.ecom
    } else if pref_type == "POS"@ {
        p.pos
    } else if pref_type == "ATM"@ {
        p.atm
    } else if pref_type == "CONTACTLESS"@ {
        p.contactless
    } else if pref_type == "INTERNATIONAL"@ {
        p.international
    } else {
        p.dcc
    }
}

/// After a channel of an entity is switched by type, fetching its
/// preferences reports that channel enabled exactly when the status was `ALLOWED`.
pub proof fn law_switch_then_fetch_preferences(
    s: AppModel,
    body: UpdatePreferenceExternalRequest,
    fetch: FetchPreferenceRequest,
)
    requires
        update_preference_external_spec(s, body).1 is Ok,
        fetch.entity_id == body.entity_id,
        ({
            let t = body.pref_type->0@;
            t == "ECOM"@ || t == "POS"@ || t == "ATM"@ || t == "CONTACTLESS"@ || t == "INTERNATIONAL"@
                || t == "DCC"@
        }),
    ensures
        fetch_preference_spec(update_preference_external_spec(s, body).0, fetch) matches Ok(p)
            && fetched_switch(p, body.pref_type->0@) == Some(body.status->0@ == "ALLOWED"@),
{
}

/// A customer who was issued a password and presents it, with the mandatory
/// names, before it expires is registered.
pub proof fn law_issued_otp_admits_registration(
    s: AppModel,
    otp_request: GenerateOtpRequest,
    otp: Seq<char>,
    issued_at: i64,
    body: RegisterCustomerRequest,
    d: RegistrationDrawsView,
)
    requires
        generate_otp_spec(s, otp_request, otp, issued_at).1 is Ok,
        issued_at <= i64::MAX - OTP_LIFETIME_SECONDS,
        body.entity_id == otp_request.entity_id,
        present(body.otp) && body.otp->0@ == otp,
        present(body.first_name),
        present(body.last_name),
        !s.customers.contains(body.entity_id->0@),
        d.now <= issued_at + OTP_LIFETIME_SECONDS,
    ensures
        register_customer_spec(generate_otp_spec(s, otp_request, otp, issued_at).0, body, d).1 is Ok,
{
}

/// A password presented after it has expired is refused as expired.
pub proof fn law_expired_otp_is_refused(
    s: AppModel,
    otp_request: GenerateOtpRequest,
    otp: Seq<char>,
    issued_at: i64,
    body: RegisterCustomerRequest,
    d: RegistrationDrawsView,
)
    requires
        generate_otp_spec(s, otp_request, otp, issued_at).1 is Ok,
        issued_at <= i64::MAX - OTP_LIFETIME_SECONDS,
        body.entity_id == otp_request.entity_id,
        present(body.otp),
        present(body.first_name),
        present(body.last_name),
        !s.customers.contains(body.entity_id->0@),
        d.now > issued_at + OTP_LIFETIME_SECONDS,
    ensures
        register_customer_spec(generate_otp_spec(s, otp_request, otp, issued_at).0, body, d).1
            == Err::<crate::models::customer::RegisterCustomerResponseView, _>(otp_expired_error()),
{
}

/// A newly registered customer has a zero balance.
pub proof fn law_registered_customer_has_zero_balance(
    s: AppModel,
    body: RegisterCustomerRequest,
    d: RegistrationDrawsView,
)
    requires
        register_customer_spec(s, body, d).1 is Ok,
    ensures
        fetch_balance_spec(register_customer_spec(s, body, d).0, body.entity_id->0@) matches Ok(b)
            && b.balance_paise == 0,
{
}

/// A stored transaction is fetched back under its external id, with the
/// drawn id and the requested amount.
pub proof fn law_created_transaction_is_fetched(
    s: AppModel,
    body: CreateTransactionRequest,
    d: TxnDrawsView,
)
    requires
        create_transaction_spec(s, body, d).1 is Ok,
    ensures
        fetch_by_ext_id_spec(create_transaction_spec(s, body, d).0, body.external_transaction_id->0@) matches Ok(f)
            && f.transaction.tx_ref == d.tx_id && f.transaction.amount_paise == requested_amount(body)
            && f.transaction.external_transaction_id == body.external_transaction_id->0@
            && f.transaction.beneficiary_id == Some(body.to_entity_id->0@),
{
}

/// After a transaction, the recipient's fetched balance is the balance that
/// the stored transaction records.
pub proof fn law_fetched_balance_matches_transaction(
    s: AppModel,
    body: CreateTransactionRequest,
    d: TxnDrawsView,
)
    requires
        create_transaction_spec(s, body, d).1 is Ok,
    ensures
        ({
            let after = create_transaction_spec(s, body, d).0;
            let stored = after.transactions.map[body.external_transaction_id->0@];
            fetch_balance_spec(after, body.to_entity_id->0@) matches Ok(b)
                && stored.balance_paise == Some(b.balance_paise)
        }),
{
}

/// A request whose external id is already stored is refused as a repeat and
/// changes nothing, once its mandatory fields and amount are in order.
pub proof fn law_repeated_transaction_is_refused(
    s: AppModel,
    body: CreateTransactionRequest,
    d: TxnDrawsView,
)
    requires
        present(body.to_entity_id),
        present(body.from_entity_id),
        body.amount matches Some(Some(p)) && p > 0,
        present(body.transaction_type),
        present(body.external_transaction_id),
        s.transactions.contains(body.external_transaction_id->0@),
    ensures
        create_transaction_spec(s, body, d) == (s, Err::<
            crate::handlers::transaction::TransactionOutcomeView,
            _,
        >(duplicate_error())),
{
}

/// A transfer between two different entities that debits the sender moves
/// the amount from one to the other: their combined balance is unchanged, the
/// recipient gains the amount, and no other balance changes.
pub proof fn law_transfer_conserves_balances(
    s: AppModel,
    body: CreateTransactionRequest,
    d: TxnDrawsView,
    other: Seq<char>,
)
    requires
        create_transaction_spec(s, body, d).1 is Ok,
        flow_debits(body.transaction_type->0@),
        body.from_entity_id->0@ != body.to_entity_id->0@,
        other != body.from_entity_id->0@,
        other != body.to_entity_id->0@,
        transaction_fits(s, body),
    ensures
        ({
            let after = create_transaction_spec(s, body, d).0.balances;
            let from = body.from_entity_id->0@;
            let to = body.to_entity_id->0@;
            &&& balance_of(after, from) + balance_of(after, to) == balance_of(s.balances, from)
                + balance_of(s.balances, to)
            &&& balance_of(after, to) == balance_of(s.balances, to) + requested_amount(body)
            &&& balance_of(after, other) == balance_of(s.balances, other)
        }),
{
}

/// A load (`M2C`) credits the recipient with the amount and changes no other balance.
pub proof fn law_load_credits_recipient(
    s: AppModel,
    body: CreateTransactionRequest,
    d: TxnDrawsView,
    other: Seq<char>,
)
    requires
        create_transaction_spec(s, body, d).1 is Ok,
        !flow_debits(body.transaction_type->0@),
        other != body.to_entity_id->0@,
        transaction_fits(s, body),
    ensures
        ({
            let after = create_transaction_spec(s, body, d).0.balances;
            let to = body.to_entity_id->0@;
            &&& balance_of(after, to) == balance_of(s.balances, to) + requested_amount(body)
            &&& balance_of(after, other) == balance_of(s.balances, other)
        }),
{
}

/// A transaction refused for want of funds changes no balance and stores no transaction.
pub proof fn law_refused_transfer_changes_no_balance(
    s: AppModel,
    body: CreateTransactionRequest,
    d: TxnDrawsView,
    k: Seq<char>,
)
    requires
        create_transaction_spec(s, body, d).1 is Err,
    ensures
        balance_of(create_transaction_spec(s, body, d).0.balances, k) == balance_of(s.balances, k),
        create_transaction_spec(s, body, d).0.transactions == s.transactions,
        create_transaction_spec(s, body, d).0.cards == s.cards,
{
}

/// Moving money never makes a balance negative.
pub proof fn law_transactions_keep_balances_nonnegative(
    s: AppModel,
    body: CreateTransactionRequest,
    d: TxnDrawsView,
)
    requires
        balances_nonnegative(s.balances),
        transaction_fits(s, body),
    ensures
        balances_nonnegative(create_transaction_spec(s, body, d).0.balances),
{
    let after = create_transaction_spec(s, body, d).0.balances;
    assert forall|k: Seq<char>| #[trigger] after.contains(k) implies after.map[k] >= 0 by {
        if s.balances.contains(k) {
            assert(s.balances.map[k] >= 0);
        }
    }
}

/// Registering a customer never makes a balance negative.
pub proof fn law_customer_registration_keeps_balances_nonnegative(
    s: AppModel,
    body: RegisterCustomerRequest,
    d: RegistrationDrawsView,
)
    requires
        balances_nonnegative(s.balances),
    ensures
        balances_nonnegative(register_customer_spec(s, body, d).0.balances),
{
    let after = register_customer_spec(s, body, d).0.balances;
    assert forall|k: Seq<char>| #[trigger] after.contains(k) implies after.map[k] >= 0 by {
        if s.balances.contains(k) {
            assert(s.balances.map[k] >= 0);
        }
    }
}

/// Registering a business never makes a balance negative.
pub proof fn law_corporate_registration_keeps_balances_nonnegative(
    s: AppModel,
    body: RegisterCorporateRequest,
    m: CardMintView,
)
    requires
        balances_nonnegative(s.balances),
    ensures
        balances_nonnegative(register_corporate_spec(s, body, m).0.balances),
{
    let after = register_corporate_spec(s, body, m).0.balances;
    assert forall|k: Seq<char>| #[trigger] after.contains(k) implies after.map[k] >= 0 by {
        if s.balances.contains(k) {
            assert(s.balances.map[k] >= 0);
        }
    }
}

/// A blocked card stays blocked whatever lock, unlock or block is requested.
pub proof fn law_blocked_card_stays_blocked(s: AppModel, body: BlockRequest, kit: Seq<char>)
    requires
        s.cards.contains(kit),
        s.cards.map[kit].status == CardStatus::Blocked,
    ensures
        lock_unlock_block_spec(s, body).0.cards.map[kit].status == CardStatus::Blocked,
{
}

/// A replaced card is marked replaced, and its successor is active and
/// belongs to the same entity.
pub proof fn law_replacement_retires_old_card(s: AppModel, body: ReplaceCardRequest, m: CardMintView)
    requires
        replace_card_spec(s, body, m).1 is Ok,
        body.new_kit_no matches Some(k) && k@ != body.old_kit_no->0@,
    ensures
        ({
            let cards = replace_card_spec(s, body, m).0.cards;
            &&& cards.map[body.old_kit_no->0@].status == CardStatus::Replaced
            &&& cards.map[body.new_kit_no->0@].status == CardStatus::Active
            &&& cards.map[body.new_kit_no->0@].entity_id == body.entity_id->0@
        }),
{
}

/// A password is used up by the registration it admits: the same entity
/// cannot register again.
pub proof fn law_customer_registers_once(
    s: AppModel,
    body: RegisterCustomerRequest,
    d1: RegistrationDrawsView,
    d2: RegistrationDrawsView,
)
    requires
        register_customer_spec(s, body, d1).1 is Ok,
    ensures
        !register_customer_spec(s, body, d1).0.otps.contains_key(body.entity_id->0@),
        register_customer_spec(register_customer_spec(s, body, d1).0, body, d2).1 == Err::<
            crate::models::customer::RegisterCustomerResponseView,
            _,
        >(customer_already_registered_error()),
{
}

/// Crediting an amount and then debiting the same amount from the same
/// entity gives back its earlier balance, and the debit is allowed.
pub proof fn law_credit_then_debit_restores(b: TableModel<i64>, entity_id: Seq<char>, amount: int)
    requires
        amount >= 0,
        balance_of(b, entity_id) >= 0,
        credit_fits(b, entity_id, amount),
    ensures
        debit_result(credit_result(b, entity_id, amount), entity_id, amount) == (
            b.insert(entity_id, balance_of(b, entity_id) as i64),
            Ok::<i64, crate::models::error::ErrorDetailView>(balance_of(b, entity_id) as i64),
        ),
{
    let bal = balance_of(b, entity_id);
    let c = credit_result(b, entity_id, amount);
    assert(balance_of(c, entity_id) == bal + amount);
    assert(c.contains(entity_id));
    assert(c.order == b.insert(entity_id, bal as i64).order);
    assert(credit_result(b, entity_id, amount).insert(entity_id, balance_of(b, entity_id) as i64).map
        =~= b.insert(entity_id, balance_of(b, entity_id) as i64).map);
}

/// A request that carries one of the tokens after `Bearer `, and one of the
/// tenants, is admitted.
pub proof fn law_bearer_token_admitted(
    tokens: Seq<Seq<char>>,
    tenants: Seq<Seq<char>>,
    i: int,
    j: int,
)
    requires
        0 <= i < tokens.len(),
        0 <= j < tenants.len(),
    ensures
        admission(tokens, tenants, Some("Bearer "@ + tokens[i]), Some(tenants[j])) is None,
{
    assert(tenants.contains(tenants[j]));
}

/// A registered business can be issued further cards.
pub proof fn law_registered_business_gets_cards(
    s: AppModel,
    reg: RegisterCorporateRequest,
    m1: CardMintView,
    add: AddCardRequest,
    m2: CardMintView,
)
    requires
        register_corporate_spec(s, reg, m1).1 is Ok,
        add.entity_id == reg.entity_id,
    ensures
        add_card_spec(register_corporate_spec(s, reg, m1).0, add, m2).1 is Ok,
{
}

/// Every card in an entity's list belongs to that entity.
pub proof fn lemma_cards_of_belong(cards: TableModel<CardView>, entity_id: Seq<char>, n: int)
    ensures
        forall|i: int|
            0 <= i < cards_of(cards, entity_id, n).len() ==> #[trigger] cards_of(
                cards,
                entity_id,
                n,
            )[i].entity_id == entity_id,
    decreases n,
{
    if n > 0 {
        lemma_cards_of_belong(cards, entity_id, n - 1);
    }
}

/// The card list of an entity lists only that entity's cards, in parallel
/// lists of one length.
pub proof fn law_card_list_is_the_entitys(s: AppModel, body: GetCardListRequest)
    requires
        get_card_list_spec(s, body) is Ok,
    ensures
        ({
            let v = get_card_list_spec(s, body)->Ok_0;
            let cards = entity_cards(s.cards, body.entity_id->0@);
            &&& v.card_list.len() == cards.len() && v.kit_list.len() == cards.len()
            &&& v.expiry_date_list.len() == cards.len() && v.card_status_list.len() == cards.len()
            &&& v.card_type_list.len() == cards.len() && v.network_type_list.len() == cards.len()
            &&& forall|i: int| 0 <= i < cards.len() ==> (#[trigger] cards[i]).entity_id == body.entity_id->0@
            &&& forall|i: int| 0 <= i < cards.len() ==> v.kit_list[i] == (#[trigger] cards[i]).kit_no
        }),
{
    lemma_cards_of_belong(s.cards, body.entity_id->0@, s.cards.order.len() as int);
}

/// A card of the entity that stands at a place in the order among the first
/// `n` is in the entity's list of the first `n` cards.
pub proof fn lemma_cards_of_include(cards: TableModel<CardView>, entity_id: Seq<char>, n: int, i: int)
    requires
        0 <= i < n <= cards.order.len(),
        cards.map[cards.order[i]].entity_id == entity_id,
    ensures
        cards_of(cards, entity_id, n).contains(cards.map[cards.order[i]]),
    decreases n,
{
    let c = cards.map[cards.order[i]];
    if i == n - 1 {
        let list = cards_of(cards, entity_id, n);
        assert(list[list.len() - 1] == c);
    } else {
        lemma_cards_of_include(cards, entity_id, n - 1, i);
        let earlier = cards_of(cards, entity_id, n - 1);
        let j = choose|j: int| 0 <= j < earlier.len() && earlier[j] == c;
        assert(cards_of(cards, entity_id, n)[j] == c);
    }
}

/// A card issued to an entity is in the entity's card list afterwards.
pub proof fn law_issued_card_is_listed(s: AppState, body: AddCardRequest, m: CardMintView)
    requires
        s.wf(),
        add_card_spec(s@, body, m).1 is Ok,
    ensures
        ({
            let after = add_card_spec(s@, body, m).0;
            let kit = match body.kit_no {
                Some(k) => k@,
                None => m.kit_no,
            };
            let listed = get_card_list_spec(after, GetCardListRequest { entity_id: body.entity_id });
            &&& listed is Ok
            &&& listed->Ok_0.kit_list.contains(kit)
        }),
{
    let after = add_card_spec(s@, body, m).0;
    let kit = match body.kit_no {
        Some(k) => k@,
        None => m.kit_no,
    };
    let id = body.entity_id->0@;
    let cards = after.cards;
    let i: int = if s@.cards.contains(kit) {
        s.cards.lemma_key_in_order(kit);
        choose|i: int| 0 <= i < s@.cards.order.len() && s@.cards.order[i] == kit
    } else {
        s@.cards.order.len() as int
    };
    assert(cards.order[i] == kit);
    lemma_cards_of_include(cards, id, cards.order.len() as int, i);
    let list = entity_cards(cards, id);
    let j = choose|j: int| 0 <= j < list.len() && list[j] == cards.map[kit];
    assert(list.map_values(|c: CardView| c.kit_no)[j] == kit);
}

/// The decimal rendering of a number is all digits and denotes that number.
pub proof fn lemma_decimal_digits(n: nat)
    ensures
        decimal_text(n).len() > 0,
        forall|i: int| 0 <= i < decimal_text(n).len() ==> is_digit(#[trigger] decimal_text(n)[i]),
        digits_value(decimal_text(n)) == n,
    decreases n,
{
    let d = (n % 10) as int;
    assert(digit_char(d) as int == d + 48);
    let t = decimal_text(n);
    if n >= 10 {
        lemma_decimal_digits(n / 10);
        assert(t.drop_last() =~= decimal_text(n / 10));
        assert(t.last() == digit_char(d));
        assert(digits_value(t) == digits_value(t.drop_last()) * 10 + ((t.last() as int - 48) as nat));
        assert(n == (n / 10) * 10 + n % 10) by (nonlinear_arith);
    } else {
        assert(t.drop_last() =~= Seq::<char>::empty());
        assert(d == n);
        assert(t.last() == digit_char(d));
        assert(digits_value(t) == digits_value(t.drop_last()) * 10 + ((t.last() as int - 48) as nat));
    }
}

/// A port number written in decimal is read back as itself.
pub proof fn law_port_text_round_trip(n: u16)
    ensures
        parse_u16(decimal_text(n as nat)) == Some(n),
{
    lemma_decimal_digits(n as nat);
    assert(is_digit(decimal_text(n as nat)[0]));
    assert(unsigned_digits(decimal_text(n as nat)) == decimal_text(n as nat));
}


/// A card is replaced only when it is a blocked card of the requesting
/// entity; a card of the entity that is not blocked is refused with
/// "Block old card" and nothing changes.
pub proof fn law_replacement_needs_blocked_card(s: AppModel, body: ReplaceCardRequest, m: CardMintView)
    ensures
        replace_card_spec(s, body, m).1 is Ok ==> {
            &&& present(body.entity_id) && present(body.old_kit_no)
            &&& s.cards.contains(body.old_kit_no->0@)
            &&& s.cards.map[body.old_kit_no->0@].entity_id == body.entity_id->0@
            &&& s.cards.map[body.old_kit_no->0@].status == CardStatus::Blocked
        },
        (present(body.entity_id) && present(body.old_kit_no) && s.cards.contains(body.old_kit_no->0@)
            && s.cards.map[body.old_kit_no->0@].entity_id == body.entity_id->0@
            && s.cards.map[body.old_kit_no->0@].status != CardStatus::Blocked) ==> replace_card_spec(
            s,
            body,
            m,
        ) == (s, Err::<Seq<char>, _>(block_old_card_error())),
{
}

/// A successful lock, unlock or block changes only the status of the named
/// card of the entity: `L` makes it locked and `UL` active (neither applies
/// to a blocked card), and `BL` makes it blocked whatever it was.
pub proof fn law_flags_set_card_status(s: AppModel, body: BlockRequest)
    requires
        lock_unlock_block_spec(s, body).1 is Ok,
    ensures
        ({
            let after = lock_unlock_block_spec(s, body).0;
            let kit = body.kit_no->0@;
            let flag = body.flag->0@;
            let before = s.cards.map[kit];
            &&& present(body.entity_id) && present(body.kit_no) && present(body.flag)
            &&& s.cards.contains(kit) && before.entity_id == body.entity_id->0@
            &&& flag == "L"@ || flag == "UL"@ || flag == "BL"@
            &&& flag == "BL"@ ==> after.cards.map[kit].status == CardStatus::Blocked
            &&& flag == "L"@ ==> after.cards.map[kit].status == CardStatus::Locked && before.status
                != CardStatus::Blocked
            &&& flag == "UL"@ ==> after.cards.map[kit].status == CardStatus::Active && before.status
                != CardStatus::Blocked
            &&& after.cards.map[kit] == CardView { status: after.cards.map[kit].status, ..before }
            &&& after.cards.map.dom() == s.cards.map.dom()
            &&& after.cards.order == s.cards.order
            &&& forall|k: Seq<char>| k != kit ==> #[trigger] after.cards.map[k] == s.cards.map[k]
            &&& after.balances == s.balances && after.transactions == s.transactions
        }),
{
    let after = lock_unlock_block_spec(s, body).0;
    lemma_flags_distinct();
    assert(after.cards.map.dom() =~= s.cards.map.dom());
}

/// The three card flags are different texts.
proof fn lemma_flags_distinct()
    ensures
        "BL"@ != "L"@,
        "BL"@ != "UL"@,
        "UL"@ != "L"@,
{
    reveal_strlit("BL");
    reveal_strlit("L");
    reveal_strlit("UL");
    assert("BL"@[0] != "UL"@[0]);
}

/// Blocking a card of the entity always succeeds.
pub proof fn law_block_always_succeeds(s: AppModel, body: BlockRequest)
    requires
        present(body.entity_id),
        present(body.kit_no),
        body.flag matches Some(f) && f@ == "BL"@,
        s.cards.contains(body.kit_no->0@),
        s.cards.map[body.kit_no->0@].entity_id == body.entity_id->0@,
    ensures
        lock_unlock_block_spec(s, body).1 is Ok,
        lock_unlock_block_spec(s, body).0.cards.map[body.kit_no->0@].status == CardStatus::Blocked,
{
    reveal_strlit("BL");
    reveal_strlit("L");
    reveal_strlit("UL");
    lemma_flags_distinct();
}


/// Every card in an entity's list of the first `n` cards is a card held in
/// the table under one of the first `n` keys.
pub proof fn lemma_cards_of_from_table(cards: TableModel<CardView>, entity_id: Seq<char>, n: int)
    requires
        n <= cards.order.len(),
    ensures
        forall|i: int|
            0 <= i < cards_of(cards, entity_id, n).len() ==> exists|j: int|
                0 <= j < n && cards.map[cards.order[j]] == #[trigger] cards_of(cards, entity_id, n)[i],
    decreases n,
{
    if n > 0 {
        lemma_cards_of_from_table(cards, entity_id, n - 1);
        let earlier = cards_of(cards, entity_id, n - 1);
        let now = cards_of(cards, entity_id, n);
        assert forall|i: int| 0 <= i < now.len() implies exists|j: int|
            0 <= j < n && cards.map[cards.order[j]] == #[trigger] now[i] by {
            if i < earlier.len() {
                assert(now[i] == earlier[i]);
                let j = choose|j: int| 0 <= j < n - 1 && cards.map[cards.order[j]] == earlier[i];
                assert(cards.map[cards.order[j]] == now[i]);
            } else {
                assert(cards.map[cards.order[n - 1]] == now[i]);
            }
        }
    }
}

/// The keys of the cards of an entity, in the table's order.
pub open spec fn entity_keys(cards: TableModel<CardView>, entity_id: Seq<char>) -> Seq<Seq<char>> {
    cards.order.filter(|k: Seq<char>| cards.map[k].entity_id == entity_id)
}

/// The entity's list of the first `n` cards holds the cards under the
/// entity's keys among the first `n` keys, in order.
pub proof fn lemma_cards_of_is_filter(cards: TableModel<CardView>, entity_id: Seq<char>, n: int)
    requires
        0 <= n <= cards.order.len(),
    ensures
        cards_of(cards, entity_id, n) == cards.order.take(n).filter(
            |k: Seq<char>| cards.map[k].entity_id == entity_id,
        ).map_values(|k: Seq<char>| cards.map[k]),
    decreases n,
{
    reveal(Seq::filter);
    let pred = |k: Seq<char>| cards.map[k].entity_id == entity_id;
    let t = cards.order.take(n);
    if n == 0 {
        assert(t.filter(pred) =~= Seq::<Seq<char>>::empty());
        assert(t.filter(pred).map_values(|k: Seq<char>| cards.map[k]) =~= Seq::<CardView>::empty());
    } else {
        lemma_cards_of_is_filter(cards, entity_id, n - 1);
        assert(t.drop_last() =~= cards.order.take(n - 1));
        assert(t.last() == cards.order[n - 1]);
        let f = t.filter(pred);
        let e = cards.order.take(n - 1).filter(pred);
        if pred(t.last()) {
            assert(f == e.push(t.last()));
            assert(f.map_values(|k: Seq<char>| cards.map[k]) =~= e.map_values(
                |k: Seq<char>| cards.map[k],
            ).push(cards.map[t.last()]));
        } else {
            assert(f == e);
        }
    }
}

/// The card list of an entity reports exactly its stored cards: every entry
/// of each column describes the same stored card of the entity (its number,
/// kit, expiry, status, type and network), every stored card of the entity
/// is listed, and the list is refused as empty only when the entity holds
/// no card.
pub proof fn law_card_list_reports_entity_cards(s: AppState, body: GetCardListRequest)
    requires
        s.wf(),
        present(body.entity_id),
    ensures
        ({
            let id = body.entity_id->0@;
            let cards = entity_cards(s@.cards, id);
            &&& cards == entity_keys(s@.cards, id).map_values(|k: Seq<char>| s@.cards.map[k])
            &&& match get_card_list_spec(s@, body) {
                Ok(v) => {
                    &&& v.card_list.len() == cards.len() && v.kit_list.len() == cards.len()
                    &&& v.expiry_date_list.len() == cards.len() && v.card_status_list.len()
                        == cards.len()
                    &&& v.card_type_list.len() == cards.len() && v.network_type_list.len()
                        == cards.len()
                    &&& forall|i: int|
                        0 <= i < cards.len() ==> {
                            &&& (#[trigger] cards[i]).entity_id == id
                            &&& exists|k: Seq<char>|
                                s@.cards.contains(k) && s@.cards.map[k] == cards[i]
                            &&& v.card_list[i] == cards[i].card_number
                            &&& v.kit_list[i] == cards[i].kit_no
                            &&& v.expiry_date_list[i] == cards[i].expiry_date
                            &&& v.card_status_list[i] == status_text(cards[i].status)
                            &&& v.card_type_list[i] == cards[i].card_type
                            &&& v.network_type_list[i] == cards[i].network_type
                        }
                    &&& forall|k: Seq<char>|
                        s@.cards.contains(k) && (#[trigger] s@.cards.map[k]).entity_id == id
                            ==> cards.contains(s@.cards.map[k])
                },
                Err(e) => {
                    &&& e == no_data_error()
                    &&& forall|k: Seq<char>|
                        s@.cards.contains(k) ==> (#[trigger] s@.cards.map[k]).entity_id != id
                },
            }
        }),
{
    let id = body.entity_id->0@;
    let table = s@.cards;
    let n = table.order.len() as int;
    let cards = entity_cards(table, id);
    lemma_cards_of_belong(table, id, n);
    lemma_cards_of_from_table(table, id, n);
    lemma_cards_of_is_filter(table, id, n);
    assert(table.order.take(n) =~= table.order);
    assert forall|i: int| 0 <= i < cards.len() implies exists|k: Seq<char>|
        table.contains(k) && table.map[k] == #[trigger] cards[i] by {
        let j = choose|j: int| 0 <= j < n && table.map[table.order[j]] == cards[i];
        s.lemma_order_keys_present(j);
        assert(table.contains(table.order[j]));
    }
    assert forall|k: Seq<char>|
        table.contains(k) && (#[trigger] table.map[k]).entity_id == id implies cards.contains(
        table.map[k],
    ) by {
        s.cards.lemma_key_in_order(k);
        let j = choose|j: int| 0 <= j < n && table.order[j] == k;
        lemma_cards_of_include(table, id, n, j);
    }
}


/// The kit number under which the card of the `i`-th kit of a registration
/// is issued: the kit's own number, or the drawn one where it names none.
pub open spec fn issued_kit_no(kits: Seq<KitInfo>, mints: Seq<CardMintView>, i: int) -> Seq<char> {
    match kits[i].kit_no {
        Some(k) => k@,
        None => mints[i].kit_no,
    }
}

/// The kit numbers under which the cards of a registration are issued, in
/// the order of the kits.
pub open spec fn issued_kit_nos(kits: Seq<KitInfo>, mints: Seq<CardMintView>) -> Seq<Seq<char>> {
    Seq::new(kits.len(), |j: int| issued_kit_no(kits, mints, j))
}

/// After issuing the cards of the first `n` kits, the card of kit `i` is
/// held under its kit number where no later kit among them takes that number.
pub proof fn lemma_issued_kit_card(
    cards: TableModel<CardView>,
    kits: Seq<KitInfo>,
    mints: Seq<CardMintView>,
    entity_id: Seq<char>,
    now: i64,
    n: int,
    i: int,
)
    requires
        0 <= i < n,
        forall|j: int| i < j < n ==> issued_kit_no(kits, mints, j) != issued_kit_no(kits, mints, i),
    ensures
        issue_kit_cards(cards, kits, mints, entity_id, now, n).contains(issued_kit_no(kits, mints, i)),
        issue_kit_cards(cards, kits, mints, entity_id, now, n).map[issued_kit_no(kits, mints, i)]
            == kit_card(kits[i], mints[i], entity_id, now),
    decreases n,
{
    if i < n - 1 {
        assert(issued_kit_no(kits, mints, n - 1) != issued_kit_no(kits, mints, i));
        lemma_issued_kit_card(cards, kits, mints, entity_id, now, n - 1, i);
    }
}

/// Issuing the cards of the first `n` kits leaves a key that no kit takes
/// as it was.
pub proof fn lemma_untouched_key(
    cards: TableModel<CardView>,
    kits: Seq<KitInfo>,
    mints: Seq<CardMintView>,
    entity_id: Seq<char>,
    now: i64,
    n: int,
    k: Seq<char>,
)
    requires
        forall|j: int| 0 <= j < n ==> issued_kit_no(kits, mints, j) != k,
    ensures
        issue_kit_cards(cards, kits, mints, entity_id, now, n).contains(k) == cards.contains(k),
        issue_kit_cards(cards, kits, mints, entity_id, now, n).map[k] == cards.map[k],
    decreases n,
{
    if n > 0 {
        assert(issued_kit_no(kits, mints, n - 1) != k);
        lemma_untouched_key(cards, kits, mints, entity_id, now, n - 1, k);
    }
}

/// After a customer registers, the card issued for each kit (the last kit
/// where several take one kit number) is the entity's, under that kit
/// number, with the kit's card type and category (`VIRTUAL` and `PREPAID`
/// where the kit names none), the status the kit asks for (`LOCKED` and
/// `UNACTIVATED` as named, otherwise active), a VISA network, the drawn
/// card number and expiry, and the registration time; cards under numbers
/// that no kit takes are untouched.
pub proof fn law_registration_issues_kit_cards(
    s: AppModel,
    body: RegisterCustomerRequest,
    d: RegistrationDrawsView,
)
    requires
        register_customer_spec(s, body, d).1 is Ok,
    ensures
        ({
            let after = register_customer_spec(s, body, d).0;
            let kits = requested_kits(body);
            let id = body.entity_id->0@;
            &&& forall|i: int|
                0 <= i < kits.len() && (forall|j: int|
                    i < j < kits.len() ==> issued_kit_no(kits, d.cards, j) != issued_kit_no(
                        kits,
                        d.cards,
                        i,
                    )) ==> {
                    let c = after.cards.map[#[trigger] issued_kit_no(kits, d.cards, i)];
                    &&& after.cards.contains(issued_kit_no(kits, d.cards, i))
                    &&& c.kit_no == issued_kit_no(kits, d.cards, i)
                    &&& c.entity_id == id
                    &&& c.card_type == match kits[i].card_type {
                        Some(t) => t@,
                        None => "VIRTUAL"@,
                    }
                    &&& c.card_category == match kits[i].card_category {
                        Some(t) => t@,
                        None => "PREPAID"@,
                    }
                    &&& c.status == if kits[i].card_reg_status matches Some(r) && r@ == "LOCKED"@ {
                        CardStatus::Locked
                    } else if kits[i].card_reg_status matches Some(r) && r@ == "UNACTIVATED"@ {
                        CardStatus::Unactivated
                    } else {
                        CardStatus::Active
                    }
                    &&& c.network_type == "VISA"@
                    &&& c.card_number == d.cards[i].card_number
                    &&& c.expiry_date == d.cards[i].expiry_date
                    &&& !c.physical_card_requested
                    &&& c.created_at == d.now
                }
        }),
        forall|k: Seq<char>|
            !(#[trigger] issued_kit_nos(requested_kits(body), d.cards).contains(k)) ==> {
                &&& register_customer_spec(s, body, d).0.cards.contains(k) == s.cards.contains(k)
                &&& register_customer_spec(s, body, d).0.cards.map[k] == s.cards.map[k]
            },
{
    let kits = requested_kits(body);
    let id = body.entity_id->0@;
    let after = register_customer_spec(s, body, d).0;
    assert(after.cards == issue_kit_cards(s.cards, kits, d.cards, id, d.now, kits.len() as int));
    reveal_strlit("ACTIVE");
    reveal_strlit("LOCKED");
    reveal_strlit("UNACTIVATED");
    assert("ACTIVE"@[0] != "LOCKED"@[0]);
    assert("ACTIVE"@[0] != "UNACTIVATED"@[0]);
    assert forall|i: int|
        0 <= i < kits.len() && (forall|j: int|
            i < j < kits.len() ==> issued_kit_no(kits, d.cards, j) != issued_kit_no(kits, d.cards, i)) implies {
        let c = after.cards.map[#[trigger] issued_kit_no(kits, d.cards, i)];
        &&& after.cards.contains(issued_kit_no(kits, d.cards, i))
        &&& c.kit_no == issued_kit_no(kits, d.cards, i)
        &&& c.entity_id == id
        &&& c.card_type == match kits[i].card_type {
            Some(t) => t@,
            None => "VIRTUAL"@,
        }
        &&& c.card_category == match kits[i].card_category {
            Some(t) => t@,
            None => "PREPAID"@,
        }
        &&& c.status == if kits[i].card_reg_status matches Some(r) && r@ == "LOCKED"@ {
            CardStatus::Locked
        } else if kits[i].card_reg_status matches Some(r) && r@ == "UNACTIVATED"@ {
            CardStatus::Unactivated
        } else {
            CardStatus::Active
        }
        &&& c.network_type == "VISA"@
        &&& c.card_number == d.cards[i].card_number
        &&& c.expiry_date == d.cards[i].expiry_date
        &&& !c.physical_card_requested
        &&& c.created_at == d.now
    } by {
        lemma_issued_kit_card(s.cards, kits, d.cards, id, d.now, kits.len() as int, i);
        let c = after.cards.map[issued_kit_no(kits, d.cards, i)];
        assert(c == kit_card(kits[i], d.cards[i], id, d.now));
    }
    assert forall|k: Seq<char>|
        !(#[trigger] issued_kit_nos(requested_kits(body), d.cards).contains(k)) implies {
        &&& register_customer_spec(s, body, d).0.cards.contains(k) == s.cards.contains(k)
        &&& register_customer_spec(s, body, d).0.cards.map[k] == s.cards.map[k]
    } by {
        assert forall|j: int| 0 <= j < kits.len() implies issued_kit_no(kits, d.cards, j) != k by {
            assert(issued_kit_nos(kits, d.cards)[j] == issued_kit_no(kits, d.cards, j));
        }
        lemma_untouched_key(s.cards, kits, d.cards, id, d.now, kits.len() as int, k);
    }
}


/// The selection among the first `n` transactions: it involves the entity,
/// is one of them, and is at least as late as each of them that involves
/// the entity; there is none only where none involves it.
pub proof fn lemma_latest_of(txns: TableModel<TransactionView>, entity_id: Seq<char>, n: int)
    requires
        n <= txns.order.len(),
    ensures
        (latest_of(txns, entity_id, n) matches Some(p) ==> involves(p, entity_id) && exists|j: int|
            0 <= j < n && txns.map[txns.order[j]] == p),
        forall|i: int|
            0 <= i < n && involves(#[trigger] txns.map[txns.order[i]], entity_id) ==> (latest_of(
                txns,
                entity_id,
                n,
            ) matches Some(p) && txns.map[txns.order[i]].time <= p.time),
    decreases n,
{
    if n > 0 {
        lemma_latest_of(txns, entity_id, n - 1);
        let t = txns.map[txns.order[n - 1]];
        let r = latest_of(txns, entity_id, n);
        if let Some(p) = r {
            if p == t {
                assert(txns.map[txns.order[n - 1]] == p);
            } else {
                let e = latest_of(txns, entity_id, n - 1);
                assert(e == r);
                let j = choose|j: int| 0 <= j < n - 1 && txns.map[txns.order[j]] == p;
                assert(txns.map[txns.order[j]] == p);
            }
        }
    }
}

/// Fetching by entity gives the latest successful transaction naming the
/// entity as beneficiary or other party: the transaction it gives is stored,
/// is such a transaction, and its time is at least that of every stored
/// such transaction; it gives nothing only where no stored transaction is
/// such a transaction.
pub proof fn law_entity_fetch_is_latest(s: AppState, entity_id: Seq<char>)
    requires
        s.wf(),
    ensures
        match fetch_by_entity_spec(s@, entity_id) {
            Some(r) => {
                &&& r.transaction.beneficiary_id == Some(entity_id) || r.transaction.other_party_id
                    == Some(entity_id)
                &&& r.transaction.transaction_status == "PAYMENT_SUCCESS"@
                &&& r.balance_paise is None
                &&& exists|k: Seq<char>|
                    s@.transactions.contains(k) && s@.transactions.map[k] == r.transaction
                &&& forall|k: Seq<char>|
                    s@.transactions.contains(k) && ((#[trigger] s@.transactions.map[k]).beneficiary_id
                        == Some(entity_id) || s@.transactions.map[k].other_party_id == Some(
                        entity_id,
                    )) && s@.transactions.map[k].transaction_status == "PAYMENT_SUCCESS"@
                        ==> s@.transactions.map[k].time <= r.transaction.time
            },
            None => forall|k: Seq<char>|
                s@.transactions.contains(k) ==> !(((#[trigger] s@.transactions.map[k]).beneficiary_id
                    == Some(entity_id) || s@.transactions.map[k].other_party_id == Some(entity_id))
                    && s@.transactions.map[k].transaction_status == "PAYMENT_SUCCESS"@),
        },
{
    let txns = s@.transactions;
    let n = txns.order.len() as int;
    lemma_latest_of(txns, entity_id, n);
    if let Some(p) = latest_of(txns, entity_id, n) {
        let j = choose|j: int| 0 <= j < n && txns.map[txns.order[j]] == p;
        s.lemma_order_txn_keys_present(j);
        assert(txns.contains(txns.order[j]));
    }
    assert forall|k: Seq<char>| txns.contains(k) && involves(#[trigger] txns.map[k], entity_id) implies
        (latest_of(txns, entity_id, n) matches Some(p) && txns.map[k].time <= p.time) by {
        s.transactions.lemma_key_in_order(k);
        let i = choose|i: int| 0 <= i < n && txns.order[i] == k;
        assert(involves(txns.map[txns.order[i]], entity_id));
    }
}


/// A successful replacement answers "success", keeps every other card,
/// marks the old card replaced (changing nothing else of it), and issues
/// under the requested kit number (or the drawn one) an active card of the
/// entity with the drawn number, expiry and time, the requested type (or
/// the old card's), and the old card's category and network.
pub proof fn law_replacement_issues_successor(s: AppModel, body: ReplaceCardRequest, m: CardMintView)
    requires
        replace_card_spec(s, body, m).1 is Ok,
    ensures
        ({
            let after = replace_card_spec(s, body, m).0.cards;
            let old_kit = body.old_kit_no->0@;
            let old_card = s.cards.map[old_kit];
            let new_kit = match body.new_kit_no {
                Some(k) => k@,
                None => m.kit_no,
            };
            let c = after.map[new_kit];
            &&& replace_card_spec(s, body, m).1 == Ok::<Seq<char>, ErrorDetailView>("success"@)
            &&& after.contains(new_kit) && after.contains(old_kit)
            &&& c.kit_no == new_kit && c.entity_id == body.entity_id->0@
            &&& c.status == CardStatus::Active
            &&& c.card_number == m.card_number && c.expiry_date == m.expiry_date
            &&& c.created_at == m.created_at && !c.physical_card_requested
            &&& c.card_type == match body.card_type {
                Some(t) => t@,
                None => old_card.card_type,
            }
            &&& c.card_category == old_card.card_category
            &&& c.network_type == old_card.network_type
            &&& new_kit != old_kit ==> after.map[old_kit] == CardView {
                status: CardStatus::Replaced,
                ..old_card
            }
            &&& forall|k: Seq<char>|
                k != new_kit && k != old_kit ==> (after.contains(k) == s.cards.contains(k)
                    && #[trigger] after.map[k] == s.cards.map[k])
            &&& replace_card_spec(s, body, m).0.balances == s.balances
        }),
{
}

/// Locking or unlocking a blocked card of the entity is refused with
/// "The Entity is blocked from transaction" and changes nothing; a flag
/// other than `L`, `UL` and `BL` is refused as invalid and changes nothing.
pub proof fn law_flag_refusals(s: AppModel, body: BlockRequest)
    requires
        present(body.entity_id),
        present(body.kit_no),
        present(body.flag),
        s.cards.contains(body.kit_no->0@),
        s.cards.map[body.kit_no->0@].entity_id == body.entity_id->0@,
    ensures
        (body.flag->0@ == "L"@ || body.flag->0@ == "UL"@) && s.cards.map[body.kit_no->0@].status
            == CardStatus::Blocked ==> lock_unlock_block_spec(s, body) == (s, Err::<
            crate::models::card::SuccessResult,
            _,
        >(entity_blocked_error())),
        !(body.flag->0@ == "L"@ || body.flag->0@ == "UL"@ || body.flag->0@ == "BL"@)
            ==> lock_unlock_block_spec(s, body) == (s, Err::<
            crate::models::card::SuccessResult,
            _,
        >(invalid_flag_error())),
{
}

/// A successful registration answers with the entity, the first kit's
/// number (or the drawn one where the first kit names none or there is no
/// kit), the drawn token and `valid: false`; it stores the customer with the
/// requested names, the token, the channel as KYC status (`MIN_KYC` where
/// none is named) and the registration time, starts its balance at zero,
/// uses up its password, and leaves other customers, balances and
/// passwords as they were.
pub proof fn law_registration_answer_and_records(
    s: AppModel,
    body: RegisterCustomerRequest,
    d: RegistrationDrawsView,
)
    requires
        register_customer_spec(s, body, d).1 is Ok,
    ensures
        ({
            let after = register_customer_spec(s, body, d).0;
            let r = register_customer_spec(s, body, d).1->Ok_0;
            let id = body.entity_id->0@;
            let kits = requested_kits(body);
            let c = after.customers.map[id];
            &&& !s.customers.contains(id) && s.otps.contains_key(id)
            &&& s.otps[id].otp == body.otp->0@ && d.now <= s.otps[id].expires_at
            &&& r.entity_id == id && r.token == d.token && !r.valid
            &&& r.kit_no == if kits.len() > 0 && kits[0].kit_no is Some {
                kits[0].kit_no->0@
            } else {
                d.kit_no
            }
            &&& after.customers.contains(id)
            &&& c.entity_id == id && c.first_name == body.first_name->0@
            &&& c.last_name == body.last_name->0@ && c.token == d.token && c.created_at == d.now
            &&& c.kyc_status == match body.channel_name {
                Some(n) => n@,
                None => "MIN_KYC"@,
            }
            &&& after.balances.contains(id) && after.balances.map[id] == 0
            &&& !after.otps.contains_key(id)
            &&& forall|k: Seq<char>|
                k != id ==> (after.customers.contains(k) == s.customers.contains(k)
                    && #[trigger] after.customers.map[k] == s.customers.map[k]
                    && after.balances.contains(k) == s.balances.contains(k)
                    && after.balances.map[k] == s.balances.map[k]
                    && after.otps.contains_key(k) == s.otps.contains_key(k)
                    && after.otps[k] == s.otps[k])
            &&& after.transactions == s.transactions && after.corporates == s.corporates
        }),
{
}

} // verus!
