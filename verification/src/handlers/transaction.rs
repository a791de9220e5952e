//! Transaction requests: moving money between entities, and fetching
//! transactions by external id or by entity.

use vstd::prelude::*;

use crate::handlers::required;
use crate::models::error::{
    self, ErrorDetail, ErrorDetailView, error_view, invalid_txn_id_error, missing_field_error,
    outcome,
};
use crate::models::transaction::{
    CreateTransactionRequest, CreateTransactionResponse, FetchTransactionResponse,
    FetchTransactionResponseView, Transaction, TransactionView, WebhookNotification,
    WebhookNotificationView,
};
use crate::services::balance::{self, balance_of, credit_fits, debit_result};
use crate::services::id_gen::{
    self, MAX_UNIX_SECONDS, compact_datetime_text, generate_bank_tid, generate_txn_id,
    is_bank_tid_text, is_txn_id, now_unix_millis, now_unix_seconds, utc_compact_datetime,
};
use crate::state::{AppModel, AppState, TableModel};
use crate::text::{clone_opt, owned, present, signed_decimal_string, signed_decimal_text, text_eq};

verus! {

/// The error for an amount that is unreadable, zero or negative.
pub open spec fn amount_error() -> ErrorDetailView {
    error_view("Y512"@, "Amount Must be greater than zero"@)
}

/// The error for an external transaction id that is already stored.
pub open spec fn duplicate_error() -> ErrorDetailView {
    error_view("Y2004"@, "Transaction repeated within allowable time"@)
}

/// The error for a transaction type that names no flow.
pub open spec fn invalid_flow_error() -> ErrorDetailView {
    error_view("Y401"@, "Invalid flow"@)
}

/// The flow that a transaction type names: whether it debits the sender, and
/// how the transaction is labelled. `M2C` only credits the recipient; `C2C`
/// and `B2C` move money and are labelled `CREDIT`; `C2B` moves money and is
/// labelled `DEBIT`.
pub open spec fn flow_of(transaction_type: Seq<char>) -> Option<(bool, Seq<char>)> {
    if transaction_type == "M2C"@ {
        Some((false, "CREDIT"@))
    } else if transaction_type == "C2C"@ || transaction_type == "B2C"@ {
        Some((true, "CREDIT"@))
    } else if transaction_type == "C2B"@ {
        Some((true, "DEBIT"@))
    } else {
        None
    }
}

/// Whether the flow that a transaction type names debits the sender.
pub open spec fn flow_debits(transaction_type: Seq<char>) -> bool {
    let (debits, label) = flow_of(transaction_type)->0;
    debits
}

/// The label of the flow that a transaction type names.
pub open spec fn flow_label(transaction_type: Seq<char>) -> Seq<char> {
    let (debits, label) = flow_of(transaction_type)->0;
    label
}

/// The error, if any, with which a transaction request is refused before any
/// balance is touched.
pub open spec fn request_error(s: AppModel, body: CreateTransactionRequest) -> Option<ErrorDetailView> {
    if !present(body.to_entity_id) {
        Some(missing_field_error("toEntityId"@))
    } else if !present(body.from_entity_id) {
        Some(missing_field_error("fromEntityId"@))
    } else if body.amount is None {
        Some(missing_field_error("amount"@))
    } else if !(body.amount->0 matches Some(p) && p > 0) {
        Some(amount_error())
    } else if !present(body.transaction_type) {
        Some(missing_field_error("transactionType"@))
    } else if !present(body.external_transaction_id) {
        Some(missing_field_error("externalTransactionId"@))
    } else if s.transactions.contains(body.external_transaction_id->0@) {
        Some(duplicate_error())
    } else if flow_of(body.transaction_type->0@) is None {
        Some(invalid_flow_error())
    } else {
        None
    }
}

/// The amount, in paise, of a request that passes the checks.
pub open spec fn requested_amount(body: CreateTransactionRequest) -> int {
    body.amount->0->0 as int
}

/// The balances after the sender of a valid request has been debited (where
/// the flow debits it), and whether the debit was allowed.
pub open spec fn after_debit(s: AppModel, body: CreateTransactionRequest) -> (TableModel<i64>, bool) {
    if flow_debits(body.transaction_type->0@) {
        let r = debit_result(s.balances, body.from_entity_id->0@, requested_amount(body));
        (r.0, r.1 is Ok)
    } else {
        (s.balances, true)
    }
}

/// Whether crediting the recipient of a request stays within `i64`; the
/// service fails on the requests where it does not.
pub open spec fn transaction_fits(s: AppModel, body: CreateTransactionRequest) -> bool {
    request_error(s, body) is None && after_debit(s, body).1 ==> credit_fits(
        after_debit(s, body).0,
        body.to_entity_id->0@,
        requested_amount(body),
    )
}

/// The freshly drawn parts of a transaction: its id, a bank terminal id, the
/// time in milliseconds, and the time in seconds for the notification.
#[derive(Debug)]
pub struct TxnDraws {
    pub tx_id: i64,
    pub bank_tid: String,
    pub time: i64,
    pub now_seconds: i64,
}

/// The abstract value of a [`TxnDraws`].
pub struct TxnDrawsView {
    pub tx_id: i64,
    pub bank_tid: Seq<char>,
    pub time: i64,
    pub now_seconds: i64,
}

impl View for TxnDraws {
    type V = TxnDrawsView;

    open spec fn view(&self) -> TxnDrawsView {
        TxnDrawsView {
            tx_id: self.tx_id,
            bank_tid: self.bank_tid@,
            time: self.time,
            now_seconds: self.now_seconds,
        }
    }
}

/// What every transaction draw satisfies.
pub open spec fn txn_draws_valid(d: TxnDrawsView) -> bool {
    &&& is_txn_id(d.tx_id)
    &&& is_bank_tid_text(d.bank_tid)
    &&& 0 <= d.time <= MAX_UNIX_SECONDS * 1000 + 999
    &&& 0 <= d.now_seconds <= MAX_UNIX_SECONDS
}

/// What a successful transaction request answers: the transaction id, and
/// the notification to send to the partner where one is configured.
#[derive(Debug)]
pub struct TransactionOutcome {
    pub response: CreateTransactionResponse,
    pub notification: Option<WebhookNotification>,
}

/// The abstract value of a [`TransactionOutcome`].
pub struct TransactionOutcomeView {
    pub response: CreateTransactionResponse,
    pub notification: Option<WebhookNotificationView>,
}

impl View for TransactionOutcome {
    type V = TransactionOutcomeView;

    open spec fn view(&self) -> TransactionOutcomeView {
        TransactionOutcomeView {
            response: self.response,
            notification: match self.notification {
                Some(n) => Some(n@),
                None => None,
            },
        }
    }
}

/// The transaction stored for a successful request.
pub open spec fn stored_transaction(body: CreateTransactionRequest, d: TxnDrawsView, new_balance: i64) -> TransactionView {
    let to = body.to_entity_id->0@;
    TransactionView {
        tx_ref: d.tx_id,
        amount_paise: requested_amount(body) as i64,
        balance_paise: Some(new_balance),
        transaction_type: body.transaction_type->0@,
        credit_debit_type: Some(flow_label(body.transaction_type->0@)),
        time: d.time,
        business_id: body.business.deep_view(),
        beneficiary_name: None,
        beneficiary_type: None,
        beneficiary_id: Some(to),
        description: body.description.deep_view(),
        other_party_name: None,
        other_party_id: Some(to),
        txn_origin: body.transaction_origin.deep_view(),
        transaction_status: "PAYMENT_SUCCESS"@,
        status: None,
        your_wallet: Some("GENERAL"@),
        beneficiary_wallet: Some(Seq::empty()),
        external_transaction_id: body.external_transaction_id->0@,
        retrival_reference_no: None,
        auth_code: None,
        bill_ref_no: None,
        bank_tid: Some(d.bank_tid),
    }
}

/// The partner notification of a successful request.
pub open spec fn notification_of(body: CreateTransactionRequest, d: TxnDrawsView, new_balance: i64) -> WebhookNotificationView {
    WebhookNotificationView {
        entity_id: Some(body.to_entity_id->0@),
        txn_ref_no: signed_decimal_text(d.tx_id as int),
        mobile_no: None,
        txn_amt_paise: requested_amount(body) as i64,
        merchant_id: None,
        merchant_name: None,
        merchant_location: None,
        txn_date: utc_compact_datetime(d.now_seconds as int),
        balance_paise: Some(new_balance),
        transaction_type: body.transaction_type->0@,
        sender_account: None,
        sender_name: None,
        prod_type: Some("GENERAL"@),
        txn_status: "PAYMENT_SUCCESS"@,
        txn_desc: body.description.deep_view(),
        mcc: None,
        ext_txn_id: body.external_transaction_id->0@,
        channel: body.transaction_origin.deep_view(),
        cur_code: Some("356"@),
        proxy_card_no: None,
        retrieval_ref_no: None,
        terminal_id: None,
        trace_no: None,
        txn_currency: Some("INR"@),
        txn_origin: body.transaction_origin.deep_view(),
        acquirer_id: None,
        network: None,
        auth_code: None,
        transaction_fees: Some("0.0"@),
        description: body.description.deep_view(),
    }
}

/// What `create_transaction` does, given the drawn parts: a valid request
/// debits the sender (where the flow says so), credits the recipient, and
/// stores the transaction under its external id. A refused debit leaves the
/// sender's balance entry in place (created at zero if it was absent) and
/// stores no transaction.
pub open spec fn create_transaction_spec(s: AppModel, body: CreateTransactionRequest, d: TxnDrawsView) -> (
    AppModel,
    Result<TransactionOutcomeView, ErrorDetailView>,
) {
    match request_error(s, body) {
        Some(e) => (s, Err(e)),
        None => {
            let (debited, allowed) = after_debit(s, body);
            if !allowed {
                (AppModel { balances: debited, ..s }, Err(error::insufficient_balance_error()))
            } else {
                let to = body.to_entity_id->0@;
                let new_balance = (balance_of(debited, to) + requested_amount(body)) as i64;
                (
                    AppModel {
                        balances: debited.insert(to, new_balance),
                        transactions: s.transactions.insert(
                            body.external_transaction_id->0@,
                            stored_transaction(body, d, new_balance),
                        ),
                        ..s
                    },
                    Ok(
                        TransactionOutcomeView {
                            response: CreateTransactionResponse { tx_id: d.tx_id },
                            notification: if s.partner_webhook_url is Some {
                                Some(notification_of(body, d, new_balance))
                            } else {
                                None
                            },
                        },
                    ),
                )
            }
        },
    }
}

/// The text of an optional field, or the empty string where it is absent.
fn opt_literal(lit: &str) -> (r: Option<String>)
    ensures
        r.deep_view() == Some(lit@),
{
    Some(owned(lit))
}

/// Moves money as the request says, with the given drawn parts.
pub fn create_transaction_with(
    state: &mut AppState,
    body: &CreateTransactionRequest,
    draws: TxnDraws,
) -> (r: Result<TransactionOutcome, ErrorDetail>)
    requires
        old(state).wf(),
        transaction_fits(old(state)@, *body),
        0 <= draws.now_seconds <= MAX_UNIX_SECONDS,
    ensures
        final(state).wf(),
        (final(state)@, outcome(r)) == create_transaction_spec(old(state)@, *body, draws@),
{
    let to_entity_id = match required(&body.to_entity_id, "toEntityId") {
        Ok(id) => id,
        Err(e) => return Err(e),
    };
    let from_entity_id = match required(&body.from_entity_id, "fromEntityId") {
        Ok(id) => id,
        Err(e) => return Err(e),
    };
    let amount_paise: i64 = match body.amount {
        None => return Err(error::missing_field("amount")),
        Some(Some(p)) => {
            if p > 0 {
                p
            } else {
                return Err(ErrorDetail::new("Y512", "Amount Must be greater than zero"));
            }
        },
        Some(None) => return Err(ErrorDetail::new("Y512", "Amount Must be greater than zero")),
    };
    let txn_type = match required(&body.transaction_type, "transactionType") {
        Ok(t) => t,
        Err(e) => return Err(e),
    };
    let ext_txn_id = match required(&body.external_transaction_id, "externalTransactionId") {
        Ok(id) => id,
        Err(e) => return Err(e),
    };
    if state.transactions.contains_key(ext_txn_id.as_str()) {
        return Err(ErrorDetail::new("Y2004", "Transaction repeated within allowable time"));
    }
    let debits: bool;
    let label: &str;
    if text_eq(&txn_type, "M2C") {
        debits = false;
        label = "CREDIT";
    } else if text_eq(&txn_type, "C2C") || text_eq(&txn_type, "B2C") {
        debits = true;
        label = "CREDIT";
    } else if text_eq(&txn_type, "C2B") {
        debits = true;
        label = "DEBIT";
    } else {
        return Err(ErrorDetail::new("Y401", "Invalid flow"));
    }
    assert(flow_of(txn_type@) == Some((debits, label@)));
    if debits {
        match balance::debit(&mut state.balances, from_entity_id.as_str(), amount_paise) {
            Ok(_) => {},
            Err(e) => return Err(e),
        }
    }
    let new_balance = match balance::credit(&mut state.balances, to_entity_id.as_str(), amount_paise) {
        Ok(b) => b,
        Err(e) => return Err(e),
    };
    let txn = Transaction {
        tx_ref: draws.tx_id,
        amount_paise,
        balance_paise: Some(new_balance),
        transaction_type: txn_type.clone(),
        credit_debit_type: Some(owned(label)),
        time: draws.time,
        business_id: clone_opt(&body.business),
        beneficiary_name: None,
        beneficiary_type: None,
        beneficiary_id: Some(to_entity_id.clone()),
        description: clone_opt(&body.description),
        other_party_name: None,
        other_party_id: Some(to_entity_id.clone()),
        txn_origin: clone_opt(&body.transaction_origin),
        transaction_status: owned("PAYMENT_SUCCESS"),
        status: None,
        your_wallet: opt_literal("GENERAL"),
        beneficiary_wallet: Some(String::new()),
        external_transaction_id: ext_txn_id.clone(),
        retrival_reference_no: None,
        auth_code: None,
        bill_ref_no: None,
        bank_tid: Some(draws.bank_tid),
    };
    state.transactions.insert(ext_txn_id.clone(), txn);
    let notification = if state.partner_webhook_url.is_some() {
        Some(
            WebhookNotification {
                entity_id: Some(to_entity_id),
                txn_ref_no: signed_decimal_string(draws.tx_id),
                mobile_no: None,
                txn_amt_paise: amount_paise,
                merchant_id: None,
                merchant_name: None,
                merchant_location: None,
                txn_date: compact_datetime_text(draws.now_seconds),
                balance_paise: Some(new_balance),
                transaction_type: txn_type,
                sender_account: None,
                sender_name: None,
                prod_type: opt_literal("GENERAL"),
                txn_status: owned("PAYMENT_SUCCESS"),
                txn_desc: clone_opt(&body.description),
                mcc: None,
                ext_txn_id,
                channel: clone_opt(&body.transaction_origin),
                cur_code: opt_literal("356"),
                proxy_card_no: None,
                retrieval_ref_no: None,
                terminal_id: None,
                trace_no: None,
                txn_currency: opt_literal("INR"),
                txn_origin: clone_opt(&body.transaction_origin),
                acquirer_id: None,
                network: None,
                auth_code: None,
                transaction_fees: opt_literal("0.0"),
                description: clone_opt(&body.description),
            },
        )
    } else {
        None
    };
    Ok(TransactionOutcome { response: CreateTransactionResponse { tx_id: draws.tx_id }, notification })
}

/// The balance that the table holds for an entity, or zero.
fn balance_or_zero(state: &AppState, entity_id: &str) -> (b: i64)
    ensures
        b == balance_of(state@.balances, entity_id@),
{
    match state.balances.get(entity_id) {
        Some(b) => *b,
        None => 0,
    }
}

/// Whether crediting the recipient of a request would stay within `i64`,
/// so that [`create_transaction`] may be asked to serve it.
pub fn transaction_fits_check(state: &AppState, body: &CreateTransactionRequest) -> (b: bool)
    ensures
        b == transaction_fits(state@, *body),
{
    let to_entity_id = match required(&body.to_entity_id, "toEntityId") {
        Ok(id) => id,
        Err(_) => return true,
    };
    let from_entity_id = match required(&body.from_entity_id, "fromEntityId") {
        Ok(id) => id,
        Err(_) => return true,
    };
    let amount_paise: i64 = match body.amount {
        Some(Some(p)) => {
            if p > 0 {
                p
            } else {
                return true;
            }
        },
        _ => return true,
    };
    let txn_type = match required(&body.transaction_type, "transactionType") {
        Ok(t) => t,
        Err(_) => return true,
    };
    let ext_txn_id = match required(&body.external_transaction_id, "externalTransactionId") {
        Ok(id) => id,
        Err(_) => return true,
    };
    if state.transactions.contains_key(ext_txn_id.as_str()) {
        return true;
    }
    let debits: bool;
    if text_eq(&txn_type, "M2C") {
        debits = false;
    } else if text_eq(&txn_type, "C2C") || text_eq(&txn_type, "B2C") || text_eq(&txn_type, "C2B") {
        debits = true;
    } else {
        return true;
    }
    assert(flow_debits(txn_type@) == debits);
    let to_balance = balance_or_zero(state, to_entity_id.as_str());
    if debits {
        let from_balance = balance_or_zero(state, from_entity_id.as_str());
        if from_balance < amount_paise {
            return true;
        }
        if from_entity_id == to_entity_id {
            return true;
        }
    }
    to_balance <= i64::MAX - amount_paise
}

/// Moves money between entities as the request's flow says (`M2C` credits
/// the recipient; `C2C`, `B2C` and `C2B` debit the sender and credit the
/// recipient), stores the transaction under its external id, and names the
/// partner notification to send where a partner is configured.
pub fn create_transaction(state: &mut AppState, body: &CreateTransactionRequest) -> (r: Result<
    TransactionOutcome,
    ErrorDetail,
>)
    requires
        old(state).wf(),
        transaction_fits(old(state)@, *body),
    ensures
        final(state).wf(),
        exists|d: TxnDrawsView|
            txn_draws_valid(d) && (final(state)@, outcome(r)) == #[trigger] create_transaction_spec(
                old(state)@,
                *body,
                d,
            ),
{
    let draws = TxnDraws {
        tx_id: generate_txn_id(),
        bank_tid: generate_bank_tid(),
        time: now_unix_millis(),
        now_seconds: now_unix_seconds(),
    };
    let ghost d = draws@;
    let r = create_transaction_with(state, body, draws);
    assert((final(state)@, outcome(r)) == create_transaction_spec(old(state)@, *body, d));
    r
}

/// What `fetch_by_ext_id` answers: the transaction stored under the id.
pub open spec fn fetch_by_ext_id_spec(s: AppModel, ext_txn_id: Seq<char>) -> Result<
    FetchTransactionResponseView,
    ErrorDetailView,
> {
    if s.transactions.contains(ext_txn_id) {
        Ok(FetchTransactionResponseView { transaction: s.transactions.map[ext_txn_id], balance_paise: None })
    } else {
        Err(invalid_txn_id_error(ext_txn_id))
    }
}

/// The transaction stored under an external id.
pub fn fetch_by_ext_id(state: &AppState, ext_txn_id: &str) -> (r: Result<
    FetchTransactionResponse,
    ErrorDetail,
>)
    ensures
        outcome(r) == fetch_by_ext_id_spec(state@, ext_txn_id@),
{
    match state.transactions.get(ext_txn_id) {
        Some(t) => Ok(FetchTransactionResponse { transaction: t.clone(), balance_paise: None }),
        None => Err(error::invalid_txn_id(ext_txn_id)),
    }
}

/// Whether a transaction is a successful one that names the entity as
/// beneficiary or as other party.
pub open spec fn involves(t: TransactionView, entity_id: Seq<char>) -> bool {
    (t.beneficiary_id == Some(entity_id) || t.other_party_id == Some(entity_id))
        && t.transaction_status == "PAYMENT_SUCCESS"@
}

/// The latest transaction involving the entity among the first `n`
/// transactions in order: the one with the greatest time, and of those the
/// last in order.
pub open spec fn latest_of(txns: TableModel<TransactionView>, entity_id: Seq<char>, n: int) -> Option<
    TransactionView,
>
    decreases n,
{
    if n <= 0 {
        None
    } else {
        let earlier = latest_of(txns, entity_id, n - 1);
        let t = txns.map[txns.order[n - 1]];
        if involves(t, entity_id) {
            match earlier {
                Some(p) => if t.time >= p.time {
                    Some(t)
                } else {
                    earlier
                },
                None => Some(t),
            }
        } else {
            earlier
        }
    }
}

/// What `fetch_by_entity` answers: the latest transaction involving the
/// entity, or nothing.
pub open spec fn fetch_by_entity_spec(s: AppModel, entity_id: Seq<char>) -> Option<FetchTransactionResponseView> {
    match latest_of(s.transactions, entity_id, s.transactions.order.len() as int) {
        Some(t) => Some(FetchTransactionResponseView { transaction: t, balance_paise: None }),
        None => None,
    }
}

/// Whether a stored transaction involves the entity.
fn involves_entity(t: &Transaction, entity_id: &str) -> (b: bool)
    ensures
        b == involves(t@, entity_id@),
{
    let id = owned(entity_id);
    let as_beneficiary = match &t.beneficiary_id {
        Some(b) => *b == id,
        None => false,
    };
    let as_other_party = match &t.other_party_id {
        Some(o) => *o == id,
        None => false,
    };
    (as_beneficiary || as_other_party) && text_eq(&t.transaction_status, "PAYMENT_SUCCESS")
}

/// The latest successful transaction naming the entity as beneficiary or
/// other party, if there is one.
pub fn fetch_by_entity(state: &AppState, entity_id: &str) -> (r: Option<FetchTransactionResponse>)
    requires
        state.wf(),
    ensures
        match (r, fetch_by_entity_spec(state@, entity_id@)) {
            (Some(a), Some(b)) => a@ == b,
            (None, None) => true,
            _ => false,
        },
{
    let keys = state.transactions.keys();
    let mut best: Option<&Transaction> = None;
    let mut i: usize = 0;
    while i < keys.len()
        invariant
            i <= keys@.len(),
            keys.deep_view() == state@.transactions.order,
            state.wf(),
            match (best, latest_of(state@.transactions, entity_id@, i as int)) {
                (Some(a), Some(b)) => a@ == b,
                (None, None) => true,
                _ => false,
            },
        decreases keys@.len() - i,
    {
        let key = &keys[i];
        assert(key@ == state@.transactions.order[i as int]);
        proof {
            state.lemma_order_txn_keys_present(i as int);
        }
        match state.transactions.get(key.as_str()) {
            Some(t) => {
                if involves_entity(t, entity_id) {
                    best = match best {
                        Some(p) => if t.time >= p.time {
                            Some(t)
                        } else {
                            Some(p)
                        },
                        None => Some(t),
                    };
                }
            },
            None => {},
        }
        i = i + 1;
    }
    match best {
        Some(t) => Some(FetchTransactionResponse { transaction: t.clone(), balance_paise: None }),
        None => None,
    }
}

} // verus!
