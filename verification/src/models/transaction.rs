//! Transactions, the requests and responses about them, and partner notifications.

use vstd::prelude::*;

use crate::text::clone_opt;

verus! {

/// A completed money movement, keyed by its external transaction id.
///
/// Amounts are held in paise: `amount_paise` is the amount moved and
/// `balance_paise` the recipient's balance after it.
#[derive(Debug)]
pub struct Transaction {
    pub tx_ref: i64,
    pub amount_paise: i64,
    pub balance_paise: Option<i64>,
    pub transaction_type: String,
    pub credit_debit_type: Option<String>,
    pub time: i64,
    pub business_id: Option<String>,
    pub beneficiary_name: Option<String>,
    pub beneficiary_type: Option<String>,
    pub beneficiary_id: Option<String>,
    pub description: Option<String>,
    pub other_party_name: Option<String>,
    pub other_party_id: Option<String>,
    pub txn_origin: Option<String>,
    pub transaction_status: String,
    pub status: Option<String>,
    pub your_wallet: Option<String>,
    pub beneficiary_wallet: Option<String>,
    pub external_transaction_id: String,
    pub retrival_reference_no: Option<String>,
    pub auth_code: Option<String>,
    pub bill_ref_no: Option<String>,
    pub bank_tid: Option<String>,
}

/// The abstract value of a [`Transaction`].
pub struct TransactionView {
    pub tx_ref: i64,
    pub amount_paise: i64,
    pub balance_paise: Option<i64>,
    pub transaction_type: Seq<char>,
    pub credit_debit_type: Option<Seq<char>>,
    pub time: i64,
    pub business_id: Option<Seq<char>>,
    pub beneficiary_name: Option<Seq<char>>,
    pub beneficiary_type: Option<Seq<char>>,
    pub beneficiary_id: Option<Seq<char>>,
    pub description: Option<Seq<char>>,
    pub other_party_name: Option<Seq<char>>,
    pub other_party_id: Option<Seq<char>>,
    pub txn_origin: Option<Seq<char>>,
    pub transaction_status: Seq<char>,
    pub status: Option<Seq<char>>,
    pub your_wallet: Option<Seq<char>>,
    pub beneficiary_wallet: Option<Seq<char>>,
    pub external_transaction_id: Seq<char>,
    pub retrival_reference_no: Option<Seq<char>>,
    pub auth_code: Option<Seq<char>>,
    pub bill_ref_no: Option<Seq<char>>,
    pub bank_tid: Option<Seq<char>>,
}

impl View for Transaction {
    type V = TransactionView;

    open spec fn view(&self) -> TransactionView {
        TransactionView {
            tx_ref: self.tx_ref,
            amount_paise: self.amount_paise,
            balance_paise: self.balance_paise,
            transaction_type: self.transaction_type@,
            credit_debit_type: self.credit_debit_type.deep_view(),
            time: self.time,
            business_id: self.business_id.deep_view(),
            beneficiary_name: self.beneficiary_name.deep_view(),
            beneficiary_type: self.beneficiary_type.deep_view(),
            beneficiary_id: self.beneficiary_id.deep_view(),
            description: self.description.deep_view(),
            other_party_name: self.other_party_name.deep_view(),
            other_party_id: self.other_party_id.deep_view(),
            txn_origin: self.txn_origin.deep_view(),
            transaction_status: self.transaction_status@,
            status: self.status.deep_view(),
            your_wallet: self.your_wallet.deep_view(),
            beneficiary_wallet: self.beneficiary_wallet.deep_view(),
            external_transaction_id: self.external_transaction_id@,
            retrival_reference_no: self.retrival_reference_no.deep_view(),
            auth_code: self.auth_code.deep_view(),
            bill_ref_no: self.bill_ref_no.deep_view(),
            bank_tid: self.bank_tid.deep_view(),
        }
    }
}

impl Clone for Transaction {
    fn clone(&self) -> (r: Self)
        ensures
            r == *self,
    {
        Transaction {
            tx_ref: self.tx_ref,
            amount_paise: self.amount_paise,
            balance_paise: self.balance_paise,
            transaction_type: self.transaction_type.clone(),
            credit_debit_type: clone_opt(&self.credit_debit_type),
            time: self.time,
            business_id: clone_opt(&self.business_id),
            beneficiary_name: clone_opt(&self.beneficiary_name),
            beneficiary_type: clone_opt(&self.beneficiary_type),
            beneficiary_id: clone_opt(&self.beneficiary_id),
            description: clone_opt(&self.description),
            other_party_name: clone_opt(&self.other_party_name),
            other_party_id: clone_opt(&self.other_party_id),
            txn_origin: clone_opt(&self.txn_origin),
            transaction_status: self.transaction_status.clone(),
            status: clone_opt(&self.status),
            your_wallet: clone_opt(&self.your_wallet),
            beneficiary_wallet: clone_opt(&self.beneficiary_wallet),
            external_transaction_id: self.external_transaction_id.clone(),
            retrival_reference_no: clone_opt(&self.retrival_reference_no),
            auth_code: clone_opt(&self.auth_code),
            bill_ref_no: clone_opt(&self.bill_ref_no),
            bank_tid: clone_opt(&self.bank_tid),
        }
    }
}

/// A request to move money between entities.
///
/// `amount` is `None` when the request carries no amount, `Some(None)` when
/// the amount it carries cannot be read as a number, and `Some(Some(p))`
/// when it reads as `p` paise.
#[derive(Debug)]
pub struct CreateTransactionRequest {
    pub to_entity_id: Option<String>,
    pub from_entity_id: Option<String>,
    pub yapcode: Option<String>,
    pub product_id: Option<String>,
    pub description: Option<String>,
    pub amount: Option<Option<i64>>,
    pub transaction_type: Option<String>,
    pub transaction_origin: Option<String>,
    pub business: Option<String>,
    pub business_entity_id: Option<String>,
    pub business_type: Option<String>,
    pub external_transaction_id: Option<String>,
    pub from_product_id: Option<String>,
}

/// The answer to a successful transaction request.
#[derive(Clone, Copy, Debug, PartialEq, Eq, Structural)]
pub struct CreateTransactionResponse {
    pub tx_id: i64,
}

impl View for CreateTransactionResponse {
    type V = CreateTransactionResponse;

    open spec fn view(&self) -> CreateTransactionResponse {
        *self
    }
}

/// A stored transaction as it is fetched; `balance_paise` is never filled in.
#[derive(Debug)]
pub struct FetchTransactionResponse {
    pub transaction: Transaction,
    pub balance_paise: Option<i64>,
}

/// The abstract value of a [`FetchTransactionResponse`].
pub struct FetchTransactionResponseView {
    pub transaction: TransactionView,
    pub balance_paise: Option<i64>,
}

impl View for FetchTransactionResponse {
    type V = FetchTransactionResponseView;

    open spec fn view(&self) -> FetchTransactionResponseView {
        FetchTransactionResponseView { transaction: self.transaction@, balance_paise: self.balance_paise }
    }
}

/// Paging parameters of a transaction listing.
#[derive(Debug)]
pub struct FetchTxnPagingQuery {
    pub from_date: Option<String>,
    pub to_date: Option<String>,
    pub page_number: Option<u32>,
    pub page_size: Option<u32>,
}

/// The notification sent to a partner after a transaction.
///
/// `txn_amt_paise` is the amount moved and `balance_paise` the recipient's
/// balance after it, both in paise.
#[derive(Debug)]
pub struct WebhookNotification {
    pub entity_id: Option<String>,
    pub txn_ref_no: String,
    pub mobile_no: Option<String>,
    pub txn_amt_paise: i64,
    pub merchant_id: Option<String>,
    pub merchant_name: Option<String>,
    pub merchant_location: Option<String>,
    pub txn_date: String,
    pub balance_paise: Option<i64>,
    pub transaction_type: String,
    pub sender_account: Option<String>,
    pub sender_name: Option<String>,
    pub prod_type: Option<String>,
    pub txn_status: String,
    pub txn_desc: Option<String>,
    pub mcc: Option<String>,
    pub ext_txn_id: String,
    pub channel: Option<String>,
    pub cur_code: Option<String>,
    pub proxy_card_no: Option<String>,
    pub retrieval_ref_no: Option<String>,
    pub terminal_id: Option<String>,
    pub trace_no: Option<String>,
    pub txn_currency: Option<String>,
    pub txn_origin: Option<String>,
    pub acquirer_id: Option<String>,
    pub network: Option<String>,
    pub auth_code: Option<String>,
    pub transaction_fees: Option<String>,
    pub description: Option<String>,
}

/// The abstract value of a [`WebhookNotification`].
pub struct WebhookNotificationView {
    pub entity_id: Option<Seq<char>>,
    pub txn_ref_no: Seq<char>,
    pub mobile_no: Option<Seq<char>>,
    pub txn_amt_paise: i64,
    pub merchant_id: Option<Seq<char>>,
    pub merchant_name: Option<Seq<char>>,
    pub merchant_location: Option<Seq<char>>,
    pub txn_date: Seq<char>,
    pub balance_paise: Option<i64>,
    pub transaction_type: Seq<char>,
    pub sender_account: Option<Seq<char>>,
    pub sender_name: Option<Seq<char>>,
    pub prod_type: Option<Seq<char>>,
    pub txn_status: Seq<char>,
    pub txn_desc: Option<Seq<char>>,
    pub mcc: Option<Seq<char>>,
    pub ext_txn_id: Seq<char>,
    pub channel: Option<Seq<char>>,
    pub cur_code: Option<Seq<char>>,
    pub proxy_card_no: Option<Seq<char>>,
    pub retrieval_ref_no: Option<Seq<char>>,
    pub terminal_id: Option<Seq<char>>,
    pub trace_no: Option<Seq<char>>,
    pub txn_currency: Option<Seq<char>>,
    pub txn_origin: Option<Seq<char>>,
    pub acquirer_id: Option<Seq<char>>,
    pub network: Option<Seq<char>>,
    pub auth_code: Option<Seq<char>>,
    pub transaction_fees: Option<Seq<char>>,
    pub description: Option<Seq<char>>,
}

impl View for WebhookNotification {
    type V = WebhookNotificationView;

    open spec fn view(&self) -> WebhookNotificationView {
        WebhookNotificationView {
            entity_id: self.entity_id.deep_view(),
            txn_ref_no: self.txn_ref_no@,
            mobile_no: self.mobile_no.deep_view(),
            txn_amt_paise: self.txn_amt_paise,
            merchant_id: self.merchant_id.deep_view(),
            merchant_name: self.merchant_name.deep_view(),
            merchant_location: self.merchant_location.deep_view(),
            txn_date: self.txn_date@,
            balance_paise: self.balance_paise,
            transaction_type: self.transaction_type@,
            sender_account: self.sender_account.deep_view(),
            sender_name: self.sender_name.deep_view(),
            prod_type: self.prod_type.deep_view(),
            txn_status: self.txn_status@,
            txn_desc: self.txn_desc.deep_view(),
            mcc: self.mcc.deep_view(),
            ext_txn_id: self.ext_txn_id@,
            channel: self.channel.deep_view(),
            cur_code: self.cur_code.deep_view(),
            proxy_card_no: self.proxy_card_no.deep_view(),
            retrieval_ref_no: self.retrieval_ref_no.deep_view(),
            terminal_id: self.terminal_id.deep_view(),
            trace_no: self.trace_no.deep_view(),
            txn_currency: self.txn_currency.deep_view(),
            txn_origin: self.txn_origin.deep_view(),
            acquirer_id: self.acquirer_id.deep_view(),
            network: self.network.deep_view(),
            auth_code: self.auth_code.deep_view(),
            transaction_fees: self.transaction_fees.deep_view(),
            description: self.description.deep_view(),
        }
    }
}

} // verus!
