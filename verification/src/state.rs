//! The service's in-memory state: keyed tables of customers, corporates,
//! cards, transactions, balances and preferences, and the pending OTPs.

use vstd::prelude::*;
use vstd::hash_map::StringHashMap;

use crate::models::card::{Card, CardView, CardPreferences, CardPreferencesView};
use crate::models::corporate::{Corporate, CorporateView};
use crate::models::customer::{Customer, CustomerView, OtpRecord, OtpRecordView};
use crate::models::transaction::{Transaction, TransactionView};

verus! {

/// The abstract value of a [`Table`]: what each key holds, and the keys in
/// the order in which they were first inserted.
pub struct TableModel<V> {
    pub map: Map<Seq<char>, V>,
    pub order: Seq<Seq<char>>,
}

impl<V> TableModel<V> {
    pub open spec fn empty() -> TableModel<V> {
        TableModel { map: Map::empty(), order: Seq::empty() }
    }

    pub open spec fn contains(self, k: Seq<char>) -> bool {
        self.map.contains_key(k)
    }

    /// `k` bound to `v`; a key seen for the first time goes to the end of the order.
    pub open spec fn insert(self, k: Seq<char>, v: V) -> TableModel<V> {
        TableModel {
            map: self.map.insert(k, v),
            order: if self.map.contains_key(k) {
                self.order
            } else {
                self.order.push(k)
            },
        }
    }

    /// The values, in the order of their keys.
    pub open spec fn values(self) -> Seq<V> {
        self.order.map_values(|k: Seq<char>| self.map[k])
    }
}

/// A table of values keyed by strings that remembers the order in which its
/// keys were first inserted.
#[verifier::reject_recursive_types(V)]
pub struct Table<V> {
    map: StringHashMap<V>,
    keys: Vec<String>,
}

impl<V: View> View for Table<V> {
    type V = TableModel<V::V>;

    closed spec fn view(&self) -> TableModel<V::V> {
        TableModel {
            map: self.map@.map_values(|v: V| v@),
            order: self.keys@.map_values(|k: String| k@),
        }
    }
}

impl<V: View> Table<V> {
    /// Every key occurs once in the order, and the order holds exactly the
    /// keys of the table.
    pub closed spec fn wf(&self) -> bool {
        &&& self.keys@.map_values(|k: String| k@).no_duplicates()
        &&& forall|k: Seq<char>|
            #![trigger self.map@.contains_key(k)]
            self.map@.contains_key(k) <==> self.keys@.map_values(|s: String| s@).contains(k)
    }

    /// An empty table.
    pub fn new() -> (t: Self)
        ensures
            t.wf(),
            t@ == TableModel::<V::V>::empty(),
    {
        let t = Table { map: StringHashMap::new(), keys: Vec::new() };
        assert(t@.map =~= Map::<Seq<char>, V::V>::empty());
        assert(t@.order =~= Seq::<Seq<char>>::empty());
        t
    }

    /// Whether the table holds `k`.
    pub fn contains_key(&self, k: &str) -> (b: bool)
        ensures
            b == self@.contains(k@),
    {
        self.map.contains_key(k)
    }

    /// The value held for `k`, if any.
    pub fn get(&self, k: &str) -> (r: Option<&V>)
        ensures
            match r {
                Some(v) => self@.contains(k@) && v@ == self@.map[k@],
                None => !self@.contains(k@),
            },
    {
        self.map.get(k)
    }

    /// Binds `k` to `v`, replacing any value it held.
    pub fn insert(&mut self, k: String, v: V)
        requires
            old(self).wf(),
        ensures
            final(self).wf(),
            final(self)@ == old(self)@.insert(k@, v@),
    {
        let ghost old_map = self.map@;
        let ghost old_keys = self.keys@;
        let present = self.map.contains_key(k.as_str());
        if present {
            self.map.insert(k, v);
            assert(self.keys@.map_values(|s: String| s@) =~= old_keys.map_values(|s: String| s@));
        } else {
            let kv = k.clone();
            self.map.insert(k, v);
            self.keys.push(kv);
            let ghost ov = old_keys.map_values(|s: String| s@);
            assert(self.keys@.map_values(|s: String| s@) =~= ov.push(kv@));
            assert forall|i: int, j: int|
                0 <= i < ov.push(kv@).len() && 0 <= j < ov.push(kv@).len() && i != j implies
                ov.push(kv@)[i] != ov.push(kv@)[j] by {
                if i == ov.len() as int {
                    assert(ov.contains(ov[j]));
                } else if j == ov.len() as int {
                    assert(ov.contains(ov[i]));
                }
            }
            assert forall|key: Seq<char>|
                #![trigger self.map@.contains_key(key)]
                self.map@.contains_key(key) <==> self.keys@.map_values(|s: String| s@).contains(
                    key,
                ) by {
                if key != kv@ {
                    if ov.push(kv@).contains(key) {
                        let i = choose|i: int| 0 <= i < ov.push(kv@).len() && ov.push(kv@)[i] == key;
                        assert(ov[i] == key);
                    }
                    if ov.contains(key) {
                        let i = choose|i: int| 0 <= i < ov.len() && ov[i] == key;
                        assert(ov.push(kv@)[i] == key);
                    }
                } else {
                    assert(ov.push(kv@)[ov.len() as int] == key);
                }
            }
        }
        assert(self.map@.map_values(|x: V| x@) =~= old_map.map_values(|x: V| x@).insert(k@, v@));
    }

    /// Every key in the order is held by the table.
    pub proof fn lemma_order_key_present(&self, i: int)
        requires
            self.wf(),
            0 <= i < self@.order.len(),
        ensures
            self@.contains(self@.order[i]),
    {
        assert(self.keys@.map_values(|s: String| s@).contains(self@.order[i]));
    }

    /// Every key held by the table is in the order.
    pub proof fn lemma_key_in_order(&self, k: Seq<char>)
        requires
            self.wf(),
            self@.contains(k),
        ensures
            self@.order.contains(k),
    {
        assert(self.map@.contains_key(k));
    }

    /// The keys, in the order in which they were first inserted.
    pub fn keys(&self) -> (ks: &Vec<String>)
        ensures
            ks.deep_view() == self@.order,
    {
        assert(self.keys.deep_view() =~= self.keys@.map_values(|k: String| k@));
        &self.keys
    }
}

/// The abstract value of the whole state.
pub struct AppModel {
    pub customers: TableModel<CustomerView>,
    pub otps: Map<Seq<char>, OtpRecordView>,
    pub corporates: TableModel<CorporateView>,
    pub cards: TableModel<CardView>,
    pub transactions: TableModel<TransactionView>,
    pub balances: TableModel<i64>,
    pub preferences: TableModel<CardPreferencesView>,
    pub partner_webhook_url: Option<Seq<char>>,
}

impl AppModel {
    /// Whether `id` names a registered customer or corporate.
    pub open spec fn has_entity(self, id: Seq<char>) -> bool {
        self.customers.contains(id) || self.corporates.contains(id)
    }
}

/// Everything the service holds. Balances are in paise, keyed by entity id.
pub struct AppState {
    pub customers: Table<Customer>,
    pub otps: StringHashMap<OtpRecord>,
    pub corporates: Table<Corporate>,
    pub cards: Table<Card>,
    pub transactions: Table<Transaction>,
    pub balances: Table<i64>,
    pub preferences: Table<CardPreferences>,
    pub partner_webhook_url: Option<String>,
}

impl View for AppState {
    type V = AppModel;

    open spec fn view(&self) -> AppModel {
        AppModel {
            customers: self.customers@,
            otps: self.otps@.map_values(|o: OtpRecord| o@),
            corporates: self.corporates@,
            cards: self.cards@,
            transactions: self.transactions@,
            balances: self.balances@,
            preferences: self.preferences@,
            partner_webhook_url: self.partner_webhook_url.deep_view(),
        }
    }
}

impl AppState {
    /// Every table is well formed.
    pub open spec fn wf(&self) -> bool {
        &&& self.customers.wf()
        &&& self.corporates.wf()
        &&& self.cards.wf()
        &&& self.transactions.wf()
        &&& self.balances.wf()
        &&& self.preferences.wf()
    }

    /// An empty state that notifies `partner_webhook_url`, if given, of transactions.
    pub fn new(partner_webhook_url: Option<String>) -> (s: AppState)
        ensures
            s.wf(),
            s@.customers == TableModel::<CustomerView>::empty(),
            s@.otps == Map::<Seq<char>, OtpRecordView>::empty(),
            s@.corporates == TableModel::<CorporateView>::empty(),
            s@.cards == TableModel::<CardView>::empty(),
            s@.transactions == TableModel::<TransactionView>::empty(),
            s@.balances == TableModel::<i64>::empty(),
            s@.preferences == TableModel::<CardPreferencesView>::empty(),
            s@.partner_webhook_url == partner_webhook_url.deep_view(),
    {
        let s = AppState {
            customers: Table::new(),
            otps: StringHashMap::new(),
            corporates: Table::new(),
            cards: Table::new(),
            transactions: Table::new(),
            balances: Table::new(),
            preferences: Table::new(),
            partner_webhook_url,
        };
        assert(s@.otps =~= Map::<Seq<char>, OtpRecordView>::empty());
        s
    }

    /// Every card key in the order is held by the card table.
    pub proof fn lemma_order_keys_present(&self, i: int)
        requires
            self.wf(),
            0 <= i < self@.cards.order.len(),
        ensures
            self@.cards.contains(self@.cards.order[i]),
    {
        self.cards.lemma_order_key_present(i);
    }

    /// Every transaction key in the order is held by the transaction table.
    pub proof fn lemma_order_txn_keys_present(&self, i: int)
        requires
            self.wf(),
            0 <= i < self@.transactions.order.len(),
        ensures
            self@.transactions.contains(self@.transactions.order[i]),
    {
        self.transactions.lemma_order_key_present(i);
    }

    /// Whether `id` names a registered customer or corporate.
    pub fn entity_exists(&self, id: &str) -> (b: bool)
        ensures
            b == self@.has_entity(id@),
    {
        self.customers.contains_key(id) || self.corporates.contains_key(id)
    }
}

} // verus!
