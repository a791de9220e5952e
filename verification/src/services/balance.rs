//! Crediting and debiting entity balances, held in paise.

use vstd::prelude::*;

use crate::models::error::{self, ErrorDetail, ErrorDetailView, insufficient_balance_error};
use crate::state::{Table, TableModel};
use crate::text::owned;

verus! {

/// The balance of `entity_id`: what the table holds for it, or zero.
pub open spec fn balance_of(balances: TableModel<i64>, entity_id: Seq<char>) -> int {
    if balances.contains(entity_id) {
        balances.map[entity_id] as int
    } else {
        0
    }
}

/// Whether crediting `amount_paise` to `entity_id` stays within `i64`.
pub open spec fn credit_fits(balances: TableModel<i64>, entity_id: Seq<char>, amount_paise: int) -> bool {
    i64::MIN <= balance_of(balances, entity_id) + amount_paise <= i64::MAX
}

/// Whether a debit of `amount_paise` from `entity_id` is refused for want of funds.
pub open spec fn debit_refused(balances: TableModel<i64>, entity_id: Seq<char>, amount_paise: int) -> bool {
    balance_of(balances, entity_id) < amount_paise
}

/// Whether debiting `amount_paise` from `entity_id`, where it is not refused,
/// stays within `i64`.
pub open spec fn debit_fits(balances: TableModel<i64>, entity_id: Seq<char>, amount_paise: int) -> bool {
    debit_refused(balances, entity_id, amount_paise) || balance_of(balances, entity_id)
        - amount_paise <= i64::MAX
}

/// The balances after crediting `amount_paise` to `entity_id`.
pub open spec fn credit_result(balances: TableModel<i64>, entity_id: Seq<char>, amount_paise: int) -> TableModel<i64> {
    balances.insert(entity_id, (balance_of(balances, entity_id) + amount_paise) as i64)
}

/// The balances after a debit: the new balance where it is allowed; where it
/// is refused, the entity's balance entry is still created (at zero) if it was absent.
pub open spec fn debit_result(balances: TableModel<i64>, entity_id: Seq<char>, amount_paise: int) -> (
    TableModel<i64>,
    Result<i64, ErrorDetailView>,
) {
    let current = balance_of(balances, entity_id);
    if current < amount_paise {
        (balances.insert(entity_id, current as i64), Err(insufficient_balance_error()))
    } else {
        (
            balances.insert(entity_id, (current - amount_paise) as i64),
            Ok((current - amount_paise) as i64),
        )
    }
}

/// Credits `amount_paise` to `entity_id`, creating its balance at zero first
/// if it has none, and returns the new balance.
pub fn credit(balances: &mut Table<i64>, entity_id: &str, amount_paise: i64) -> (r: Result<i64, ErrorDetail>)
    requires
        old(balances).wf(),
        credit_fits(old(balances)@, entity_id@, amount_paise as int),
    ensures
        final(balances).wf(),
        r matches Ok(b) && b == balance_of(old(balances)@, entity_id@) + amount_paise,
        final(balances)@ == credit_result(old(balances)@, entity_id@, amount_paise as int),
{
    let current: i64 = match balances.get(entity_id) {
        Some(b) => *b,
        None => 0,
    };
    let updated = current + amount_paise;
    balances.insert(owned(entity_id), updated);
    Ok(updated)
}

/// Debits `amount_paise` from `entity_id` and returns the new balance, or
/// refuses with an insufficient-balance error when the balance is smaller
/// than the amount. Either way the entity's balance entry exists afterwards.
pub fn debit(balances: &mut Table<i64>, entity_id: &str, amount_paise: i64) -> (r: Result<i64, ErrorDetail>)
    requires
        old(balances).wf(),
        debit_fits(old(balances)@, entity_id@, amount_paise as int),
    ensures
        final(balances).wf(),
        final(balances)@ == debit_result(old(balances)@, entity_id@, amount_paise as int).0,
        match (r, debit_result(old(balances)@, entity_id@, amount_paise as int).1) {
            (Ok(b), Ok(c)) => b == c,
            (Err(e), Err(f)) => e@ == f,
            _ => false,
        },
{
    let current: i64 = match balances.get(entity_id) {
        Some(b) => *b,
        None => 0,
    };
    if current < amount_paise {
        balances.insert(owned(entity_id), current);
        return Err(error::insufficient_balance());
    }
    let updated = current - amount_paise;
    balances.insert(owned(entity_id), updated);
    Ok(updated)
}

} // verus!
