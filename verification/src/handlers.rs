//! The service's requests: each takes the state and a request and returns
//! the answer, changing the state where the request succeeds.

use vstd::prelude::*;

use crate::models::error::{self, ErrorDetail, missing_field_error};
use crate::services::id_gen::{
    MAX_UNIX_SECONDS, expiry_for, expiry_text, generate_card_number, generate_kit_no,
    is_card_number_text, is_kit_no_text, now_unix_seconds,
};
use crate::text::present;

pub mod card;
pub mod encryption;
pub mod kyc;
pub mod registration;
pub mod transaction;

verus! {

/// The text of a mandatory request field, or the error naming it when it is
/// absent or empty.
pub fn required(field: &Option<String>, name: &str) -> (r: Result<String, ErrorDetail>)
    ensures
        match r {
            Ok(s) => present(*field) && s@ == field->0@,
            Err(e) => !present(*field) && e@ == missing_field_error(name@),
        },
{
    match field {
        Some(s) => {
            if s.as_str().is_empty() {
                Err(error::missing_field(name))
            } else {
                Ok(s.clone())
            }
        },
        None => Err(error::missing_field(name)),
    }
}

/// The freshly drawn parts of a new card: a kit number (used where the
/// request names none), a card number, the issue time and the expiry.
#[derive(Debug)]
pub struct CardMint {
    pub kit_no: String,
    pub card_number: String,
    pub expiry_date: String,
    pub created_at: i64,
}

/// The abstract value of a [`CardMint`].
pub struct CardMintView {
    pub kit_no: Seq<char>,
    pub card_number: Seq<char>,
    pub expiry_date: Seq<char>,
    pub created_at: i64,
}

impl View for CardMint {
    type V = CardMintView;

    open spec fn view(&self) -> CardMintView {
        CardMintView {
            kit_no: self.kit_no@,
            card_number: self.card_number@,
            expiry_date: self.expiry_date@,
            created_at: self.created_at,
        }
    }
}

/// What every drawn card satisfies: generated kit and card numbers, an issue
/// time on chrono's clock, and the expiry three years after it.
pub open spec fn mint_valid(m: CardMintView) -> bool {
    &&& is_kit_no_text(m.kit_no)
    &&& is_card_number_text(m.card_number)
    &&& 0 <= m.created_at <= MAX_UNIX_SECONDS
    &&& m.expiry_date == expiry_text(m.created_at as int)
}

/// Draws the parts of a new card.
pub fn mint_card() -> (m: CardMint)
    ensures
        mint_valid(m@),
{
    let now = now_unix_seconds();
    CardMint {
        kit_no: generate_kit_no(),
        card_number: generate_card_number(),
        expiry_date: expiry_for(now),
        created_at: now,
    }
}

} // verus!
