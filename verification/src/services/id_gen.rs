//! Generation of one-time passwords, tokens, kit and card numbers, expiry
//! dates and transaction identifiers.

use vstd::prelude::*;
use rand::Rng;

use crate::text::{
    decimal_string, decimal_text, hex_upper, hex_upper_string, owned, zero_padded,
    zero_padded_string,
};

verus! {

/// The last second that chrono can represent: the end of December 31, 262142.
pub const MAX_UNIX_SECONDS: i64 = 8210266876799i64;

/// Three years of 365 days, in seconds: how long after issue a card expires.
pub const CARD_LIFETIME_SECONDS: i64 = 94608000i64;

/// A number drawn uniformly from `low..high` by rand's thread-local generator.
///
/// Wraps `rand::Rng::gen_range` on `rand::thread_rng()`; the contract claims
/// only that the result lies in the half-open range, which is what the
/// function documents. `gen_range` panics on an empty range, hence `low < high`.
#[verifier::external_body]
fn random_in_range(low: i64, high: i64) -> (r: i64)
    requires
        low < high,
    ensures
        low <= r < high,
{
    rand::thread_rng().gen_range(low..high)
}

/// The sixteen bytes of a fresh random (version 4) UUID.
///
/// Wraps `uuid::Uuid::new_v4` and `Uuid::as_bytes`. The contract claims the
/// length, and the version and variant bits that `new_v4` sets: the high
/// nibble of byte 6 is 4 and the two high bits of byte 8 are `10`.
#[verifier::external_body]
fn random_uuid_bytes() -> (b: Vec<u8>)
    ensures
        b@.len() == 16,
        b@[6] / 16 == 4,
        b@[8] / 64 == 2,
{
    uuid::Uuid::new_v4().as_bytes().to_vec()
}

/// The current time, in whole seconds since the Unix epoch.
///
/// Wraps `chrono::Utc::now` and `DateTime::timestamp`. `Utc::now` panics on a
/// clock before the epoch or beyond chrono's range, so every value it returns
/// lies between zero and chrono's last second; nothing else is claimed.
#[verifier::external_body]
pub(crate) fn now_unix_seconds() -> (t: i64)
    ensures
        0 <= t <= MAX_UNIX_SECONDS,
{
    chrono::Utc::now().timestamp()
}

/// The current time, in milliseconds since the Unix epoch.
///
/// Wraps `chrono::Utc::now` and `DateTime::timestamp_millis`; the result lies
/// in chrono's range, and nothing else is claimed.
#[verifier::external_body]
pub(crate) fn now_unix_millis() -> (t: i64)
    ensures
        0 <= t <= MAX_UNIX_SECONDS * 1000 + 999,
{
    chrono::Utc::now().timestamp_millis()
}

/// The `%m%y` rendering, by chrono, of the UTC instant `ts` seconds after the epoch.
pub uninterp spec fn utc_month_year(ts: int) -> Seq<char>;

/// The `%Y%m%d%H%M%S` rendering, by chrono, of the UTC instant `ts` seconds after the epoch.
pub uninterp spec fn utc_compact_datetime(ts: int) -> Seq<char>;

/// The month and two-digit year of the instant `ts`, as `MMYY`.
///
/// Wraps `chrono::DateTime::from_timestamp` and `format("%m%y")`: the result
/// is named [`utc_month_year`]; by chrono's documentation of `%m` and `%y`,
/// it is four ASCII digits whose first two name a month from 01 to 12.
/// `from_timestamp` fails outside chrono's range, hence the bounds.
#[verifier::external_body]
fn month_year_text(ts: i64) -> (s: String)
    requires
        -8334601315200i64 <= ts <= MAX_UNIX_SECONDS,
    ensures
        s@ == utc_month_year(ts as int),
        s@.len() == 4,
        forall|i: int| 0 <= i < 4 ==> '0' <= #[trigger] s@[i] <= '9',
        (s@[0] == '0' && '1' <= s@[1]) || (s@[0] == '1' && s@[1] <= '2'),
{
    chrono::DateTime::from_timestamp(ts, 0).unwrap().format("%m%y").to_string()
}

/// The instant `ts` as `YYYYMMDDHHMMSS`.
///
/// Wraps `chrono::DateTime::from_timestamp` and `format("%Y%m%d%H%M%S")`;
/// the result is named [`utc_compact_datetime`] and nothing more is claimed.
/// `from_timestamp` fails outside chrono's range, hence the bounds.
#[verifier::external_body]
pub(crate) fn compact_datetime_text(ts: i64) -> (s: String)
    requires
        -8334601315200i64 <= ts <= MAX_UNIX_SECONDS,
    ensures
        s@ == utc_compact_datetime(ts as int),
{
    chrono::DateTime::from_timestamp(ts, 0).unwrap().format("%Y%m%d%H%M%S").to_string()
}

/// A six-digit one-time password: a number from 100000 to 999998.
pub open spec fn is_otp_text(s: Seq<char>) -> bool {
    exists|n: int| 100_000 <= n < 999_999 && s == #[trigger] zero_padded(n as nat, 6)
}

/// A twelve-digit kit number: a number from 10^11 to 10^12 - 2, zero-padded to 12.
pub open spec fn is_kit_no_text(s: Seq<char>) -> bool {
    exists|n: int| 100_000_000_000 <= n < 999_999_999_999 && s == #[trigger] zero_padded(n as nat, 12)
}

/// A masked card number: `4804XXXXXXXX` followed by a number from 1000 to 9998.
pub open spec fn is_card_number_text(s: Seq<char>) -> bool {
    exists|n: int| 1000 <= n < 9999 && s == "4804XXXXXXXX"@ + #[trigger] decimal_text(n as nat)
}

/// A bank terminal id: a number from 10^8 to 999999998 in decimal.
pub open spec fn is_bank_tid_text(s: Seq<char>) -> bool {
    exists|n: int| 100_000_000 <= n < 999_999_999 && s == #[trigger] decimal_text(n as nat)
}

/// A session token: the 32 upper-case hex digits of the bytes of a version-4
/// UUID, followed by `=`.
pub open spec fn is_token_text(s: Seq<char>) -> bool {
    exists|b: Seq<u8>|
        b.len() == 16 && b[6] / 16 == 4 && b[8] / 64 == 2 && s == #[trigger] hex_upper(b) + "="@
}

/// A transaction id: a number from 10^8 to 999999998.
pub open spec fn is_txn_id(n: i64) -> bool {
    100_000_000 <= n < 999_999_999
}

/// The expiry, as `MMYY`, of a card issued at `now`: three years of 365 days
/// later. A clock within three years of chrono's last second is taken as
/// that last issuable second.
pub open spec fn expiry_text(now: int) -> Seq<char> {
    let issued = if now > MAX_UNIX_SECONDS - CARD_LIFETIME_SECONDS {
        MAX_UNIX_SECONDS - CARD_LIFETIME_SECONDS
    } else {
        now
    };
    utc_month_year(issued + CARD_LIFETIME_SECONDS)
}

/// The hexadecimal rendering has two digits per byte.
pub proof fn lemma_hex_upper_len(bytes: Seq<u8>)
    ensures
        hex_upper(bytes).len() == 2 * bytes.len(),
    decreases bytes.len(),
{
    if bytes.len() > 0 {
        lemma_hex_upper_len(bytes.drop_last());
    }
}

/// A fresh six-digit one-time password.
pub fn generate_otp() -> (s: String)
    ensures
        is_otp_text(s@),
{
    let n = random_in_range(100_000, 999_999);
    let s = zero_padded_string(n as u64, 6);
    assert(s@ == zero_padded(n as nat, 6));
    s
}

/// A fresh session token: 32 upper-case hex digits of a random UUID and `=`.
pub fn generate_token() -> (s: String)
    ensures
        is_token_text(s@),
        s@.len() == 33,
{
    let bytes = random_uuid_bytes();
    let mut s = hex_upper_string(bytes.as_slice());
    s.append("=");
    proof {
        lemma_hex_upper_len(bytes@);
        reveal_strlit("=");
        assert(s@ == hex_upper(bytes@) + "="@);
    }
    s
}

/// A fresh transaction id.
pub fn generate_txn_id() -> (n: i64)
    ensures
        is_txn_id(n),
{
    random_in_range(100_000_000, 999_999_999)
}

/// A fresh twelve-digit kit number.
pub fn generate_kit_no() -> (s: String)
    ensures
        is_kit_no_text(s@),
{
    let n = random_in_range(100_000_000_000, 999_999_999_999);
    let s = zero_padded_string(n as u64, 12);
    assert(s@ == zero_padded(n as nat, 12));
    s
}

/// A fresh masked card number.
pub fn generate_card_number() -> (s: String)
    ensures
        is_card_number_text(s@),
{
    let n = random_in_range(1000, 9999);
    let mut s = owned("4804XXXXXXXX");
    let digits = decimal_string(n as u64);
    s.append(digits.as_str());
    assert(s@ == "4804XXXXXXXX"@ + decimal_text(n as nat));
    s
}

/// The expiry of a card issued at `now`, as `MMYY`.
pub fn expiry_for(now: i64) -> (s: String)
    requires
        0 <= now,
    ensures
        s@ == expiry_text(now as int),
{
    let issued = if now > MAX_UNIX_SECONDS - CARD_LIFETIME_SECONDS {
        MAX_UNIX_SECONDS - CARD_LIFETIME_SECONDS
    } else {
        now
    };
    month_year_text(issued + CARD_LIFETIME_SECONDS)
}

/// The expiry of a card issued now, as `MMYY`.
pub fn generate_expiry() -> (s: String)
    ensures
        exists|now: int| 0 <= now <= MAX_UNIX_SECONDS && s@ == #[trigger] expiry_text(now),
{
    let now = now_unix_seconds();
    let s = expiry_for(now);
    assert(s@ == expiry_text(now as int));
    s
}

/// A fresh bank terminal id.
pub fn generate_bank_tid() -> (s: String)
    ensures
        is_bank_tid_text(s@),
{
    let n = random_in_range(100_000_000, 999_999_999);
    let s = decimal_string(n as u64);
    assert(s@ == decimal_text(n as nat));
    s
}

} // verus!
