//! Error details returned by the service, and the catalogue of error codes.

use vstd::prelude::*;

use crate::text::{owned, text_eq};

verus! {

/// An error returned to a caller: a code and a message.
#[derive(Debug)]
pub struct ErrorDetail {
    pub code: String,
    pub short_message: String,
    pub detail_message: String,
}

/// The abstract value of an [`ErrorDetail`].
pub struct ErrorDetailView {
    pub code: Seq<char>,
    pub short_message: Seq<char>,
    pub detail_message: Seq<char>,
}

impl View for ErrorDetail {
    type V = ErrorDetailView;

    open spec fn view(&self) -> ErrorDetailView {
        ErrorDetailView {
            code: self.code@,
            short_message: self.short_message@,
            detail_message: self.detail_message@,
        }
    }
}

impl Clone for ErrorDetail {
    fn clone(&self) -> (r: Self)
        ensures
            r == *self,
    {
        ErrorDetail {
            code: self.code.clone(),
            short_message: self.short_message.clone(),
            detail_message: self.detail_message.clone(),
        }
    }
}

/// The abstract value of a result: the view of its value or of its error.
pub open spec fn outcome<T: View>(r: Result<T, ErrorDetail>) -> Result<T::V, ErrorDetailView> {
    match r {
        Ok(v) => Ok(v@),
        Err(e) => Err(e@),
    }
}

/// The error with the given code whose short and detailed messages are both `message`.
pub open spec fn error_view(code: Seq<char>, message: Seq<char>) -> ErrorDetailView {
    ErrorDetailView { code, short_message: message, detail_message: message }
}

/// The HTTP status with which an error code is answered: 401 for the
/// authentication codes, 400 for every other code.
pub open spec fn status_for_code(code: Seq<char>) -> u16 {
    if code == "Y300"@ || code == "Y301"@ || code == "Y302"@ || code == "Y303"@ || code
        == "Y304"@ || code == "Y230"@ {
        401
    } else {
        400
    }
}

impl ErrorDetail {
    /// An error whose short and detailed messages are both `message`.
    pub fn new(code: &str, message: &str) -> (e: ErrorDetail)
        ensures
            e@ == error_view(code@, message@),
    {
        ErrorDetail { code: owned(code), short_message: owned(message), detail_message: owned(message) }
    }

    /// The HTTP status code with which this error is answered.
    pub fn http_status(&self) -> (status: u16)
        ensures
            status == status_for_code(self.code@),
    {
        if text_eq(&self.code, "Y300") || text_eq(&self.code, "Y301") || text_eq(&self.code, "Y302")
            || text_eq(&self.code, "Y303") || text_eq(&self.code, "Y304") {
            401
        } else if text_eq(&self.code, "Y230") {
            401
        } else {
            400
        }
    }
}

// OTP errors
pub const Y101: &'static str = "Y101";

pub const Y102: &'static str = "Y102";

pub const Y103: &'static str = "Y103";

// Data errors
pub const Y104: &'static str = "Y104";

pub const Y105: &'static str = "Y105";

pub const Y106: &'static str = "Y106";

pub const Y109: &'static str = "Y109";

// Transaction errors
pub const Y201: &'static str = "Y201";

pub const Y212: &'static str = "Y212";

pub const Y217: &'static str = "Y217";

pub const Y223: &'static str = "Y223";

pub const Y226: &'static str = "Y226";

pub const Y227: &'static str = "Y227";

// Security errors
pub const Y230: &'static str = "Y230";

// Registration errors
pub const Y503: &'static str = "Y503";

pub const Y508: &'static str = "Y508";

// Card errors
pub const Y3117: &'static str = "Y3117";

pub const Y3122: &'static str = "Y3122";

pub const Y3125: &'static str = "Y3125";

pub const Y3126: &'static str = "Y3126";

/// The error for a mandatory request field that is absent or empty.
pub open spec fn missing_field_error(field: Seq<char>) -> ErrorDetailView {
    error_view("Y105"@, "Mandatory field "@ + field + " is missing"@)
}

/// The error for an entity id that names no known entity.
pub open spec fn entity_not_found_error(entity_id: Seq<char>) -> ErrorDetailView {
    error_view("Y226"@, "Entity Id Invalid: "@ + entity_id)
}

/// The error for a transaction id that names no stored transaction.
pub open spec fn invalid_txn_id_error(id: Seq<char>) -> ErrorDetailView {
    error_view("Y223"@, "Transaction ID "@ + id + " is invalid"@)
}

pub open spec fn insufficient_balance_error() -> ErrorDetailView {
    error_view("Y212"@, "Insufficient Balance"@)
}

pub open spec fn invalid_otp_error() -> ErrorDetailView {
    error_view("Y103"@, "Invalid OTP"@)
}

pub open spec fn otp_expired_error() -> ErrorDetailView {
    error_view("Y101"@, "OTP expired please regenerate OTP"@)
}

pub open spec fn customer_already_registered_error() -> ErrorDetailView {
    error_view("Y503"@, "Customer Already Registered"@)
}

pub open spec fn kit_not_found_error() -> ErrorDetailView {
    error_view("Y3126"@, "Kit not found"@)
}

pub open spec fn invalid_flag_error() -> ErrorDetailView {
    error_view("Y3125"@, "Invalid flag! Valid flags 'UL', 'L', 'BL'"@)
}

pub open spec fn block_old_card_error() -> ErrorDetailView {
    error_view("Y3117"@, "Block old card"@)
}

pub open spec fn auth_failed_error() -> ErrorDetailView {
    error_view("Y230"@, "Authentication Failed"@)
}

pub open spec fn no_data_error() -> ErrorDetailView {
    error_view("Y508"@, "No data exists"@)
}

pub open spec fn kit_entity_mismatch_error() -> ErrorDetailView {
    error_view("Y3122"@, "EntityId to kitNo mismatch"@)
}

/// Reported for a mandatory request field that is absent or empty.
pub fn missing_field(field: &str) -> (e: ErrorDetail)
    ensures
        e@ == missing_field_error(field@),
{
    let mut message = owned("Mandatory field ");
    message.append(field);
    message.append(" is missing");
    ErrorDetail::new(Y105, message.as_str())
}

/// Reported for an entity id that names no known entity.
pub fn entity_not_found(entity_id: &str) -> (e: ErrorDetail)
    ensures
        e@ == entity_not_found_error(entity_id@),
{
    let mut message = owned("Entity Id Invalid: ");
    message.append(entity_id);
    ErrorDetail::new(Y226, message.as_str())
}

pub fn insufficient_balance() -> (e: ErrorDetail)
    ensures
        e@ == insufficient_balance_error(),
{
    ErrorDetail::new(Y212, "Insufficient Balance")
}

pub fn invalid_otp() -> (e: ErrorDetail)
    ensures
        e@ == invalid_otp_error(),
{
    ErrorDetail::new(Y103, "Invalid OTP")
}

pub fn otp_expired() -> (e: ErrorDetail)
    ensures
        e@ == otp_expired_error(),
{
    ErrorDetail::new(Y101, "OTP expired please regenerate OTP")
}

pub fn customer_already_registered() -> (e: ErrorDetail)
    ensures
        e@ == customer_already_registered_error(),
{
    ErrorDetail::new(Y503, "Customer Already Registered")
}

pub fn kit_not_found() -> (e: ErrorDetail)
    ensures
        e@ == kit_not_found_error(),
{
    ErrorDetail::new(Y3126, "Kit not found")
}

pub fn invalid_flag() -> (e: ErrorDetail)
    ensures
        e@ == invalid_flag_error(),
{
    ErrorDetail::new(Y3125, "Invalid flag! Valid flags 'UL', 'L', 'BL'")
}

pub fn block_old_card() -> (e: ErrorDetail)
    ensures
        e@ == block_old_card_error(),
{
    ErrorDetail::new(Y3117, "Block old card")
}

pub fn auth_failed() -> (e: ErrorDetail)
    ensures
        e@ == auth_failed_error(),
{
    ErrorDetail::new(Y230, "Authentication Failed")
}

pub fn no_data() -> (e: ErrorDetail)
    ensures
        e@ == no_data_error(),
{
    ErrorDetail::new(Y508, "No data exists")
}

/// Reported for a transaction id that names no stored transaction.
pub fn invalid_txn_id(id: &str) -> (e: ErrorDetail)
    ensures
        e@ == invalid_txn_id_error(id@),
{
    let mut message = owned("Transaction ID ");
    message.append(id);
    message.append(" is invalid");
    ErrorDetail::new(Y223, message.as_str())
}

pub fn kit_entity_mismatch() -> (e: ErrorDetail)
    ensures
        e@ == kit_entity_mismatch_error(),
{
    ErrorDetail::new(Y3122, "EntityId to kitNo mismatch")
}

} // verus!
