//! Individual customers, one-time passwords, and the KYC requests and responses.

use vstd::prelude::*;

use crate::text::clone_opt;

verus! {

/// A registered individual customer, keyed by entity id.
#[derive(Debug)]
pub struct Customer {
    pub entity_id: String,
    pub first_name: String,
    pub middle_name: Option<String>,
    pub last_name: String,
    pub gender: Option<String>,
    pub mobile: String,
    pub email: Option<String>,
    pub token: String,
    pub kyc_status: String,
    pub created_at: i64,
}

/// The abstract value of a [`Customer`].
pub struct CustomerView {
    pub entity_id: Seq<char>,
    pub first_name: Seq<char>,
    pub middle_name: Option<Seq<char>>,
    pub last_name: Seq<char>,
    pub gender: Option<Seq<char>>,
    pub mobile: Seq<char>,
    pub email: Option<Seq<char>>,
    pub token: Seq<char>,
    pub kyc_status: Seq<char>,
    pub created_at: i64,
}

impl View for Customer {
    type V = CustomerView;

    open spec fn view(&self) -> CustomerView {
        CustomerView {
            entity_id: self.entity_id@,
            first_name: self.first_name@,
            middle_name: self.middle_name.deep_view(),
            last_name: self.last_name@,
            gender: self.gender.deep_view(),
            mobile: self.mobile@,
            email: self.email.deep_view(),
            token: self.token@,
            kyc_status: self.kyc_status@,
            created_at: self.created_at,
        }
    }
}

impl Clone for Customer {
    fn clone(&self) -> (r: Self)
        ensures
            r == *self,
    {
        Customer {
            entity_id: self.entity_id.clone(),
            first_name: self.first_name.clone(),
            middle_name: clone_opt(&self.middle_name),
            last_name: self.last_name.clone(),
            gender: clone_opt(&self.gender),
            mobile: self.mobile.clone(),
            email: clone_opt(&self.email),
            token: self.token.clone(),
            kyc_status: self.kyc_status.clone(),
            created_at: self.created_at,
        }
    }
}

/// A one-time password issued to an entity, with the second at which it expires.
#[derive(Debug)]
pub struct OtpRecord {
    pub otp: String,
    pub entity_id: String,
    pub mobile: String,
    pub expires_at: i64,
}

/// The abstract value of a [`OtpRecord`].
pub struct OtpRecordView {
    pub otp: Seq<char>,
    pub entity_id: Seq<char>,
    pub mobile: Seq<char>,
    pub expires_at: i64,
}

impl View for OtpRecord {
    type V = OtpRecordView;

    open spec fn view(&self) -> OtpRecordView {
        OtpRecordView {
            otp: self.otp@,
            entity_id: self.entity_id@,
            mobile: self.mobile@,
            expires_at: self.expires_at,
        }
    }
}

impl Clone for OtpRecord {
    fn clone(&self) -> (r: Self)
        ensures
            r == *self,
    {
        OtpRecord {
            otp: self.otp.clone(),
            entity_id: self.entity_id.clone(),
            mobile: self.mobile.clone(),
            expires_at: self.expires_at,
        }
    }
}

// --- Request/Response types for KYC ---

/// A request for a one-time password.
#[derive(Debug)]
pub struct GenerateOtpRequest {
    pub entity_id: Option<String>,
    pub mobile_number: Option<String>,
}

/// The answer to an OTP request.
#[derive(Debug)]
pub struct GenerateOtpResponse {
    pub success: bool,
    pub entity_id: String,
}

/// The abstract value of a [`GenerateOtpResponse`].
pub struct GenerateOtpResponseView {
    pub success: bool,
    pub entity_id: Seq<char>,
}

impl View for GenerateOtpResponse {
    type V = GenerateOtpResponseView;

    open spec fn view(&self) -> GenerateOtpResponseView {
        GenerateOtpResponseView {
            success: self.success,
            entity_id: self.entity_id@,
        }
    }
}

/// A request to register an individual customer.
#[derive(Debug)]
pub struct RegisterCustomerRequest {
    pub entity_id: Option<String>,
    pub otp: Option<String>,
    pub channel_name: Option<String>,
    pub entity_type: Option<String>,
    pub business_type: Option<String>,
    pub business_id: Option<String>,
    pub title: Option<String>,
    pub first_name: Option<String>,
    pub middle_name: Option<String>,
    pub last_name: Option<String>,
    pub gender: Option<String>,
    pub is_nri_customer: Option<bool>,
    pub is_minor: Option<bool>,
    pub is_dependant: Option<bool>,
    pub marital_status: Option<String>,
    pub country_code: Option<String>,
    pub employment_industry: Option<String>,
    pub employment_type: Option<String>,
    pub plastic_code: Option<String>,
    pub kit_info: Option<Vec<KitInfo>>,
    pub address_info: Option<Vec<AddressInfo>>,
    pub communication_info: Option<Vec<CommunicationInfo>>,
    pub kyc_info: Option<Vec<KycInfo>>,
    pub date_info: Option<Vec<DateInfo>>,
}

/// A card to issue with a registration.
#[derive(Debug)]
pub struct KitInfo {
    pub kit_no: Option<String>,
    pub card_type: Option<String>,
    pub card_category: Option<String>,
    pub card_reg_status: Option<String>,
    pub alias_name: Option<String>,
    pub fourth_line: Option<String>,
}

/// A postal address given with a registration.
#[derive(Debug)]
pub struct AddressInfo {
    pub address_category: Option<String>,
    pub address1: Option<String>,
    pub address2: Option<String>,
    pub address3: Option<String>,
    pub city: Option<String>,
    pub state: Option<String>,
    pub country: Option<String>,
    pub pin_code: Option<String>,
}

/// Contact details given with a registration.
#[derive(Debug)]
pub struct CommunicationInfo {
    pub contact_no: Option<String>,
    pub email_id: Option<String>,
}

/// An identity document given with a registration.
#[derive(Debug)]
pub struct KycInfo {
    pub document_type: Option<String>,
    pub document_no: Option<String>,
    pub document_expiry: Option<String>,
}

/// A dated fact given with a registration.
#[derive(Debug)]
pub struct DateInfo {
    pub date_type: Option<String>,
    pub date: Option<String>,
}

/// The answer to a successful customer registration.
#[derive(Debug)]
pub struct RegisterCustomerResponse {
    pub entity_id: String,
    pub kit_no: String,
    pub token: String,
    pub valid: bool,
}

/// The abstract value of a [`RegisterCustomerResponse`].
pub struct RegisterCustomerResponseView {
    pub entity_id: Seq<char>,
    pub kit_no: Seq<char>,
    pub token: Seq<char>,
    pub valid: bool,
}

impl View for RegisterCustomerResponse {
    type V = RegisterCustomerResponseView;

    open spec fn view(&self) -> RegisterCustomerResponseView {
        RegisterCustomerResponseView {
            entity_id: self.entity_id@,
            kit_no: self.kit_no@,
            token: self.token@,
            valid: self.valid,
        }
    }
}

} // verus!
