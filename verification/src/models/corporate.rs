//! Business entities and their registration request and response.

use vstd::prelude::*;

use crate::text::clone_opt;
use super::card::AddressDto;

verus! {

/// A registered business entity, keyed by entity id.
#[derive(Debug)]
pub struct Corporate {
    pub entity_id: String,
    pub entity_type: String,
    pub business_type: String,
    pub first_name: String,
    pub last_name: Option<String>,
    pub kit_no: String,
    pub created_at: i64,
}

/// The abstract value of a [`Corporate`].
pub struct CorporateView {
    pub entity_id: Seq<char>,
    pub entity_type: Seq<char>,
    pub business_type: Seq<char>,
    pub first_name: Seq<char>,
    pub last_name: Option<Seq<char>>,
    pub kit_no: Seq<char>,
    pub created_at: i64,
}

impl View for Corporate {
    type V = CorporateView;

    open spec fn view(&self) -> CorporateView {
        CorporateView {
            entity_id: self.entity_id@,
            entity_type: self.entity_type@,
            business_type: self.business_type@,
            first_name: self.first_name@,
            last_name: self.last_name.deep_view(),
            kit_no: self.kit_no@,
            created_at: self.created_at,
        }
    }
}

impl Clone for Corporate {
    fn clone(&self) -> (r: Self)
        ensures
            r == *self,
    {
        Corporate {
            entity_id: self.entity_id.clone(),
            entity_type: self.entity_type.clone(),
            business_type: self.business_type.clone(),
            first_name: self.first_name.clone(),
            last_name: clone_opt(&self.last_name),
            kit_no: self.kit_no.clone(),
            created_at: self.created_at,
        }
    }
}

/// A request to register a business entity.
#[derive(Debug)]
pub struct RegisterCorporateRequest {
    pub entity_id: Option<String>,
    pub entity_type: Option<String>,
    pub business_type: Option<String>,
    pub business_id: Option<String>,
    pub title: Option<String>,
    pub first_name: Option<String>,
    pub last_name: Option<String>,
    pub gender: Option<String>,
    pub special_date: Option<String>,
    pub kit_no: Option<String>,
    pub contact_no: Option<String>,
    pub email_address: Option<String>,
    pub address: Option<String>,
    pub address2: Option<String>,
    pub city: Option<String>,
    pub state: Option<String>,
    pub country: Option<String>,
    pub pincode: Option<String>,
    pub id_type: Option<String>,
    pub id_number: Option<String>,
    pub countryof_issue: Option<String>,
    pub dependent: Option<bool>,
    pub id_expiry: Option<String>,
    pub kyc_ref_no: Option<String>,
    pub kyc_status: Option<String>,
    pub country_code: Option<String>,
    pub address_dto: Option<AddressDto>,
    pub contact_no1: Option<String>,
    pub email_address1: Option<String>,
    pub email_address2: Option<String>,
}

/// The answer to a successful business registration.
#[derive(Debug)]
pub struct RegisterCorporateResponse {
    pub entity_id: String,
}

/// The abstract value of a [`RegisterCorporateResponse`].
pub struct RegisterCorporateResponseView {
    pub entity_id: Seq<char>,
}

impl View for RegisterCorporateResponse {
    type V = RegisterCorporateResponseView;

    open spec fn view(&self) -> RegisterCorporateResponseView {
        RegisterCorporateResponseView {
            entity_id: self.entity_id@,
        }
    }
}

} // verus!
