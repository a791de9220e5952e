//! Admission of requests by their `Authorization` and `TENANT` headers.

use vstd::prelude::*;

use crate::models::error::{self, ErrorDetail, ErrorDetailView, auth_failed_error, error_view};
use crate::text::{owned, text_eq};

verus! {

/// The configured tokens and tenants against which requests are admitted.
#[derive(Debug)]
pub struct AuthValidator {
    pub valid_tokens: Vec<String>,
    pub valid_tenants: Vec<String>,
}

/// Whether an `Authorization` header carries one of the tokens, bare or after `Bearer `.
pub open spec fn token_accepted(tokens: Seq<Seq<char>>, header: Seq<char>) -> bool {
    exists|i: int|
        0 <= i < tokens.len() && (header == #[trigger] tokens[i] || header == "Bearer "@ + tokens[i])
}

/// The error for a missing or unknown tenant.
pub open spec fn invalid_tenant_error() -> ErrorDetailView {
    error_view("Y104"@, "Invalid or missing TENANT header"@)
}

/// How a request with the given headers is admitted: refused for a missing
/// or unknown token first, then for a missing or unknown tenant.
pub open spec fn admission(
    tokens: Seq<Seq<char>>,
    tenants: Seq<Seq<char>>,
    auth_header: Option<Seq<char>>,
    tenant_header: Option<Seq<char>>,
) -> Option<ErrorDetailView> {
    if !(auth_header matches Some(h) && token_accepted(tokens, h)) {
        Some(auth_failed_error())
    } else if !(tenant_header matches Some(t) && tenants.contains(t)) {
        Some(invalid_tenant_error())
    } else {
        None
    }
}

impl AuthValidator {
    /// Whether the header carries one of the tokens.
    fn has_valid_token(&self, header: &str) -> (b: bool)
        ensures
            b == token_accepted(self.valid_tokens.deep_view(), header@),
    {
        let mut i: usize = 0;
        while i < self.valid_tokens.len()
            invariant
                i <= self.valid_tokens@.len(),
                forall|j: int|
                    0 <= j < i ==> !(header@ == #[trigger] self.valid_tokens.deep_view()[j] || header@
                        == "Bearer "@ + self.valid_tokens.deep_view()[j]),
            decreases self.valid_tokens@.len() - i,
        {
            let t = &self.valid_tokens[i];
            let mut bearer = owned("Bearer ");
            bearer.append(t.as_str());
            if text_eq(t, header) || text_eq(&bearer, header) {
                assert(header@ == self.valid_tokens.deep_view()[i as int] || header@ == "Bearer "@
                    + self.valid_tokens.deep_view()[i as int]);
                return true;
            }
            i = i + 1;
        }
        false
    }

    /// Whether the header names one of the tenants.
    fn has_valid_tenant(&self, header: &str) -> (b: bool)
        ensures
            b == self.valid_tenants.deep_view().contains(header@),
    {
        let mut i: usize = 0;
        while i < self.valid_tenants.len()
            invariant
                i <= self.valid_tenants@.len(),
                forall|j: int| 0 <= j < i ==> #[trigger] self.valid_tenants.deep_view()[j] != header@,
            decreases self.valid_tenants@.len() - i,
        {
            if text_eq(&self.valid_tenants[i], header) {
                assert(self.valid_tenants.deep_view()[i as int] == header@);
                return true;
            }
            i = i + 1;
        }
        false
    }

    /// Admits a request by its `Authorization` and `TENANT` headers, or
    /// answers with the error that refuses it.
    pub fn check(&self, auth_header: Option<&str>, tenant_header: Option<&str>) -> (r: Result<
        (),
        ErrorDetail,
    >)
        ensures
            match (r, admission(
                self.valid_tokens.deep_view(),
                self.valid_tenants.deep_view(),
                match auth_header {
                    Some(h) => Some(h@),
                    None => None,
                },
                match tenant_header {
                    Some(t) => Some(t@),
                    None => None,
                },
            )) {
                (Ok(_), None) => true,
                (Err(e), Some(f)) => e@ == f,
                _ => false,
            },
    {
        let has_valid_token = match auth_header {
            Some(h) => self.has_valid_token(h),
            None => false,
        };
        let has_valid_tenant = match tenant_header {
            Some(t) => self.has_valid_tenant(t),
            None => false,
        };
        if !has_valid_token {
            return Err(error::auth_failed());
        }
        if !has_valid_tenant {
            return Err(ErrorDetail::new("Y104", "Invalid or missing TENANT header"));
        }
        Ok(())
    }
}

} // verus!
