//! Request admission: the authorization token and tenant checks.

pub mod auth;
