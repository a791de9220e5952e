//! The records the service keeps and the requests and responses it exchanges.

pub mod card;
pub mod corporate;
pub mod customer;
pub mod error;
pub mod transaction;
