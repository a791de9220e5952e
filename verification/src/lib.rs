//! A verified in-memory model of a card-issuance and transaction-management
//! service: customers, corporates, cards, card preferences, balances and
//! transactions, together with the request rules that govern them.

pub mod config;
pub mod text;
pub mod models;
pub mod state;
pub mod services;
pub mod handlers;
pub mod middleware;
pub mod laws;
