//! Balance bookkeeping and the generation of identifiers.

pub mod balance;
pub mod id_gen;
