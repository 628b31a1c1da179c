//! Business rules of a personal finance ledger: users, accounts and the
//! transfers between them.

pub mod account;
pub mod adapter;
pub mod error;
pub mod schema;
pub mod transaction;
pub mod user;
