//! A ledger of client accounts with an overdraft limit: validation of
//! incoming movements, their atomic application, and account statements.
pub mod domain;
pub mod errors;
pub mod ledger;
pub mod processor;
pub mod laws;
