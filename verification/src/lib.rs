//! A fungible-token ledger driven by one operation at a time.

pub mod contract;
pub mod handler;
pub mod io;
pub mod laws;
pub mod store;
pub mod supply;
pub mod tracker;
