//! The inventory ledger: stock counters per product, and the reservations
//! that commit stock to orders.

pub mod config;
pub mod handlers;
pub mod ledger;
pub mod models;
pub mod store;
