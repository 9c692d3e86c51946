//! The payment processor: payment records, their capture and their refund.

pub mod config;
pub mod handlers;
pub mod models;
pub mod store;
