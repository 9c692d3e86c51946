//! The order orchestrator: order records, and the saga that prices an order,
//! reserves its stock, captures its payment, and confirms or releases.

pub mod book;
pub mod config;
pub mod handlers;
pub mod models;
pub mod saga;
pub mod store;
