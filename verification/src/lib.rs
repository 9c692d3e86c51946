//! Order fulfilment across three participants that each own their state:
//! an inventory ledger with reservations, a payment processor, and an order
//! orchestrator that drives reserve, pay, confirm and release as a saga.

pub mod clock;
pub mod http;
pub mod ident;
pub mod inventory;
pub mod keyed;
pub mod order;
pub mod payment;
pub mod postal;
pub mod quantities;
pub mod settings;
pub mod text;
