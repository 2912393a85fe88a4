//! Typed bindings for a remote payments API: form encoding of request parameters, range
//! filters, metadata, cursor pagination and the operations on each resource.
pub mod form;
pub mod params;
pub mod json;
pub mod client;
pub mod error;
pub mod list;
pub mod payment_intents;
pub mod payout;
