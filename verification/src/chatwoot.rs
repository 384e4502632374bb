//! The help desk: signed webhooks, payloads, and the calls on its API.
pub mod circuit;
pub mod client;
pub mod payload;
pub mod signature;
