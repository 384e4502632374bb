//! Data exchanged with agents.
pub mod agent;
pub mod context;
