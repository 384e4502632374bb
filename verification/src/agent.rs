//! Access to AI agents: prompts, providers, and the reading of their answers.
pub mod envelope;
pub mod prompt;
pub mod provider;
pub mod registry;
