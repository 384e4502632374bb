//! The worker: turns of the agent, from the buffer to the help desk.
pub mod ack;
pub mod acquire_lock;
pub mod apply_actions;
pub mod build_context;
pub mod collect_turn;
pub mod consumer;
pub mod finalize;
pub mod inbound_gate;
pub mod outbound_gate;
pub mod pipeline;
pub mod run_agent;
pub mod script;
pub mod state;
