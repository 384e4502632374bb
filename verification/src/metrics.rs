//! Names of the metrics that the bridge exports.
use vstd::prelude::*;

verus! {

pub const WEBHOOK_RECEIVED: &'static str = "bridge_webhook_received_total";

pub const WEBHOOK_SIGNATURE_FAILURES: &'static str = "bridge_webhook_signature_failures_total";

pub const BUFFER_FLUSH: &'static str = "bridge_buffer_flush_total";

pub const BUFFER_MSGS_PER_TURN: &'static str = "bridge_buffer_messages_per_turn";

pub const GATE_BLOCK: &'static str = "bridge_gate_block_total";

pub const AGENT_RUN: &'static str = "bridge_agent_run_total";

pub const AGENT_RUN_DURATION: &'static str = "bridge_agent_run_duration_seconds";

pub const AGENT_COST: &'static str = "bridge_agent_cost_usd_total";

pub const CHATWOOT_API: &'static str = "bridge_chatwoot_api_total";

pub const OUTBOUND_MSGS: &'static str = "bridge_outbound_messages_total";

pub const SLA_ESCALATION: &'static str = "bridge_sla_escalation_total";

pub const LOCK_CONTENTION: &'static str = "bridge_lock_contention_total";

pub const AI_RESOLUTION_RATE: &'static str = "bridge_ai_resolution_rate";

} // verus!
