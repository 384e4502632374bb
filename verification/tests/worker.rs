use std::time::Duration;

use chatwoot_bridge::json::{F64Bits, JsonValue};
use chatwoot_bridge::model::agent::{Action, Attachment, InboundMessage, Reply};
use chatwoot_bridge::worker::ack::{
    ack_key, ack_ttl_secs, is_muted, pick_ack, pick_ack_at, recency, should_ack, ContactRecency,
    ACK_TEXTS,
};
use chatwoot_bridge::worker::acquire_lock::{
    lock_outcome, lock_request, watchdog_grace, LockOutcome, RELEASE_SCRIPT,
};
use chatwoot_bridge::worker::apply_actions::{
    apply, apply_action, degrade_on_failure, failure_labels, handoff, merge_labels, prune_labels,
    DeskCall, DEGRADATION_TEXT,
};
use chatwoot_bridge::worker::build_context::{
    build_agent_request, normalize_channel, truncate_turn, turn_from,
};
use chatwoot_bridge::worker::collect_turn::{
    apply_input_limit, collected, drained_keys, order_skew, sort_by_created_at, CollectedTurn,
};
use chatwoot_bridge::worker::consumer::{read_job, sweep_job, AgentRunJob, SWEEP_TICK_MS};
use chatwoot_bridge::worker::finalize::{finalize, hash_text, long_run_threshold};
use chatwoot_bridge::worker::outbound_gate::ReviewedResponse;
use chatwoot_bridge::worker::pipeline::{failed_run, plan_turn, TurnPlan};
use chatwoot_bridge::worker::run_agent::{
    agent_err_kind, before_run, is_transient, run_with_fallback, AgentStep,
};
use chatwoot_bridge::worker::script::{play, DeskStep, ScriptAction, ScriptEvent, ScriptStage};
use chatwoot_bridge::worker::state::{
    conversation_state_of, parse_ai_state, ConversationState, StateColumns, WorkerError,
};
use chatwoot_bridge::{
    ActionKind, AgentError, AiState, Config, RawConfig, RunId, StateEvent, DEBOUNCE_ZSET,
    QUEUE_AGENT_RUNS,
};

fn value(v: &serde_json::Value) -> JsonValue {
    match v {
        serde_json::Value::Null => JsonValue::Null,
        serde_json::Value::Bool(b) => JsonValue::Bool(*b),
        serde_json::Value::Number(n) => match n.as_u64() {
            Some(u) => JsonValue::PosInt(u),
            None => JsonValue::NegInt(n.as_i64().unwrap()),
        },
        serde_json::Value::String(s) => JsonValue::Str(s.clone()),
        serde_json::Value::Array(a) => JsonValue::Array(a.iter().map(value).collect()),
        serde_json::Value::Object(m) => {
            JsonValue::Object(m.iter().map(|(k, x)| (k.clone(), value(x))).collect())
        }
    }
}

fn job(text: &str) -> Result<AgentRunJob, WorkerError> {
    read_job(&value(&serde_json::from_str::<serde_json::Value>(text).unwrap()))
}

#[test]
fn parses_minimal_job() {
    let j = job(r#"{"conversation_id":523}"#).unwrap();
    assert_eq!(j.conversation_id, 523);
    assert!(j.reason.is_none());
}

#[test]
fn parses_job_with_reason() {
    let j = job(r#"{"conversation_id":523,"reason":"max_messages"}"#).unwrap();
    assert_eq!(j.reason.as_deref(), Some("max_messages"));
}

#[test]
fn rejects_job_without_conversation_id() {
    assert!(job(r#"{"reason":"x"}"#).is_err());
}

#[test]
fn job_serializes_with_conversation_id() {
    let job = sweep_job("523".to_string(), 1).unwrap();
    assert_eq!(job.get_str("conversation_id"), Some("523"));
}

#[test]
fn tick_is_250ms() {
    assert_eq!(Duration::from_millis(SWEEP_TICK_MS).as_millis(), 250);
}

#[test]
fn swept_jobs_are_read() {
    let j = read_job(&sweep_job("523".to_string(), 1).unwrap()).unwrap();
    assert_eq!(j.conversation_id, 523);
    assert_eq!(j.trigger_reason(), "debounce_expired");
    assert!(sweep_job("523".to_string(), 0).is_none());
}

#[test]
fn broken_jobs_are_refused() {
    let text = |s: &str| job(s).unwrap_err().to_string();
    assert!(text("[]").contains("invalid job payload: expected an object"));
    assert!(text("{}").contains("missing field `conversation_id`"));
    assert!(text(r#"{"conversation_id":"x"}"#).contains("invalid `conversation_id`"));
    assert!(text(r#"{"conversation_id":1,"reason":2}"#).contains("invalid `reason`"));
    assert!(text(r#"{"conversation_id":1,"trace_id":2}"#).contains("invalid `trace_id`"));
    assert!(job(r#"{"conversation_id":-1,"reason":null,"extra":[]}"#).unwrap().reason.is_none());
}

#[test]
fn config_loads_with_defaults() {
    let c = Config::from_raw(RawConfig::default());
    assert_eq!(c.agent.display_name, "Íris");
    assert_eq!(c.buffer.debounce_ms, 6_000);
    assert_eq!(c.rate_limits.max_consecutive_ai_turns, 4);
}

#[test]
fn ack_texts_are_static_and_ptbr() {
    assert!(ACK_TEXTS.iter().all(|t| !t.is_empty()));
    assert!(ACK_TEXTS.iter().any(|t| t.contains("um instante") || t.contains("rapidinho")));
}

#[test]
fn pick_ack_returns_one_of_list() {
    let p = pick_ack();
    assert!(ACK_TEXTS.contains(&p));
}

#[test]
fn mute_detection() {
    let mut conv = ConversationState::default();
    conv.labels = vec!["ia:limitado".into()];
    assert!(is_muted(&conv));
    conv.labels = vec![];
    assert!(!is_muted(&conv));
}

#[test]
fn ack_key_format() {
    assert_eq!(ack_key(523), "ack:conv:523");
}

#[test]
fn should_ack_for_multi_message_turn() {
    let turn = CollectedTurn {
        messages: vec![InboundMessage {
            id: 1,
            content: "veja".into(),
            has_attachment: true,
            ..Default::default()
        }],
    };
    assert!(turn.has_attachment());
}

#[test]
fn a_word_is_sent_only_before_long_runs_of_new_contacts() {
    let slow = turn_from(vec![msg(1, "a", "t1"), msg(2, "b", "t2")]);
    let quick = turn_from(vec![msg(1, "a", "t1")]);
    let new = ContactRecency { first_today: true, idle_secs: 0 };
    let back = ContactRecency { first_today: false, idle_secs: 1801 };
    let busy = ContactRecency { first_today: false, idle_secs: 1800 };
    let conv = ConversationState::default();
    assert!(should_ack(&conv, &slow, new, false));
    assert!(should_ack(&conv, &slow, back, false));
    assert!(!should_ack(&conv, &slow, busy, false));
    assert!(!should_ack(&conv, &slow, new, true));
    assert!(!should_ack(&conv, &quick, new, false));
    let muted = ConversationState { labels: vec!["IA:limitado".into()], ..Default::default() };
    assert!(!should_ack(&muted, &slow, new, false));
    assert_eq!(pick_ack_at(5), ACK_TEXTS[1]);
    assert_eq!(ack_ttl_secs(1000), 60);
    assert_eq!(ack_ttl_secs(600_000), 600);
    assert_eq!(ack_ttl_secs(600_500), 601);
    assert_eq!(ack_ttl_secs(60_001), 61);
    assert_eq!(ack_ttl_secs(0), 60);
    assert_eq!(ack_ttl_secs(u64::MAX), u64::MAX / 1000 + 1);
}

#[test]
fn lua_release_script_is_token_guarded() {
    assert!(RELEASE_SCRIPT.contains("get', KEYS[1]) == ARGV[1]"));
    assert!(RELEASE_SCRIPT.contains("redis.call('del'"));
}

#[test]
fn lock_key_format() {
    assert_eq!(chatwoot_bridge::lock_key(523), "lock:conv:523");
}

#[test]
fn zset_and_queue_constants() {
    assert_eq!(DEBOUNCE_ZSET, "debounce:zset");
    assert_eq!(QUEUE_AGENT_RUNS, "queue:agent_runs");
}

#[test]
fn locks_are_taken_or_put_off() {
    let r = lock_request(523);
    assert_eq!(r.key, "lock:conv:523");
    assert_eq!(r.ttl_ms, 90_000);
    let token = r.token.clone();
    match lock_outcome(r, true, 10) {
        LockOutcome::Acquired(g) => {
            assert_eq!(g.token, token);
            assert_eq!(g.key(), "lock:conv:523");
        }
        other => panic!("{other:?}"),
    }
    match lock_outcome(lock_request(523), false, 10) {
        LockOutcome::Contended { member, score } => {
            assert_eq!(member, "523");
            assert_eq!(score, 2010);
        }
        other => panic!("{other:?}"),
    }
    assert_eq!(watchdog_grace(), Duration::from_secs(60));
}

#[test]
fn send_message_action_is_noop_in_apply_action() {
    let a = Action { kind: ActionKind::SendMessage, ..Default::default() };
    assert_eq!(a.kind.as_str(), "send_message");
    assert!(apply_action(&a).is_none());
}

#[test]
fn resolved_is_blocked_before_call() {
    let a = Action {
        kind: ActionKind::SetStatus,
        status: Some("resolved".into()),
        ..Default::default()
    };
    assert_eq!(a.status.as_deref(), Some("resolved"));
    assert!(apply_action(&a).is_none());
}

#[test]
fn actions_become_calls() {
    let a = Action {
        kind: ActionKind::SetStatus,
        status: Some("open".into()),
        ..Default::default()
    };
    assert!(matches!(
        apply_action(&a),
        Some(DeskStep::Call { call: DeskCall::ToggleStatus(s), must: false }) if s == "open"
    ));
    let status = |s: &str| {
        apply_action(&Action {
            kind: ActionKind::SetStatus,
            status: Some(s.into()),
            ..Default::default()
        })
    };
    assert!(matches!(
        status("OPEN"),
        Some(DeskStep::Call { call: DeskCall::ToggleStatus(s), must: false }) if s == "OPEN"
    ));
    assert!(matches!(
        status("pending"),
        Some(DeskStep::Call { call: DeskCall::ToggleStatus(s), must: false }) if s == "pending"
    ));
    for s in ["resolved", "Resolved", "snoozed", "closed", ""] {
        assert!(status(s).is_none());
    }
    let a = Action { kind: ActionKind::Snooze, ..Default::default() };
    assert!(matches!(
        apply_action(&a),
        Some(DeskStep::Call { call: DeskCall::ToggleStatus(s), must: false }) if s == "snoozed"
    ));
    let a = Action { kind: ActionKind::AssignTeam, team_id: Some(3), ..Default::default() };
    assert!(matches!(
        apply_action(&a),
        Some(DeskStep::Call { call: DeskCall::AssignTeam(3), must: false })
    ));
    let a = Action { kind: ActionKind::AddLabels, labels: vec!["x".into()], ..Default::default() };
    assert!(matches!(apply_action(&a), Some(DeskStep::AddLabels(_))));
    let a = Action { kind: ActionKind::RemoveLabels, labels: vec!["x".into()], ..Default::default() };
    assert!(matches!(apply_action(&a), Some(DeskStep::RemoveLabels(_))));
}

fn texts(v: &[&str]) -> Vec<String> {
    v.iter().map(|s| s.to_string()).collect()
}

#[test]
fn labels_are_joined_and_pruned() {
    assert_eq!(merge_labels(texts(&["a", "b"]), &texts(&["B", "c"])), texts(&["a", "b", "c"]));
    let once = merge_labels(texts(&["a"]), &texts(&["b"]));
    assert_eq!(merge_labels(once.clone(), &texts(&["b"])), once);
    assert_eq!(prune_labels(texts(&["a", "b", "A"]), &texts(&["a"])), texts(&["b"]));
    assert_eq!(failure_labels(texts(&["a"])), Some(texts(&["a", "ia:falha"])));
    assert_eq!(failure_labels(texts(&["ia:falha"])), None);
}

#[test]
fn a_failed_run_tells_the_contact_and_calls_a_human() {
    let p = degrade_on_failure(4, RunId(0x0f), "boom");
    assert_eq!(p.len(), 5);
    assert!(matches!(
        &p[0],
        DeskStep::Call { call: DeskCall::SendMessage(s), must: false } if s == DEGRADATION_TEXT
    ));
    assert!(matches!(
        &p[1],
        DeskStep::Call { call: DeskCall::ToggleStatus(s), must: true } if s == "open"
    ));
    assert!(matches!(&p[2], DeskStep::Call { call: DeskCall::AssignTeam(4), must: true }));
    assert!(matches!(&p[3], DeskStep::MarkFailed));
    assert!(matches!(
        &p[4],
        DeskStep::Call { call: DeskCall::SendPrivateNote(s), must: true }
            if s == "degradacao tecnica — run_id: 00000000-0000-0000-0000-00000000000f — erro: boom"
    ));
    assert_eq!(handoff(4, Some("pediu humano")).len(), handoff(4, None).len() + 1);
    let f = failed_run(&AgentError::Timeout, 1500);
    assert_eq!(f.status, "failed");
    assert_eq!(f.error_kind, Some("timeout"));
    assert_eq!(f.latency_ms, 1500);
}

#[test]
fn an_answer_is_applied() {
    let reviewed = ReviewedResponse {
        run_id: None,
        reply: Some(Reply { text: "oi".into(), content_type: None }),
        actions: vec![Action { kind: ActionKind::AddLabels, ..Default::default() }],
        handoff_required: false,
        handoff_reason: None,
        modifications: vec![],
        blocked: false,
        block_reason: None,
    };
    let p = apply(&reviewed, 4);
    assert_eq!(p.len(), 3);
    assert!(matches!(
        &p[0],
        DeskStep::Call { call: DeskCall::SendMessage(s), must: true } if s == "oi"
    ));
    assert!(matches!(&p[1], DeskStep::Remember(s) if s == "oi"));
    assert!(matches!(&p[2], DeskStep::AddLabels(_)));
    let handed = ReviewedResponse {
        blocked: true,
        handoff_required: true,
        handoff_reason: Some("pediu".into()),
        ..reviewed
    };
    let p = apply(&handed, 4);
    assert_eq!(p.len(), 4);
    assert!(matches!(&p[2], DeskStep::Call { call: DeskCall::AssignTeam(4), must: true }));
    assert!(matches!(
        &p[3],
        DeskStep::Call { call: DeskCall::SendPrivateNote(s), must: true }
            if s == "handoff solicitado pela IA: pediu"
    ));
}

#[test]
fn a_requested_handoff_is_carried_out() {
    let reviewed = ReviewedResponse {
        run_id: None,
        reply: None,
        actions: vec![Action { kind: ActionKind::RequestHandoff, ..Default::default() }],
        handoff_required: false,
        handoff_reason: None,
        modifications: vec![],
        blocked: false,
        block_reason: None,
    };
    let p = apply(&reviewed, 4);
    assert_eq!(p.len(), 2);
    assert!(matches!(
        &p[0],
        DeskStep::Call { call: DeskCall::ToggleStatus(s), must: true } if s == "open"
    ));
    assert!(matches!(&p[1], DeskStep::Call { call: DeskCall::AssignTeam(4), must: true }));
    let quiet = ReviewedResponse { actions: vec![], ..reviewed };
    assert!(apply(&quiet, 4).is_empty());
}

#[test]
fn a_script_reads_labels_before_it_writes_them() {
    let script = vec![DeskStep::AddLabels(texts(&["b"])), DeskStep::MarkFailed];
    let (s, a) = play(&script, ScriptStage::Ready, ScriptEvent::Begin);
    assert_eq!(s, ScriptStage::Reading(0));
    assert!(matches!(a, ScriptAction::ReadLabels));
    let (s, a) = play(&script, s, ScriptEvent::Labels(texts(&["a"])));
    assert!(matches!(a, ScriptAction::Call(DeskCall::SetLabels(v)) if v == texts(&["a", "b"])));
    let (s, a) = play(&script, s, ScriptEvent::Failed);
    assert_eq!(s, ScriptStage::Reading(1));
    assert!(matches!(a, ScriptAction::ReadLabels));
    let (s2, a) = play(&script, s, ScriptEvent::Labels(texts(&["a", "IA:falha"])));
    assert_eq!(s2, ScriptStage::Over { ok: true });
    assert!(matches!(a, ScriptAction::Finish));
    let (s3, a) = play(&script, s, ScriptEvent::Failed);
    assert_eq!(s3, ScriptStage::Over { ok: true });
    assert!(matches!(a, ScriptAction::Finish));
    let (s, a) = play(&script, s, ScriptEvent::Labels(texts(&["a"])));
    assert!(
        matches!(a, ScriptAction::Call(DeskCall::SetLabels(v)) if v == texts(&["a", "ia:falha"]))
    );
    let (s, _) = play(&script, s, ScriptEvent::Failed);
    assert_eq!(s, ScriptStage::Over { ok: false });
}

#[test]
fn labels_that_cannot_be_read_are_not_written() {
    let script = degrade_on_failure(4, RunId(0x0f), "boom");
    assert!(matches!(script[3], DeskStep::MarkFailed));
    let (s, a) = play(&script, ScriptStage::Reading(3), ScriptEvent::Failed);
    assert_eq!(s, ScriptStage::Doing(4));
    assert!(matches!(a, ScriptAction::Call(DeskCall::SendPrivateNote(_))));
}

#[test]
fn only_calls_that_must_succeed_end_a_script() {
    let script = vec![
        DeskStep::Call { call: DeskCall::SetPriority("high".into()), must: false },
        DeskStep::RemoveLabels(texts(&["a"])),
        DeskStep::Call { call: DeskCall::AssignTeam(4), must: true },
    ];
    let (s, a) = play(&script, ScriptStage::Ready, ScriptEvent::Begin);
    assert!(matches!(a, ScriptAction::Call(DeskCall::SetPriority(p)) if p == "high"));
    let (s, _) = play(&script, s, ScriptEvent::Failed);
    assert_eq!(s, ScriptStage::Reading(1));
    let (s, a) = play(&script, s, ScriptEvent::Failed);
    assert_eq!(s, ScriptStage::Doing(2));
    assert!(matches!(a, ScriptAction::Call(DeskCall::AssignTeam(4))));
    assert_eq!(play(&script, s, ScriptEvent::Failed).0, ScriptStage::Over { ok: false });
    assert_eq!(play(&script, s, ScriptEvent::Done).0, ScriptStage::Over { ok: true });
    assert!(matches!(play(&script, s, ScriptEvent::Begin).1, ScriptAction::Ignore));
}

#[test]
fn normalizes_chatwoot_channel_enum() {
    assert_eq!(normalize_channel("Channel::Whatsapp"), "whatsapp");
    assert_eq!(normalize_channel("Channel::Instagram::Direct"), "instagram");
    assert_eq!(normalize_channel("Email::Channel"), "email");
    assert_eq!(normalize_channel("Channel::WebWidget"), "widget");
    assert_eq!(normalize_channel(""), "whatsapp");
}

#[test]
fn request_has_session_key_and_allowed_actions() {
    let cfg = Config::default();
    let mut state = ConversationState::default();
    state.account_id = 1;
    state.contact_id = 88;
    let turn = turn_from(vec![InboundMessage {
        id: 1,
        content: "oi".into(),
        created_at: "2026-07-28T12:00:00Z".into(),
        ..Default::default()
    }]);
    let req = build_agent_request(&cfg, RunId::default(), 523, &state, &turn, None);
    assert_eq!(req.session_key, "cw:1:523");
    assert!(req.allowed_actions.contains(&ActionKind::SendMessage));
    assert!(!req.allowed_actions.contains(&ActionKind::CallAgent));
    assert_eq!(req.locale, "pt-BR");
}

fn msg(id: i64, content: &str, at: &str) -> InboundMessage {
    InboundMessage { id, content: content.into(), created_at: at.into(), ..Default::default() }
}

#[test]
fn coalesce_preserves_boundaries() {
    let t = CollectedTurn {
        messages: vec![
            msg(1, "bom dia", "2026-07-28T12:00:00Z"),
            msg(2, "preciso do DAS", "2026-07-28T12:00:01Z"),
        ],
    };
    assert_eq!(t.coalesced_text(), "bom dia\npreciso do DAS");
}

#[test]
fn sorts_by_created_at() {
    let mut t = CollectedTurn {
        messages: vec![msg(2, "b", "2026-07-28T12:00:01Z"), msg(1, "a", "2026-07-28T12:00:00Z")],
    };
    t.messages = sort_by_created_at(t.messages);
    assert_eq!(t.messages[0].id, 1);
}

#[test]
fn truncates_long_content_with_marker() {
    let m = msg(1, &"x".repeat(5000), "2026-07-28T12:00:00Z");
    let mut v = vec![m.clone()];
    apply_input_limit(&mut v, 4000);
    assert!(v[0].content.ends_with("[...]"));
    assert!(v[0].content.chars().count() <= 4000 + "[...]".chars().count());
    assert_eq!(m.content.chars().count(), 5000);
}

#[test]
fn detects_attachment() {
    let mut m = msg(1, "veja o anexo", "2026-07-28T12:00:00Z");
    m.has_attachment = true;
    m.attachments.push(Attachment {
        url: "https://x/p.pdf".into(),
        mime: "application/pdf".into(),
        name: "guia.pdf".into(),
    });
    let t = CollectedTurn { messages: vec![m] };
    assert!(t.has_attachment());
    assert!(t.total_chars() > 0);
}

#[test]
fn message_ids_collected() {
    let t = CollectedTurn { messages: vec![msg(10, "a", "t1"), msg(20, "b", "t2")] };
    assert_eq!(t.message_ids(), vec![10, 20]);
}

#[test]
fn equal_times_keep_their_order() {
    let t = collected(vec![msg(3, "c", "t2"), msg(1, "a", "t1"), msg(2, "b", "t1")]);
    assert_eq!(t.message_ids(), vec![1, 2, 3]);
    assert_eq!(drained_keys(5)[0], "buf:5");
    assert_eq!(order_skew(), Duration::from_millis(1000));
    let mut t = turn_from(vec![msg(1, &"x".repeat(20), "t")]);
    truncate_turn(&mut t, 10);
    let once = t.messages[0].content.clone();
    truncate_turn(&mut t, once.chars().count());
    assert_eq!(t.messages[0].content, once);
}

#[test]
fn hash_is_deterministic() {
    assert_eq!(hash_text("bom dia"), hash_text("bom dia"));
    assert_ne!(hash_text("bom dia"), hash_text("boa tarde"));
}

#[test]
fn hash_is_hex_64bit() {
    let h = hash_text("x");
    assert_eq!(h.len(), 16);
    assert!(h.chars().all(|c| c.is_ascii_hexdigit()));
}

#[test]
fn hash_of_known_texts() {
    assert_eq!(hash_text(""), "cbf29ce484222325");
    assert_eq!(hash_text("a"), "af63dc4c8601ec8c");
}

#[test]
fn long_run_threshold_is_60s() {
    assert_eq!(long_run_threshold(), Duration::from_secs(60));
}

#[test]
fn transition_ai_responded_from_thinking() {
    let s = AiState::AiThinking;
    let n = s.transition(&StateEvent::AiResponded).unwrap();
    assert_eq!(n, AiState::AiActive);
}

#[test]
fn the_end_of_a_run_is_written_down() {
    let state = ConversationState { prior_ai_turns_in_row: 2, ..Default::default() };
    let reviewed = ReviewedResponse {
        run_id: None,
        reply: Some(Reply { text: "a".into(), content_type: None }),
        actions: vec![],
        handoff_required: false,
        handoff_reason: None,
        modifications: vec![],
        blocked: false,
        block_reason: None,
    };
    let f = finalize(&state, &reviewed, 61_000);
    assert_eq!(f.ai_state, AiState::AiActive);
    assert_eq!(f.prior_ai_turns_in_row, 1);
    assert_eq!(f.last_ai_msg_hash.as_deref(), Some("af63dc4c8601ec8c"));
    assert!(f.was_long);
    assert_eq!(f.latency_ms, 61_000);
}

#[test]
fn classifies_transient() {
    assert!(is_transient(&AgentError::Timeout));
    assert!(is_transient(&AgentError::ProviderError("x".into())));
    assert!(is_transient(&AgentError::RateLimited));
    assert!(!is_transient(&AgentError::AuthError));
    assert!(!is_transient(&AgentError::BudgetExceeded));
    assert!(!is_transient(&AgentError::InvalidResponse("x".into())));
}

#[test]
fn a_spent_budget_stops_the_run() {
    let bits = |f: f64| F64Bits { bits: f.to_bits() };
    assert!(matches!(before_run(Some(bits(25.0)), bits(25.0)), AgentStep::Refuse(AgentError::BudgetExceeded)));
    assert!(matches!(before_run(Some(bits(24.9)), bits(25.0)), AgentStep::RunPrimary));
    assert!(matches!(before_run(None, bits(25.0)), AgentStep::RunPrimary));
    assert!(matches!(
        run_with_fallback(Err(AgentError::Timeout), Some(Err(AgentError::AuthError))),
        Err(AgentError::AuthError)
    ));
    assert!(matches!(run_with_fallback(Err(AgentError::Timeout), None), Err(AgentError::Timeout)));
    assert_eq!(agent_err_kind(&AgentError::BudgetExceeded), "budget_exceeded");
    assert_eq!(agent_err_kind(&AgentError::InvalidResponse("x".into())), "invalid_response");
}

#[test]
fn a_blocked_turn_makes_no_request() {
    let cfg = Config::default();
    let state = ConversationState { ai_state: AiState::AiPausedManual, ..Default::default() };
    let turn = turn_from(vec![msg(1, "oi", "t")]);
    assert!(matches!(
        plan_turn(&cfg, RunId::default(), 1, &state, &turn, None),
        TurnPlan::Blocked { rule, .. } if rule == "G5"
    ));
}

#[test]
fn stored_rows_become_states() {
    let c = StateColumns {
        conversation_id: None,
        account_id: Some(1),
        inbox_id: None,
        contact_id: None,
        channel: None,
        ai_state: Some("human_handling".into()),
        chatwoot_status: None,
        assignee_id: None,
        team_id: None,
        labels: None,
        provider_session_id: None,
        prior_ai_turns_in_row: Some(3),
        last_ai_msg_hash: None,
        paused_until: None,
        pause_reason: None,
    };
    let s = conversation_state_of(523, c);
    assert_eq!(s.conversation_id, 523);
    assert_eq!(s.ai_state, AiState::HumanHandling);
    assert_eq!(s.prior_ai_turns_in_row, 3);
    assert_eq!(parse_ai_state("closed"), AiState::Closed);
    assert_eq!(WorkerError::LockContention.to_string(), "lock contention");
}

#[test]
fn the_recency_of_a_contact() {
    const DAY: i64 = 86_400_000_000;
    let r = recency(None, 5);
    assert!(r.first_today);
    assert_eq!(r.idle_secs, u64::MAX);
    let r = recency(Some(DAY + 1_000_000), DAY + 61_500_000);
    assert!(!r.first_today);
    assert_eq!(r.idle_secs, 60);
    assert!(recency(Some(DAY - 1), DAY).first_today);
    assert!(recency(Some(-1), 0).first_today);
    assert!(!recency(Some(-DAY), -1).first_today);
    assert_eq!(recency(Some(10), 5).idle_secs, 0);
    assert_eq!(recency(Some(i64::MIN), i64::MAX).idle_secs, 18_446_744_073_709);
}

#[test]
fn long_messages_are_cut_for_the_agent() {
    let turn = turn_from(vec![msg(1, &"é".repeat(4001), "t"), msg(2, &"x".repeat(4000), "t")]);
    let cfg = Config::default();
    let state = ConversationState::default();
    let req = build_agent_request(&cfg, RunId::default(), 523, &state, &turn, None);
    assert_eq!(req.turn[0].content, format!("{}[...]", "é".repeat(4000)));
    assert_eq!(req.turn[1].content, "x".repeat(4000));
    assert_eq!(turn.messages[0].content.chars().count(), 4001);
}
