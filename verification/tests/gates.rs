use chatwoot_bridge::model::agent::{Action, AgentResponse, InboundMessage, Reply};
use chatwoot_bridge::worker::inbound_gate;
use chatwoot_bridge::worker::inbound_gate::{allowed_actions_for_turn, GateDecision};
use chatwoot_bridge::worker::outbound_gate::{
    apply_redaction, last_outbound_key, loop_verdict, normalize_for_similarity, record,
    strip_markers, truncate_to_sentence, try_evaluate, ReviewedResponse,
};
use chatwoot_bridge::worker::state::ConversationState;
use chatwoot_bridge::{ActionKind, AiState, Config};

fn state() -> ConversationState {
    ConversationState { ai_state: AiState::AiActive, ..Default::default() }
}

fn turn() -> Vec<InboundMessage> {
    vec![InboundMessage {
        id: 1,
        content: "bom dia".into(),
        sender_kind: "contact".into(),
        created_at: "2026-07-28T12:00:00Z".into(),
        ..Default::default()
    }]
}

fn decide(s: &ConversationState, c: &Config, t: &Vec<InboundMessage>) -> GateDecision {
    inbound_gate::evaluate(s, c, t).unwrap()
}

#[test]
fn allows_happy_path() {
    let d = decide(&state(), &Config::default(), &turn());
    assert!(d.is_allowed());
}

#[test]
fn g4_blocks_empty_no_attachment() {
    let mut t = turn();
    t[0].content = "   ".into();
    let d = decide(&state(), &Config::default(), &t);
    assert!(matches!(d, GateDecision::Block { rule, .. } if rule == "G4"));
}

#[test]
fn g5_blocks_when_paused() {
    let mut s = state();
    s.ai_state = AiState::AiPausedManual;
    let d = decide(&s, &Config::default(), &turn());
    assert!(matches!(d, GateDecision::Block { rule, .. } if rule == "G5"));
}

#[test]
fn g6_blocks_on_block_label() {
    let mut s = state();
    s.labels = vec!["ia:off".into()];
    let d = decide(&s, &Config::default(), &turn());
    assert!(matches!(d, GateDecision::Block { rule, .. } if rule == "G6"));
}

#[test]
fn g7_blocks_when_inbox_not_enabled() {
    let mut cfg = Config::default();
    cfg.chatwoot.ai_enabled_inboxes = vec![3];
    let mut s = state();
    s.inbox_id = 9;
    let d = decide(&s, &cfg, &turn());
    assert!(matches!(d, GateDecision::Block { rule, .. } if rule == "G7"));
}

#[test]
fn g8_blocks_loop_guard() {
    let mut s = state();
    s.prior_ai_turns_in_row = 4;
    let d = decide(&s, &Config::default(), &turn());
    assert!(matches!(d, GateDecision::Block { rule, .. } if rule == "G8"));
}

#[test]
fn g11_blocks_on_kill_switch() {
    let mut cfg = Config::default();
    cfg.agent.ai_enabled = false;
    let d = decide(&state(), &cfg, &turn());
    assert!(matches!(d, GateDecision::Block { rule, .. } if rule == "G11"));
}

#[test]
fn g2_blocks_agent_bot_echo() {
    let mut t = turn();
    t[0].sender_kind = "AgentBot".into();
    let d = decide(&state(), &Config::default(), &t);
    assert!(matches!(d, GateDecision::Block { rule, .. } if rule == "G2"));
}

#[test]
fn first_block_wins() {
    let mut cfg = Config::default();
    cfg.agent.ai_enabled = false;
    let mut s = state();
    s.ai_state = AiState::AiPausedManual;
    let d = decide(&s, &cfg, &turn());
    assert!(matches!(d, GateDecision::Block { rule, .. } if rule == "G5"));
}

#[test]
fn no_tools_are_allowed_in_a_turn() {
    let a = allowed_actions_for_turn(&Config::default());
    assert!(!a.contains(&ActionKind::CallTool));
    assert!(!a.contains(&ActionKind::CallAgent));
    assert_eq!(a.len(), 11);
}

fn resp(text: &str) -> AgentResponse {
    AgentResponse {
        reply: Some(Reply { text: text.into(), content_type: Some("text".into()) }),
        actions: vec![],
        ..Default::default()
    }
}

fn st() -> ConversationState {
    ConversationState::default()
}

fn review(r: &AgentResponse, last: Option<&str>) -> ReviewedResponse {
    try_evaluate(r, &st(), &Config::default(), last).unwrap()
}

#[test]
fn s3_truncates_long_reply() {
    let long = "a".repeat(5000);
    let r = review(&resp(&long), None);
    assert!(r.reply.unwrap().text.ends_with("[...]"));
    assert!(r.modifications.contains(&"S3"));
}

#[test]
fn s5_redacts_cpf() {
    let r = review(&resp("meu cpf e 123.456.789-09"), None);
    let t = r.reply.unwrap().text;
    assert!(t.contains("[REDIGIDO]"));
    assert!(!t.contains("123.456.789-09"));
}

#[test]
fn s9_drops_resolved_status() {
    let mut s = resp("ok");
    s.actions = vec![Action {
        kind: ActionKind::SetStatus,
        status: Some("resolved".into()),
        ..Default::default()
    }];
    let r = review(&s, None);
    assert!(r.actions[0].status.is_none());
    assert!(r.modifications.contains(&"S9"));
}

#[test]
fn s6_blocks_identical_reply() {
    let r = review(&resp("bom dia"), Some("bom dia"));
    assert!(r.blocked);
    assert!(r.block_reason.as_deref().unwrap().starts_with("S6"));
}

#[test]
fn s6_passes_different_reply() {
    let r = review(&resp("sua guia do DAS vence dia 20"), Some("bom dia, tudo bem?"));
    assert!(!r.blocked);
}

#[test]
fn s4_drops_explicit_send_message() {
    let mut s = resp("oi");
    s.actions = vec![Action { kind: ActionKind::SendMessage, ..Default::default() }];
    let r = review(&s, None);
    assert!(r.actions.iter().all(|a| a.kind != ActionKind::SendMessage));
}

#[test]
fn s7_strips_thinking_tags() {
    let r = review(&resp("<thinking>plan</thinking>resposta"), None);
    assert!(!r.reply.unwrap().text.contains("thinking"));
}

#[test]
fn s1_blocks_empty_envelope() {
    let s = AgentResponse::default();
    let r = review(&s, None);
    assert!(r.blocked);
}

#[test]
fn s10_defers_call_tool() {
    let mut s = resp("ok");
    s.actions = vec![Action {
        kind: ActionKind::CallTool,
        tool: Some("erp.emitir_nf".into()),
        ..Default::default()
    }];
    let r = review(&s, None);
    assert!(r.actions.is_empty());
    assert!(r.modifications.contains(&"S10"));
}

#[test]
fn truncate_keeps_sentence_boundary() {
    let t = truncate_to_sentence("uma frase. outra coisa que continua", 15);
    assert!(t.ends_with("[...]"));
    assert!(t.contains("frase."));
}

#[test]
fn cuts_are_exact() {
    assert_eq!(truncate_to_sentence("uma frase. outra coisa que continua", 15), "uma frase.[...]");
    assert_eq!(truncate_to_sentence("curta. e mais", 12), "curta.[...]");
    assert_eq!(truncate_to_sentence("sem fim nenhum", 12), "sem fim[...]");
    assert_eq!(truncate_to_sentence("sem fim nenhum", 5), "[...]");
    assert_eq!(truncate_to_sentence("sem fim nenhum", 3), "sem");
    assert_eq!(truncate_to_sentence("sem fim nenhum", 0), "");
}

#[test]
fn no_reply_is_longer_than_the_limit() {
    let mut config = Config::default();
    config.agent.max_output_chars = 12;
    let r = try_evaluate(&resp("uma frase comprida demais"), &st(), &config, None).unwrap();
    assert_eq!(r.reply.unwrap().text, "uma fra[...]");
    assert_eq!(r.modifications, vec!["S3"]);
    let r = try_evaluate(&resp("ok token:abc"), &st(), &config, None).unwrap();
    assert_eq!(r.reply.unwrap().text, "ok [RED[...]");
    assert_eq!(r.modifications, vec!["S5", "S3"]);
    config.agent.max_output_chars = 3;
    let r = try_evaluate(&resp("abcd"), &st(), &config, None).unwrap();
    assert_eq!(r.reply.unwrap().text, "abc");
    assert_eq!(r.modifications, vec!["S3"]);
}

#[test]
fn a_clean_reply_passes() {
    let r = review(&resp("tudo certo"), None);
    assert_eq!(r.reply.unwrap().text, "tudo certo");
    assert!(!r.blocked);
    assert!(r.modifications.is_empty());
}

#[test]
fn similar_replies_are_told_apart_by_their_score() {
    assert!(loop_verdict(1.0f64.to_bits()).is_some());
    assert!(loop_verdict(0.5f64.to_bits()).is_none());
    let r = review(&resp("Bom   DIA"), Some("bom dia"));
    assert!(r.blocked);
    assert_eq!(normalize_for_similarity("  Bom \t DIA "), "bom dia");
}

#[test]
fn markers_and_redaction() {
    let (t, hit) = strip_markers("<thinking>x".to_string());
    assert!(hit);
    assert_eq!(t, "x");
    let (t, hit) = apply_redaction("a".to_string(), true, "b".to_string());
    assert_eq!((t.as_str(), hit), ("b", true));
    let (t, hit) = apply_redaction("a".to_string(), false, "b".to_string());
    assert_eq!((t.as_str(), hit), ("a", false));
}

#[test]
fn reviews_are_recorded() {
    assert!(record(&review(&resp("tudo certo"), None)).is_none());
    let cut = record(&review(&resp(&"a".repeat(5000)), None)).unwrap();
    assert!(cut.applied.contains(&"S3"));
    let blocked = record(&review(&AgentResponse::default(), None)).unwrap();
    assert!(blocked.reason.is_some());
    assert_eq!(last_outbound_key(523), "lastout:523");
}
