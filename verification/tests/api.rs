use chatwoot_bridge::api::{
    account_event, buffer_meta_keys, buffer_step, buffered_message, conversation_dedup_key,
    duplicate_reply, handle_conversation_created, handle_conversation_updated,
    handle_human_message, handle_status_changed, health_reply, inbound_log, intake, intake_reply,
    intake_result, invalid_json_reply, parse_ai_state, processed_reply, run_job, status_event,
    status_to_ai_state, verify_request, verify_request_at, AccountEvent, BufferStep, Intake,
};
use chatwoot_bridge::chatwoot::payload::{
    AccountInfo, AgentBotWebhookPayload, AgentInfo, ConversationMeta, ConversationSummary,
    SenderInfo, TeamInfo,
};
use chatwoot_bridge::config::BufferConfig;
use chatwoot_bridge::json::JsonValue;
use chatwoot_bridge::worker::consumer::read_job;
use chatwoot_bridge::{AiState, SecretString, StateEvent};
use hmac::{Hmac, Mac};
use sha2::Sha256;

fn sign(secret: &[u8], ts: &str, body: &[u8]) -> String {
    let mut mac = Hmac::<Sha256>::new_from_slice(secret).unwrap();
    mac.update(ts.as_bytes());
    mac.update(b".");
    mac.update(body);
    format!("sha256={}", hex::encode(mac.finalize().into_bytes()))
}

fn secrets() -> Vec<SecretString> {
    vec![SecretString::new("old".to_string()), SecretString::new("new".to_string())]
}

#[test]
fn webhooks_are_accepted_or_refused() {
    let sig = sign(b"new", "1000", b"{}");
    assert_eq!(verify_request_at(&secrets(), &sig, "1000", b"{}", 1300), Ok(()));
    assert_eq!(
        verify_request_at(&secrets(), &sig, "1000", b"{}", 1301),
        Err("timestamp out of tolerance".to_string())
    );
    assert_eq!(
        verify_request_at(&secrets(), "", "1000", b"{}", 1000),
        Err("missing signature or timestamp".to_string())
    );
    assert_eq!(
        verify_request_at(&secrets(), &sig, "", b"{}", 1000),
        Err("missing signature or timestamp".to_string())
    );
    assert_eq!(
        verify_request_at(&secrets(), &sig, "1000", b"{ }", 1000),
        Err("invalid signature".to_string())
    );
    assert_eq!(
        verify_request_at(&vec![], &sig, "1000", b"{}", 1000),
        Err("invalid signature".to_string())
    );
    let now = std::time::SystemTime::now()
        .duration_since(std::time::UNIX_EPOCH)
        .unwrap()
        .as_secs()
        .to_string();
    assert!(verify_request(&secrets(), &sign(b"old", &now, b"x"), &now, b"x").is_ok());
    assert!(verify_request(&secrets(), &sig, "1000", b"{}").is_err());
}

fn word() -> AgentBotWebhookPayload {
    AgentBotWebhookPayload {
        event: "message_created".into(),
        id: Some(9021),
        content: Some("olá".into()),
        message_type: Some("incoming".into()),
        conversation: Some(ConversationSummary { id: 523, ..Default::default() }),
        sender: Some(SenderInfo { id: 88, kind: Some("contact".into()), ..Default::default() }),
        account: Some(AccountInfo { id: 1, ..Default::default() }),
        created_at: Some("1970-01-01T00:00:01Z".into()),
        ..Default::default()
    }
}

#[test]
fn a_word_of_a_contact_is_taken_up() {
    assert!(matches!(
        intake(&word()),
        Intake::Process { msg_id: 9021, conversation_id: 523, account_id: 1 }
    ));
    assert!(intake_reply(&intake(&word()), "message_created").is_none());
    assert!(intake_result(&intake(&word())).is_none());
}

#[test]
fn what_is_not_taken_up_is_answered() {
    let p = AgentBotWebhookPayload { event: "typing_on".into(), ..word() };
    let r = intake_reply(&intake(&p), "typing_on").unwrap();
    assert_eq!(r.get_str("ignored"), Some("typing_on"));
    assert_eq!(intake_result(&intake(&p)), Some("ignored"));
    let p = AgentBotWebhookPayload { id: None, ..word() };
    assert_eq!(intake_reply(&intake(&p), "e").unwrap().get_str("ignored"), Some("no_id"));
    let p = AgentBotWebhookPayload { conversation: None, ..word() };
    assert_eq!(intake_reply(&intake(&p), "e").unwrap().get_str("ignored"), Some("no_conversation"));
    let p = AgentBotWebhookPayload { private: Some(true), ..word() };
    assert_eq!(intake_reply(&intake(&p), "e").unwrap().get_str("discarded"), Some("private"));
    assert_eq!(intake_result(&intake(&p)), Some("discarded"));
    let p = AgentBotWebhookPayload {
        sender: Some(SenderInfo { kind: Some("AgentBot".into()), ..Default::default() }),
        message_type: Some("outgoing".into()),
        ..word()
    };
    let r = intake_reply(&intake(&p), "e").unwrap();
    assert!(matches!(r.get("skipped"), Some(JsonValue::Bool(true))));
    assert_eq!(intake_result(&intake(&p)), Some("skipped"));
}

#[test]
fn fixed_replies() {
    assert_eq!(invalid_json_reply().get_str("ignored"), Some("invalid_json"));
    assert!(matches!(processed_reply().get("ok"), Some(JsonValue::Bool(true))));
    assert!(matches!(duplicate_reply().get("duplicate"), Some(JsonValue::Bool(true))));
    let h = health_reply("1.0", 7);
    assert_eq!(h.get_str("status"), Some("ok"));
    assert_eq!(h.get("uptime_secs").unwrap().as_u64(), Some(7));
}

#[test]
fn the_log_holds_length_and_time() {
    let row = inbound_log(&word(), 9021, 523, 77);
    assert_eq!(row.content_len, 4);
    assert_eq!(row.created_at_nanos, 1_000_000_000);
    assert_eq!((row.direction, row.sender_kind), ("inbound", "contact"));
    let p = AgentBotWebhookPayload { created_at: Some("ontem".into()), content: None, ..word() };
    let row = inbound_log(&p, 9021, 523, 77);
    assert_eq!(row.content_len, 0);
    assert_eq!(row.created_at_nanos, 77);
}

#[test]
fn buffered_words_and_jobs() {
    let b = buffered_message(&word(), 9021, 1, 523);
    assert_eq!(b.get("id").unwrap().as_i64(), Some(9021));
    assert_eq!(b.get("conversation_id").unwrap().as_i64(), Some(523));
    assert_eq!(b.get_str("content"), Some("olá"));
    assert_eq!(b.get_str("created_at"), Some("1970-01-01T00:00:01Z"));
    let j = read_job(&run_job(523, 1, "max_chars", 5)).unwrap();
    assert_eq!(j.conversation_id, 523);
    assert_eq!(j.reason.as_deref(), Some("max_chars"));
    assert_eq!(buffer_meta_keys(5).0, "buf:first:5");
    assert_eq!(buffer_meta_keys(5).1, "buf:chars:5");
}

fn limits() -> BufferConfig {
    BufferConfig {
        debounce_ms: 6000,
        max_wait_ms: 20000,
        max_messages: 8,
        max_chars: 4000,
        media_debounce_ms: 9000,
    }
}

#[test]
fn a_full_buffer_runs_at_once() {
    assert!(matches!(buffer_step(8, 1, None, 0, limits()), BufferStep::Run("max_messages")));
    assert!(matches!(buffer_step(1, 4000, None, 0, limits()), BufferStep::Run("max_chars")));
    assert!(matches!(
        buffer_step(1, 1, Some("1000"), 21000, limits()),
        BufferStep::Run("max_wait")
    ));
}

#[test]
fn a_waiting_buffer_never_waits_past_the_cap() {
    assert!(matches!(
        buffer_step(1, 1, Some("1000"), 1000, limits()),
        BufferStep::Wait { score_ms: 7000 }
    ));
    assert!(matches!(
        buffer_step(1, 1, Some("1000"), 18000, limits()),
        BufferStep::Wait { score_ms: 21000 }
    ));
    assert!(matches!(
        buffer_step(1, 1, Some("x"), 18000, limits()),
        BufferStep::Wait { score_ms: 24000 }
    ));
}

#[test]
fn events_of_the_account() {
    let of = |event: &str| AgentBotWebhookPayload { event: event.into(), ..word() };
    assert_eq!(account_event(&of("conversation_created")), AccountEvent::Created);
    assert_eq!(account_event(&of("conversation_updated")), AccountEvent::Updated);
    assert_eq!(account_event(&of("conversation_status_changed")), AccountEvent::StatusChanged);
    assert_eq!(account_event(&of("message_created")), AccountEvent::Nothing);
    assert_eq!(account_event(&of("other")), AccountEvent::Nothing);
    let p = AgentBotWebhookPayload {
        message_type: Some("outgoing".into()),
        sender: Some(SenderInfo { kind: Some("User".into()), ..Default::default() }),
        ..word()
    };
    assert_eq!(account_event(&p), AccountEvent::HumanMessage);
    let note = AgentBotWebhookPayload { private: Some(true), ..p.clone() };
    assert_eq!(account_event(&note), AccountEvent::Nothing);
    let said = AgentBotWebhookPayload { private: Some(false), ..p };
    assert_eq!(account_event(&said), AccountEvent::HumanMessage);
    let p = AgentBotWebhookPayload { conversation: None, ..word() };
    assert_eq!(account_event(&p), AccountEvent::NoConversation);
    assert_eq!(conversation_dedup_key(5, "e", Some("t")), "seen:conv:5:e:t");
    assert_eq!(conversation_dedup_key(5, "e", None), "seen:conv:5:e:");
}

#[test]
fn new_conversations() {
    let r = handle_conversation_created(&ConversationSummary { id: 5, ..Default::default() }, 1);
    assert_eq!(r.chatwoot_status, "pending");
    assert_eq!(r.ai_state, AiState::AiActive);
    let conv = ConversationSummary {
        id: 5,
        status: Some("open".into()),
        inbox_id: Some(3),
        channel: Some("c".into()),
        meta: Some(ConversationMeta {
            sender: Some(SenderInfo { id: 88, ..Default::default() }),
            ..Default::default()
        }),
        ..Default::default()
    };
    let r = handle_conversation_created(&conv, 1);
    assert_eq!(r.ai_state, AiState::AwaitingHuman);
    assert_eq!((r.inbox_id, r.contact_id), (3, 88));
}

#[test]
fn an_assigned_attendant_takes_over() {
    let conv = ConversationSummary {
        id: 5,
        labels: Some(vec!["a".into()]),
        meta: Some(ConversationMeta {
            assignee: Some(AgentInfo { id: 7, ..Default::default() }),
            team: Some(TeamInfo { id: 2, ..Default::default() }),
            ..Default::default()
        }),
        ..Default::default()
    };
    let r = handle_conversation_updated(&conv);
    assert_eq!(r.assignee_id, Some(7));
    assert_eq!(r.team_id, Some(2));
    assert_eq!(r.ai_state, Some(AiState::HumanHandling));
    assert_eq!(r.labels, vec!["a".to_string()]);
    let r = handle_conversation_updated(&ConversationSummary::default());
    assert_eq!(r.ai_state, None);
    assert_eq!(handle_human_message(), (AiState::HumanHandling, "human_replied"));
}

#[test]
fn statuses_change_states() {
    for current in [None, Some("human_handling"), Some("closed"), Some("nonsense")] {
        assert_eq!(handle_status_changed(current, Some("resolved")), Some(AiState::Closed));
        assert_eq!(handle_status_changed(current, Some("open")), Some(AiState::AwaitingHuman));
        assert_eq!(handle_status_changed(current, Some("pending")), Some(AiState::AiActive));
    }
    assert_eq!(handle_status_changed(Some("ai_active"), Some("snoozed")), Some(AiState::AiActive));
    assert_eq!(handle_status_changed(None, Some("snoozed")), Some(AiState::AiPausedManual));
    assert_eq!(handle_status_changed(None, Some("other")), None);
    assert_eq!(handle_status_changed(None, None), None);
    assert_eq!(parse_ai_state(" ai_thinking "), Some(AiState::AiThinking));
    assert_eq!(parse_ai_state("thinking"), None);
    assert_eq!(status_to_ai_state("other"), AiState::AiActive);
    assert!(matches!(status_event("open"), Some(StateEvent::AiRequestedHandoff)));
    assert!(status_event("other").is_none());
}
