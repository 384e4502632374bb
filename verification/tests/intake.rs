use chatwoot_bridge::api::process::{
    process_account_payload, process_agent_bot_payload, AccountAction, IntakeAction, IntakeEvent,
    IntakeStage,
};
use chatwoot_bridge::api::AccountEvent;
use chatwoot_bridge::chatwoot::payload::{
    AccountInfo, AgentBotWebhookPayload, ConversationSummary, SenderInfo,
};
use chatwoot_bridge::config::BufferConfig;
use chatwoot_bridge::json::JsonValue;

fn word() -> AgentBotWebhookPayload {
    AgentBotWebhookPayload {
        event: "message_created".into(),
        id: Some(9021),
        content: Some("olá".into()),
        message_type: Some("incoming".into()),
        conversation: Some(ConversationSummary { id: 523, ..Default::default() }),
        sender: Some(SenderInfo { id: 88, kind: Some("contact".into()), ..Default::default() }),
        account: Some(AccountInfo { id: 1, ..Default::default() }),
        created_at: Some("1970-01-01T00:00:01Z".into()),
        ..Default::default()
    }
}

fn limits() -> BufferConfig {
    BufferConfig {
        debounce_ms: 6000,
        max_wait_ms: 20000,
        max_messages: 8,
        max_chars: 4000,
        media_debounce_ms: 9000,
    }
}

fn step(
    p: &AgentBotWebhookPayload,
    stage: IntakeStage,
    event: IntakeEvent,
) -> (IntakeStage, IntakeAction) {
    process_agent_bot_payload(p, limits(), stage, event)
}

fn counted(messages: i64, bytes: i64, first: Option<&str>, now_ms: i64) -> IntakeEvent {
    IntakeEvent::Counted { messages, bytes, first: first.map(Into::into), now_ms }
}

#[test]
fn a_word_goes_through_all_stages() {
    let p = word();
    let (s, a) = step(&p, IntakeStage::Arriving, IntakeEvent::Begin);
    assert_eq!(s, IntakeStage::Marking);
    match a {
        IntakeAction::Mark { key, ttl_secs } => {
            assert_eq!(key, "seen:msg:1:9021");
            assert_eq!(ttl_secs, 86400);
        }
        other => panic!("{other:?}"),
    }
    let (s, a) = step(&p, s, IntakeEvent::Marked { new: true, now_nanos: 5 });
    assert_eq!(s, IntakeStage::Logging);
    match a {
        IntakeAction::Log(row) => {
            assert_eq!((row.chatwoot_msg_id, row.conversation_id), (9021, 523));
            assert_eq!(row.content_len, 4);
            assert_eq!(row.created_at_nanos, 1_000_000_000);
        }
        other => panic!("{other:?}"),
    }
    let (s, a) = step(&p, s, IntakeEvent::Logged);
    assert_eq!(s, IntakeStage::Buffering);
    match a {
        IntakeAction::Buffer(w) => {
            assert_eq!(w.key, "buf:523");
            assert_eq!(w.first_key, "buf:first:523");
            assert_eq!(w.chars_key, "buf:chars:523");
            assert_eq!((w.added, w.ttl_secs), (4, 300));
            assert_eq!(w.message.get_str("content"), Some("olá"));
        }
        other => panic!("{other:?}"),
    }
    let (s, a) = step(&p, s, counted(1, 4, Some("1000"), 1000));
    assert_eq!(s, IntakeStage::Placing);
    match a {
        IntakeAction::Wait { member, score_ms } => {
            assert_eq!(member, "523");
            assert_eq!(score_ms, 7000);
        }
        other => panic!("{other:?}"),
    }
    let (s, a) = step(&p, s, IntakeEvent::Placed);
    assert_eq!(s, IntakeStage::Answered);
    match a {
        IntakeAction::Answer { body, result } => {
            assert!(matches!(body.get("ok"), Some(JsonValue::Bool(true))));
            assert_eq!(result, Some("processed"));
        }
        other => panic!("{other:?}"),
    }
}

#[test]
fn a_full_buffer_is_queued_with_its_reason() {
    let (s, a) = step(&word(), IntakeStage::Buffering, counted(8, 40, Some("0"), 100));
    assert_eq!(s, IntakeStage::Placing);
    match a {
        IntakeAction::Enqueue { job, reason, member } => {
            assert_eq!(reason, "max_messages");
            assert_eq!(member, "523");
            assert_eq!(job.get("conversation_id").unwrap().as_i64(), Some(523));
            assert_eq!(job.get("account_id").unwrap().as_i64(), Some(1));
            assert_eq!(job.get_str("reason"), Some("max_messages"));
            assert_eq!(job.get("enqueued_at_ms").unwrap().as_i64(), Some(100));
        }
        other => panic!("{other:?}"),
    }
    let (_, a) = step(&word(), IntakeStage::Buffering, counted(1, 4, Some("0"), 20000));
    assert!(matches!(a, IntakeAction::Enqueue { reason: "max_wait", .. }));
}

#[test]
fn the_wait_ends_at_the_cap() {
    let (_, a) = step(&word(), IntakeStage::Buffering, counted(2, 8, Some("0"), 19000));
    assert!(matches!(a, IntakeAction::Wait { score_ms: 20000, .. }));
}

#[test]
fn a_duplicate_is_only_answered() {
    let e = IntakeEvent::Marked { new: false, now_nanos: 0 };
    let (s, a) = step(&word(), IntakeStage::Marking, e);
    assert_eq!(s, IntakeStage::Answered);
    match a {
        IntakeAction::Answer { body, result } => {
            assert!(matches!(body.get("duplicate"), Some(JsonValue::Bool(true))));
            assert_eq!(result, Some("duplicate"));
        }
        other => panic!("{other:?}"),
    }
}

#[test]
fn what_no_contact_said_is_answered_at_once() {
    let p = AgentBotWebhookPayload { private: Some(true), ..word() };
    let (s, a) = step(&p, IntakeStage::Arriving, IntakeEvent::Begin);
    assert_eq!(s, IntakeStage::Answered);
    match a {
        IntakeAction::Answer { body, result } => {
            assert_eq!(body.get_str("discarded"), Some("private"));
            assert_eq!(result, Some("discarded"));
        }
        other => panic!("{other:?}"),
    }
    let p = AgentBotWebhookPayload { event: "typing_on".into(), ..word() };
    let (_, a) = step(&p, IntakeStage::Arriving, IntakeEvent::Begin);
    match a {
        IntakeAction::Answer { body, result } => {
            assert_eq!(body.get_str("ignored"), Some("typing_on"));
            assert_eq!(result, Some("ignored"));
        }
        other => panic!("{other:?}"),
    }
}

#[test]
fn an_event_out_of_order_changes_nothing() {
    let (s, a) = step(&word(), IntakeStage::Arriving, IntakeEvent::Placed);
    assert_eq!(s, IntakeStage::Arriving);
    assert!(matches!(a, IntakeAction::Ignore));
    let (s, a) = step(&word(), IntakeStage::Answered, IntakeEvent::Begin);
    assert_eq!(s, IntakeStage::Answered);
    assert!(matches!(a, IntakeAction::Ignore));
}

#[test]
fn account_webhooks_are_marked_then_handled() {
    let p = AgentBotWebhookPayload { event: "conversation_updated".into(), ..word() };
    match process_account_payload(&p, None) {
        AccountAction::Mark { key, ttl_secs } => {
            assert_eq!(key, "seen:conv:523:conversation_updated:1970-01-01T00:00:01Z");
            assert_eq!(ttl_secs, 86400);
        }
        other => panic!("{other:?}"),
    }
    assert!(matches!(
        process_account_payload(&p, Some(true)),
        AccountAction::Handle { event: AccountEvent::Updated, account_id: 1 }
    ));
    match process_account_payload(&p, Some(false)) {
        AccountAction::Answer(b) => {
            assert!(matches!(b.get("duplicate"), Some(JsonValue::Bool(true))))
        }
        other => panic!("{other:?}"),
    }
    let p = AgentBotWebhookPayload { conversation: None, ..p };
    match process_account_payload(&p, None) {
        AccountAction::Answer(b) => assert_eq!(b.get_str("ignored"), Some("no_conversation")),
        other => panic!("{other:?}"),
    }
}
