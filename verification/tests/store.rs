use chatwoot_bridge::json::JsonValue;
use chatwoot_bridge::store::redis::{
    breached, check_all, lock_touched, out_msgs_used, poll_due, queue_job,
    release_concurrency_slot, was_set, LimitCheck,
};
use chatwoot_bridge::store::rows::{
    is_verified_and_valid, touch_msg_at, AgentRunRow, AuditLogRow, ContactLinkRow, ConversationRow,
    GateDecisionRow, MessageLogRow, MsgAt, OutboundMessageRow, SlaTimerRow,
};
use chatwoot_bridge::store::StoreError;
use chatwoot_bridge::{RateLimits, RunId};

#[test]
fn limits_are_asked_in_order() {
    let checks = check_all(1, 2, 3, &RateLimits::default(), "2026-07-28");
    assert_eq!(checks.len(), 6);
    assert!(matches!(&checks[0], LimitCheck::Bucket { key, max: 6, window_secs: 60 } if key == "rl:conv:1"));
    assert!(matches!(&checks[1], LimitCheck::Bucket { key, max: 30, window_secs: 3600 } if key == "rl:contact:2"));
    assert!(matches!(&checks[2], LimitCheck::Look { key, max: 15 } if key == "rl:out:1"));
    assert!(matches!(&checks[3], LimitCheck::Bucket { key, max: 300, window_secs: 60 } if key == "rl:account:3"));
    assert!(matches!(&checks[4], LimitCheck::Semaphore { key, max: 20, slot_ttl_secs: 15 } if key == "sem:agent"));
    assert!(matches!(&checks[5], LimitCheck::Budget { key, budget_usd } if key == "budget:2026-07-28" && f64::from_bits(budget_usd.bits) == 25.0));
}

#[test]
fn refusals_are_named() {
    assert!(breached(&[1, 1, 1, 1, 1, 1]).is_empty());
    assert_eq!(breached(&[0, 1, 0, 1, 1, 0]), vec!["L1", "L3", "L6"]);
    assert_eq!(breached(&[1, 0, 1, 0, 0, 1]), vec!["L2", "L4", "L5"]);
}

#[test]
fn due_conversations_are_read_back() {
    let members: Vec<String> = ["523", "x", "-7", "+9", ""].iter().map(|s| s.to_string()).collect();
    assert_eq!(poll_due(&members), vec![523, -7, 9]);
    let ids = vec![0i64, i64::MAX, i64::MIN];
    let members: Vec<String> = ids.iter().map(|i| i.to_string()).collect();
    assert_eq!(poll_due(&members), ids);
}

#[test]
fn small_answers() {
    assert!(lock_touched(1));
    assert!(!lock_touched(0));
    assert!(was_set(Some("OK")));
    assert!(!was_set(None));
    assert_eq!(release_concurrency_slot(-1), Some(0));
    assert_eq!(release_concurrency_slot(0), None);
    assert_eq!(out_msgs_used(None), 0);
    assert_eq!(out_msgs_used(Some(3)), 3);
    let j = queue_job(523, "r", "t");
    assert_eq!(j.get("conv_id").unwrap().as_i64(), Some(523));
    assert_eq!(j.get_str("reason"), Some("r"));
    assert_eq!(j.get_str("trace_id"), Some("t"));
}

#[test]
fn new_rows() {
    let r = AgentRunRow::new(RunId(7), 1, "openclaw", None, "debounce", vec![1, 2], 5);
    assert_eq!((r.run_id, r.status.as_str(), r.started_at), (7, "running", 5));
    assert_eq!(r.input_msg_ids, vec![1, 2]);
    let r = AuditLogRow::new("a", "b", Some(1), None, None, None, 5);
    assert_eq!((r.id, r.at), (0, 5));
    let r = ConversationRow::new(1, 2, 3, 4, "c".into(), "pending".into(), 5);
    assert_eq!((r.ai_state.as_str(), r.created_at), ("ai_active", 5));
    let r = GateDecisionRow::new(1, "inbound", "G5", "block", None, 5);
    assert_eq!(r.rule, "G5");
    let r = MessageLogRow::new(9, 1, "inbound", "contact", false, None, 3, false, 4, 5);
    assert_eq!((r.created_at, r.ingested_at), (4, 5));
    let r = OutboundMessageRow::new("k", Some(RunId(7)), 1, JsonValue::Null, 5);
    assert_eq!((r.state.as_str(), r.run_id, r.attempts), ("pending", Some(7), 0));
    let r = SlaTimerRow::new(1, "first_response", 9, 5);
    assert_eq!((r.status.as_str(), r.escalation_level, r.due_at), ("armed", 0, 9));
}

#[test]
fn links_expire() {
    let mut c = ContactLinkRow::new(1);
    assert!(!is_verified_and_valid(Some(&c), 10));
    c.verified = true;
    assert!(is_verified_and_valid(Some(&c), 10));
    c.expires_at = Some(10);
    assert!(!is_verified_and_valid(Some(&c), 10));
    assert!(is_verified_and_valid(Some(&c), 9));
    assert!(!is_verified_and_valid(None, 9));
}

#[test]
fn only_the_ai_stamps_a_hash() {
    assert!(touch_msg_at(MsgAt::Ai).binds_hash);
    assert!(!touch_msg_at(MsgAt::Contact).binds_hash);
    assert!(touch_msg_at(MsgAt::Human).sql.contains("last_human_msg_at=$2"));
}

#[test]
fn error_texts_of_the_store() {
    assert_eq!(StoreError::Pg("x".into()).to_string(), "postgres: x");
    assert_eq!(StoreError::Redis("x".into()).to_string(), "redis: x");
    assert_eq!(StoreError::Pool("x".into()).to_string(), "pool: x");
    assert_eq!(StoreError::BuildPool("x".into()).to_string(), "pool build: x");
    assert_eq!(
        StoreError::NotFound { entity: "run".into(), id: "7".into() }.to_string(),
        "not found: run 7"
    );
    assert_eq!(StoreError::Serde("x".into()).to_string(), "serde: x");
}
