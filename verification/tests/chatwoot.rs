use chatwoot_bridge::chatwoot::circuit::{
    after_attempt, on_reply, CallReply, ChatwootError, CircuitState, RetryStep,
};
use chatwoot_bridge::chatwoot::client::{labels_of, ChatwootClient, DeskBody};
use chatwoot_bridge::chatwoot::payload::{
    AgentBotWebhookPayload, ConversationSummary, SelectItem, SenderInfo, SenderKind,
};
use chatwoot_bridge::chatwoot::signature::{
    is_timestamp_fresh, is_timestamp_fresh_now, unix_secs, verify_webhook_signature,
    verify_webhook_signature_any,
};
use chatwoot_bridge::json::JsonValue;
use hmac::{Hmac, Mac};
use sha2::Sha256;

fn sign(secret: &[u8], ts: &str, body: &[u8]) -> String {
    let mut mac = Hmac::<Sha256>::new_from_slice(secret).unwrap();
    mac.update(ts.as_bytes());
    mac.update(b".");
    mac.update(body);
    format!("sha256={}", hex::encode(mac.finalize().into_bytes()))
}

#[test]
fn hmac_verify_roundtrip() {
    let secret = b"whsec_top";
    let ts = "1722168000";
    let body = br#"{"event":"message_created"}"#;
    let sig = sign(secret, ts, body);

    assert!(verify_webhook_signature(secret, ts, body, &sig));
    assert!(!verify_webhook_signature(secret, ts, b"{}", &sig));
    assert!(!verify_webhook_signature(b"other", ts, body, &sig));
    assert!(!verify_webhook_signature(secret, ts, body, "sha256=deadbeef"));
}

#[test]
fn hmac_verify_any_accepts_any_secret() {
    let secrets: Vec<&[u8]> = vec![b"old", b"new"];
    let ts = "1722168000";
    let body = b"body";
    let sig = sign(b"new", ts, body);
    assert!(verify_webhook_signature_any(&secrets, ts, body, &sig));
}

#[test]
fn timestamp_freshness() {
    let now = 1_000_000;
    assert!(is_timestamp_fresh("1000000", now, 300));
    assert!(is_timestamp_fresh("999800", now, 300));
    assert!(!is_timestamp_fresh("999000", now, 300));
    assert!(!is_timestamp_fresh("not-a-number", now, 300));
}

#[test]
fn sender_kind_classification() {
    let p = AgentBotWebhookPayload {
        event: "message_created".into(),
        message_type: Some("incoming".into()),
        private: Some(false),
        sender: Some(SenderInfo {
            id: 88,
            name: Some("João".into()),
            kind: Some("contact".into()),
        }),
        ..Default::default()
    };
    assert_eq!(p.sender_kind(), SenderKind::Contact);
    assert!(p.sender_kind().is_contact());
    assert!(!p.is_private_note());

    let p = AgentBotWebhookPayload {
        message_type: Some("outgoing".into()),
        sender: Some(SenderInfo { id: 12, kind: Some("User".into()), ..Default::default() }),
        ..Default::default()
    };
    assert_eq!(p.sender_kind(), SenderKind::User);

    let p = AgentBotWebhookPayload {
        message_type: Some("outgoing".into()),
        sender: Some(SenderInfo { id: 7, kind: Some("AgentBot".into()), ..Default::default() }),
        ..Default::default()
    };
    assert_eq!(p.sender_kind(), SenderKind::AgentBot);
    assert!(p.sender_kind().is_agent_bot());

    let p = AgentBotWebhookPayload {
        message_type: Some("activity".into()),
        ..Default::default()
    };
    assert_eq!(p.sender_kind(), SenderKind::System);

    let p = AgentBotWebhookPayload {
        message_type: Some("outgoing".into()),
        private: Some(true),
        sender: Some(SenderInfo { id: 12, kind: Some("User".into()), ..Default::default() }),
        ..Default::default()
    };
    assert!(p.is_private_note());
}

fn text_of(v: &serde_json::Value) -> Option<String> {
    v.as_str().map(|s| s.to_string())
}

#[test]
fn payload_tolerates_extra_and_missing_fields() {
    let raw: serde_json::Value = serde_json::from_str(
        r#"{
            "event": "message_created",
            "id": 9021,
            "content": "ola",
            "message_type": "incoming",
            "extra_field_unknown": 123,
            "conversation": {
                "id": 523,
                "status": "pending",
                "future_attr": true
            },
            "sender": { "id": 88, "type": "contact", "name": "João" }
        }"#,
    )
    .unwrap();
    let p = AgentBotWebhookPayload {
        event: text_of(&raw["event"]).unwrap(),
        id: raw["id"].as_i64(),
        content: text_of(&raw["content"]),
        message_type: text_of(&raw["message_type"]),
        conversation: Some(ConversationSummary {
            id: raw["conversation"]["id"].as_i64().unwrap(),
            status: text_of(&raw["conversation"]["status"]),
            ..Default::default()
        }),
        sender: Some(SenderInfo {
            id: raw["sender"]["id"].as_i64().unwrap(),
            name: text_of(&raw["sender"]["name"]),
            kind: text_of(&raw["sender"]["type"]),
        }),
        ..Default::default()
    };
    assert_eq!(p.id, Some(9021));
    assert_eq!(p.conversation.as_ref().unwrap().id, 523);
    assert_eq!(p.sender_kind(), SenderKind::Contact);
}

#[test]
fn client_constructs_base_url() {
    let c = ChatwootClient::try_new("https://chat.example.com", "tok", 1).unwrap();
    assert_eq!(c.account_id(), 1);
    assert_eq!(c.base_url(), "https://chat.example.com/");
    let c2 = ChatwootClient::try_new("https://chat.example.com/", "tok", 2).unwrap();
    assert_eq!(c2.base_url(), "https://chat.example.com/");
}

#[test]
fn circuit_opens_after_threshold_failures() {
    let mut c = ChatwootClient::try_new("https://chat.example.com", "tok", 1).unwrap();
    for _ in 0..4 {
        c.on_failure(1000);
    }
    match c.circuit() {
        CircuitState::Closed { failures } => assert_eq!(failures, 4),
        other => panic!("esperado Closed, foi {other:?}"),
    }
    c.on_failure(1000);
    match c.circuit() {
        CircuitState::Open { .. } => {}
        other => panic!("esperado Open, foi {other:?}"),
    }
    assert!(matches!(c.check_circuit(1000), Err(ChatwootError::CircuitOpen)));
    c.on_success();
    assert!(matches!(c.circuit(), CircuitState::Closed { failures: 0 }));
}

#[test]
fn idempotency_key_format() {
    let c = ChatwootClient::try_new("https://chat.example.com", "tok", 1).unwrap();
    let k = c.idempotency_key("send_message");
    assert!(k.ends_with(":send_message"));
    assert!(k.split(':').count() >= 2);
    assert_eq!(&k[14..15], "4");
}

#[test]
fn signature_of_known_bytes() {
    let sig = "sha256=a27fd4f2f9bd1c2e5a7c5ad3bbbbb6db";
    assert!(!verify_webhook_signature(b"key", "1", b"x", sig));
    assert!(!verify_webhook_signature(b"key", "1", b"x", &sign(b"key", "2", b"x")));
    assert!(verify_webhook_signature(b"", "1", b"", &sign(b"", "1", b"")));
    assert!(!verify_webhook_signature(b"key", "1", b"x", &sign(b"key", "1", b"x")[7..]));
}

#[test]
fn freshness_is_a_closed_window() {
    assert!(is_timestamp_fresh("700", 1000, 300));
    assert!(!is_timestamp_fresh("699", 1000, 300));
    assert!(is_timestamp_fresh("1300", 1000, 300));
    assert!(!is_timestamp_fresh("1301", 1000, 300));
    assert!(!is_timestamp_fresh_now("0", 300));
    let now = std::time::SystemTime::now()
        .duration_since(std::time::UNIX_EPOCH)
        .unwrap()
        .as_secs();
    assert!(is_timestamp_fresh_now(&now.to_string(), 300));
}

#[test]
fn an_open_circuit_lets_through_after_a_minute() {
    let mut c = CircuitState::default();
    for _ in 0..5 {
        c.on_failure(1000);
    }
    assert!(c.check_circuit(60_999).is_err());
    assert!(c.check_circuit(61_000).is_ok());
    assert_eq!(c, CircuitState::HalfOpen);
}

#[test]
fn server_errors_are_tried_three_times() {
    let busy = || CallReply::Status { code: 503, body: "busy".into() };
    assert!(matches!(after_attempt(0, busy()), RetryStep::Again { backoff_ms: 1000 }));
    assert!(matches!(after_attempt(1, busy()), RetryStep::Again { backoff_ms: 3000 }));
    assert!(matches!(
        after_attempt(2, busy()),
        RetryStep::Exhausted(ChatwootError::ApiError { status: 503, .. })
    ));
    assert!(matches!(
        after_attempt(0, CallReply::Status { code: 200, body: "".into() }),
        RetryStep::Success
    ));
    assert!(matches!(
        after_attempt(0, CallReply::Status { code: 404, body: "".into() }),
        RetryStep::Refused(ChatwootError::NotFound)
    ));
    assert!(matches!(
        after_attempt(0, CallReply::Status { code: 401, body: "".into() }),
        RetryStep::Refused(ChatwootError::AuthError)
    ));
    assert!(matches!(
        after_attempt(2, CallReply::Transport { timed_out: true, error: "t".into() }),
        RetryStep::Exhausted(ChatwootError::Timeout)
    ));
}

#[test]
fn client_errors_do_not_open_the_circuit() {
    let mut c = CircuitState::default();
    for _ in 0..10 {
        let r = on_reply(&mut c, 0, CallReply::Status { code: 422, body: "no".into() }, 0);
        assert!(matches!(r, RetryStep::Refused(_)));
    }
    assert!(c.check_circuit(0).is_ok());
}

fn json_body(b: &DeskBody) -> &JsonValue {
    match b {
        DeskBody::Json(j) => j,
        other => panic!("{other:?}"),
    }
}

#[test]
fn requests_of_the_client() {
    let c = ChatwootClient::try_new("https://chat.example.com", "tok", 1).unwrap();
    let r = c.send_message(523, "oi").unwrap();
    assert_eq!(r.url, "https://chat.example.com/api/v1/accounts/1/conversations/523/messages");
    assert!(r.idempotency_key.unwrap().ends_with(":send_message"));
    let b = json_body(&r.body);
    assert_eq!(b.get_str("content"), Some("oi"));
    assert_eq!(b.get_str("message_type"), Some("outgoing"));
    assert!(matches!(b.get("private"), Some(JsonValue::Bool(false))));

    let r = c.send_private_note(523, "nota").unwrap();
    assert!(matches!(json_body(&r.body).get("private"), Some(JsonValue::Bool(true))));

    let r = c.toggle_status(523, "open").unwrap();
    assert!(r.url.ends_with("/conversations/523/toggle_status"));
    assert_eq!(json_body(&r.body).get_str("status"), Some("open"));

    let r = c.assign_team(523, 4).unwrap();
    assert!(r.url.ends_with("/conversations/523/assignments"));
    assert_eq!(json_body(&r.body).get("team_id").unwrap().as_i64(), Some(4));

    let r = c.assign_agent(523, -4).unwrap();
    assert_eq!(json_body(&r.body).get("assignee_id").unwrap().as_i64(), Some(-4));

    let r = c.set_labels(523, &vec!["a".to_string(), "b".to_string()]).unwrap();
    assert_eq!(json_body(&r.body).get("labels").unwrap().as_array().unwrap().len(), 2);

    let r = c.get_labels(523).unwrap();
    assert!(r.url.ends_with("/conversations/523/labels"));
    assert!(matches!(r.body, DeskBody::Empty));

    let r = c.get_contact(88).unwrap();
    assert!(r.url.ends_with("/api/v1/accounts/1/contacts/88"));
    let r = c.get_conversation(523).unwrap();
    assert!(r.url.ends_with("/conversations/523"));
    let r = c.set_priority(523, "high").unwrap();
    assert_eq!(json_body(&r.body).get_str("priority"), Some("high"));
    let r = c.update_custom_attributes(523, JsonValue::Object(vec![])).unwrap();
    assert!(r.url.ends_with("/conversations/523/custom_attributes"));
    let items = vec![SelectItem { title: "Sim".into(), value: "s".into() }];
    let r = c.send_input_select(523, "ok?", items).unwrap();
    assert_eq!(json_body(&r.body).get_str("content_type"), Some("input_select"));
    let r = c.send_attachment(523, "anexo", vec![1, 2], "a.pdf", "application/pdf").unwrap();
    assert!(matches!(r.body, DeskBody::Form { ref filename, .. } if filename == "a.pdf"));
    assert!(ChatwootClient::try_new("no address", "tok", 1).is_none());
}

#[test]
fn labels_are_read_from_the_reply() {
    let v = JsonValue::Object(vec![(
        "labels".to_string(),
        JsonValue::Array(vec![JsonValue::Str("a".into()), JsonValue::Null, JsonValue::Str("b".into())]),
    )]);
    assert_eq!(labels_of(&v), vec!["a".to_string(), "b".to_string()]);
    assert!(labels_of(&JsonValue::Null).is_empty());
}

#[test]
fn error_texts_of_the_client() {
    assert_eq!(ChatwootError::CircuitOpen.to_string(), "circuit open");
    assert_eq!(ChatwootError::Timeout.to_string(), "timeout");
}

#[test]
fn a_half_open_circuit_gives_one_attempt() {
    let busy = || CallReply::Status { code: 503, body: "busy".into() };
    let mut c = CircuitState::Open { until_ms: 1000 };
    assert!(c.check_circuit(1000).is_ok());
    assert_eq!(c, CircuitState::HalfOpen);
    assert!(matches!(c.check_circuit(1001), Err(ChatwootError::CircuitOpen)));
    assert!(matches!(c.check_circuit(900_000), Err(ChatwootError::CircuitOpen)));
    assert!(matches!(on_reply(&mut c, 0, busy(), 1500), RetryStep::Again { backoff_ms: 1000 }));
    assert!(matches!(c.check_circuit(2500), Err(ChatwootError::CircuitOpen)));
    assert!(c.check_circuit(61_499).is_err());
    assert!(c.check_circuit(61_500).is_ok());
    let no = CallReply::Status { code: 422, body: "no".into() };
    assert!(matches!(on_reply(&mut c, 0, no, 61_550), RetryStep::Refused(_)));
    assert!(c.check_circuit(61_560).is_ok());
    assert!(c.check_circuit(61_570).is_err());
    let ok = CallReply::Status { code: 200, body: "{}".into() };
    assert!(matches!(on_reply(&mut c, 0, ok, 61_600), RetryStep::Success));
    assert_eq!(c, CircuitState::Closed { failures: 0 });
}

#[test]
fn the_clock_is_read_in_unix_seconds() {
    assert_eq!(unix_secs(Some(1_722_168_000)), 1_722_168_000);
    assert_eq!(unix_secs(Some(0)), 0);
    assert_eq!(unix_secs(None), 0);
    assert_eq!(unix_secs(Some(i64::MAX as u64)), i64::MAX);
}
