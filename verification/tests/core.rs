use std::str::FromStr;

use chatwoot_bridge::error::{AgentError, ChatwootError, CoreError, StateError};
use chatwoot_bridge::model::agent::ActionKind;
use chatwoot_bridge::model::context::{BusinessHoursState, ConversationContext};
use chatwoot_bridge::ratelimit::RateLimits;
use chatwoot_bridge::secrets::SecretString;
use chatwoot_bridge::state_machine::{AiState, StateEvent};
use chatwoot_bridge::{
    buffer_key, dedup_key, has_label, is_block_label, lock_key, session_key, RunId,
};

#[test]
fn test_run_id() {
    let r1 = RunId::new();
    let r2 = RunId::new();
    assert_ne!(r1, r2);
    assert!(!r1.to_string().is_empty());
}

#[test]
fn test_action_kind_roundtrip() {
    for kind in [
        ActionKind::SendMessage,
        ActionKind::SendPrivateNote,
        ActionKind::AddLabels,
        ActionKind::RemoveLabels,
        ActionKind::SetCustomAttributes,
        ActionKind::AssignTeam,
        ActionKind::AssignAgent,
        ActionKind::SetPriority,
        ActionKind::SetStatus,
        ActionKind::Snooze,
        ActionKind::CallTool,
        ActionKind::CallAgent,
        ActionKind::RequestHandoff,
    ] {
        let s = kind.as_str();
        let parsed = ActionKind::from_str(s).unwrap();
        assert_eq!(kind, parsed);
    }
    assert!(ActionKind::from_str("invalid").is_err());
}

#[test]
fn test_state_machine_happy_path() {
    let s = AiState::AiActive;
    let s = s.transition(&StateEvent::ContactMessage).unwrap();
    assert_eq!(s, AiState::AiThinking);
    let s = s.transition(&StateEvent::AiResponded).unwrap();
    assert_eq!(s, AiState::AiActive);
}

#[test]
fn test_state_machine_handoff_path() {
    let s = AiState::AiActive;
    let s = s.transition(&StateEvent::AiRequestedHandoff).unwrap();
    assert_eq!(s, AiState::AwaitingHuman);
    let s = s.transition(&StateEvent::HumanAssigned).unwrap();
    assert_eq!(s, AiState::HumanHandling);
    let s = s.transition(&StateEvent::HumanResolved).unwrap();
    assert_eq!(s, AiState::Closed);
}

#[test]
fn test_state_machine_label_pause() {
    let s = AiState::AiActive;
    let s = s.transition(&StateEvent::LabelAdded("ia:off".into())).unwrap();
    assert_eq!(s, AiState::AiPausedManual);
    let s = s.transition(&StateEvent::LabelRemoved("ia:off".into())).unwrap();
    assert_eq!(s, AiState::AiActive);
}

#[test]
fn test_state_machine_closed_reopens() {
    let s = AiState::Closed;
    let s = s.transition(&StateEvent::ContactReplied).unwrap();
    assert_eq!(s, AiState::AiActive);
}

#[test]
fn test_state_machine_limit_exceeded() {
    let s = AiState::AiActive;
    let s = s.transition(&StateEvent::LimitExceeded).unwrap();
    assert_eq!(s, AiState::AiPausedLimit);
    let s = s.transition(&StateEvent::LimitWindowExpired).unwrap();
    assert_eq!(s, AiState::AiActive);
}

#[test]
fn test_state_machine_invalid_transition() {
    let s = AiState::Closed;
    assert!(s.transition(&StateEvent::AiStarted).is_err());
}

#[test]
fn test_state_machine_ai_failed() {
    let s = AiState::AiActive;
    let s = s.transition(&StateEvent::AiFailed).unwrap();
    assert_eq!(s, AiState::AwaitingHuman);
}

#[test]
fn test_block_labels() {
    assert!(is_block_label("ia:off"));
    assert!(is_block_label("humano"));
    assert!(is_block_label("juridico"));
    assert!(!is_block_label("fiscal"));
}

#[test]
fn test_key_formats() {
    assert_eq!(session_key(1, 523), "cw:1:523");
    assert_eq!(lock_key(523), "lock:conv:523");
    assert_eq!(dedup_key(1, 9021), "seen:msg:1:9021");
}

#[test]
fn test_rate_limits_defaults() {
    let rl = RateLimits::default();
    assert_eq!(rl.conv_runs_per_min, 6);
    assert_eq!(f64::from_bits(rl.daily_budget_usd.bits), 25.0);
}

#[test]
fn test_business_hours_roundtrip() {
    let b = BusinessHoursState::Within;
    assert_eq!(b.to_string(), "within");
    let p = BusinessHoursState::from_str("within").unwrap();
    assert_eq!(p, BusinessHoursState::Within);
    let p = BusinessHoursState::from_str("fora").unwrap();
    assert_eq!(p, BusinessHoursState::Outside);
}

#[test]
fn test_action_kind_as_str() {
    assert_eq!(ActionKind::SendMessage.as_str(), "send_message");
    assert_eq!(ActionKind::RequestHandoff.as_str(), "request_handoff");
}

#[test]
fn test_conversation_context_default() {
    let ctx = ConversationContext::default();
    assert_eq!(ctx.conversation_id, 0);
    assert_eq!(ctx.business_hours, BusinessHoursState::Within);
}

#[test]
fn run_ids_are_written_as_uuids() {
    let id = RunId(0x67e55044_10b1_426f_9247_bb680e5fe0c8);
    assert_eq!(id.to_string(), "67e55044-10b1-426f-9247-bb680e5fe0c8");
    assert_eq!(id.as_uuid(), uuid::Uuid::parse_str(&id.to_string()).unwrap().as_u128());
    let fresh = RunId::new();
    assert_eq!(uuid::Uuid::parse_str(&fresh.to_string()).unwrap().get_version_num(), 4);
    let token = chatwoot_bridge::ids::fresh_token();
    assert_eq!(uuid::Uuid::parse_str(&token).unwrap().get_version_num(), 7);
}

#[test]
fn block_labels_ignore_case() {
    assert!(is_block_label("IA:Off"));
    assert!(is_block_label("HUMANO"));
    assert!(!is_block_label("ia:off "));
    assert!(has_label(&vec!["Fiscal".to_string()], "fiscal"));
    assert!(!has_label(&vec![], "fiscal"));
}

#[test]
fn keys_of_negative_numbers() {
    assert_eq!(buffer_key(-7), "buf:-7");
    assert_eq!(lock_key(i64::MIN), "lock:conv:-9223372036854775808");
    assert_eq!(RateLimits::conv_key(5), "rl:conv:5");
    assert_eq!(RateLimits::contact_key(6), "rl:contact:6");
    assert_eq!(RateLimits::out_key(7), "rl:out:7");
    assert_eq!(RateLimits::account_key(8), "rl:account:8");
    assert_eq!(RateLimits::budget_key("2026-07-28"), "budget:2026-07-28");
}

#[test]
fn every_state_closes_when_resolved() {
    for s in [
        AiState::AiActive,
        AiState::AiThinking,
        AiState::AwaitingHuman,
        AiState::HumanHandling,
        AiState::AiPausedManual,
        AiState::AiPausedLimit,
        AiState::Closed,
    ] {
        assert_eq!(s.transition(&StateEvent::HumanResolved).unwrap(), AiState::Closed);
    }
}

#[test]
fn a_neutral_label_changes_nothing() {
    let s = AiState::AwaitingHuman;
    assert_eq!(
        s.transition(&StateEvent::LabelAdded("fiscal".into())).unwrap(),
        AiState::AwaitingHuman
    );
}

#[test]
fn error_texts() {
    let e = AiState::Closed.transition(&StateEvent::AiStarted).unwrap_err();
    assert_eq!(e.to_string(), "invalid state transition from closed on event ai_started");
    let e = StateError::invalid_transition(AiState::AiActive, StateEvent::AiFailed);
    assert_eq!(e.from, AiState::AiActive);
    assert_eq!(CoreError::Config("x".into()).to_string(), "config error: x");
    assert_eq!(CoreError::InvalidActionKind("x".into()).to_string(), "invalid action kind: x");
    assert_eq!(CoreError::Serde("x".into()).to_string(), "serde error: x");
    assert_eq!(AgentError::Timeout.to_string(), "agent timeout");
    assert_eq!(AgentError::RateLimited.to_string(), "rate limited");
    assert_eq!(AgentError::ProviderError("x".into()).to_string(), "provider error: x");
    assert_eq!(AgentError::InvalidResponse("x".into()).to_string(), "invalid response: x");
    assert_eq!(AgentError::AuthError.to_string(), "auth error");
    assert_eq!(AgentError::BudgetExceeded.to_string(), "budget exceeded");
    assert_eq!(ChatwootError::NotFound.to_string(), "not found");
}

#[test]
fn secrets_do_not_show() {
    let s = SecretString::new("hunter2".to_string());
    assert_eq!(s.expose(), "hunter2");
    assert_eq!(s.to_string(), "[REDACTED]");
    assert!(!s.is_empty());
    assert!(SecretString::default().is_empty());
    assert_eq!(SecretString::from(" a b ".to_string()).expose(), " a b ");
    assert_eq!(" a b ".parse::<SecretString>().unwrap().expose(), " a b ");
    assert!("".parse::<SecretString>().unwrap().is_empty());
}

#[test]
fn state_predicates() {
    assert!(AiState::AiActive.can_ai_respond());
    assert!(!AiState::HumanHandling.can_ai_respond());
    assert!(AiState::AiPausedLimit.is_paused());
    assert!(!AiState::AwaitingHuman.is_paused());
}
