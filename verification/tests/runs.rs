use chatwoot_bridge::json::{F64Bits, JsonValue};
use chatwoot_bridge::worker::ack::{ContactRecency, ACK_TEXTS};
use chatwoot_bridge::worker::apply_actions::{DeskCall, DEGRADATION_TEXT};
use chatwoot_bridge::worker::consumer::AgentRunJob;
use chatwoot_bridge::worker::pipeline::{
    begin, run, Outcome, RunAction, RunEvent, RunSetup, RunStage,
};
use chatwoot_bridge::worker::script::DeskStep;
use chatwoot_bridge::worker::state::StateColumns;
use chatwoot_bridge::{
    Action, ActionKind, AgentError, AgentResponse, AiState, Config, InboundMessage, Reply, RunId,
};

const DONE: RunEvent = RunEvent::Done { elapsed_ms: 1500 };
const FAILED: RunEvent = RunEvent::Failed { elapsed_ms: 1500 };

fn setup(has_fallback: bool) -> RunSetup {
    RunSetup {
        job: AgentRunJob { conversation_id: 523, reason: None, trace_id: None },
        run_id: RunId::default(),
        provider: "openclaw",
        has_fallback,
    }
}

fn msg(id: i64, content: &str, at: &str) -> InboundMessage {
    InboundMessage { id, content: content.into(), created_at: at.into(), ..Default::default() }
}

fn columns(ai_state: &str) -> StateColumns {
    StateColumns {
        conversation_id: Some(523),
        account_id: Some(1),
        inbox_id: None,
        contact_id: Some(88),
        channel: None,
        ai_state: Some(ai_state.into()),
        chatwoot_status: None,
        assignee_id: None,
        team_id: None,
        labels: None,
        provider_session_id: None,
        prior_ai_turns_in_row: Some(0),
        last_ai_msg_hash: None,
        paused_until: None,
        pause_reason: None,
    }
}

fn answer(text: &str) -> AgentResponse {
    AgentResponse {
        reply: Some(Reply { text: text.into(), content_type: None }),
        ..Default::default()
    }
}

/// The message that a script sends to the contact.
fn message(script: &[DeskStep]) -> Option<&str> {
    script.iter().find_map(|s| match s {
        DeskStep::Call { call: DeskCall::SendMessage(t), .. } => Some(t.as_str()),
        _ => None,
    })
}

/// Runs until the row of the conversation is loaded.
fn after_loading(s: &RunSetup, ai_state: &str) -> (RunStage, RunAction) {
    let c = Config::default();
    let (st, _) = run(s, &c, begin(s), RunEvent::LockReply { set: true, now_ms: 0 });
    let messages = vec![msg(2, "b", "2026-07-28T12:00:01Z"), msg(1, "a", "2026-07-28T12:00:00Z")];
    let (st, _) = run(s, &c, st, RunEvent::Drained(messages));
    run(s, &c, st, RunEvent::Loaded(Some(columns(ai_state))))
}

/// Runs until the agent is asked.
fn asking(s: &RunSetup) -> RunStage {
    let c = Config::default();
    let (st, _) = after_loading(s, "ai_active");
    let (st, _) = run(s, &c, st, DONE);
    let (st, a) = run(s, &c, st, FAILED);
    assert!(matches!(a, RunAction::ReadSpent));
    let (st, a) = run(s, &c, st, RunEvent::Spent(None));
    assert!(matches!(a, RunAction::RunPrimary));
    st
}

#[test]
fn a_run_from_lock_to_end() {
    let s = setup(false);
    let c = Config::default();
    let st = begin(&s);
    let token = match &st {
        RunStage::Locking(q) => {
            assert_eq!(q.key, "lock:conv:523");
            assert_eq!(q.ttl_ms, 90_000);
            q.token.clone()
        }
        other => panic!("{other:?}"),
    };
    let (st, a) = run(&s, &c, st, RunEvent::LockReply { set: true, now_ms: 0 });
    match a {
        RunAction::Drain { keys } => {
            assert_eq!(keys, ["buf:523", "buf:chars:523", "buf:first:523"])
        }
        other => panic!("{other:?}"),
    }
    let messages = vec![msg(2, "b", "2026-07-28T12:00:01Z"), msg(1, "a", "2026-07-28T12:00:00Z")];
    let (st, a) = run(&s, &c, st, RunEvent::Drained(messages));
    assert!(matches!(a, RunAction::LoadState));
    let (st, a) = run(&s, &c, st, RunEvent::Loaded(Some(columns("ai_active"))));
    match a {
        RunAction::InsertRun { provider, reason, message_ids } => {
            assert_eq!(provider, "openclaw");
            assert_eq!(reason, "debounce_expired");
            assert_eq!(message_ids, vec![1, 2]);
        }
        other => panic!("{other:?}"),
    }
    let (st, a) = run(&s, &c, st, DONE);
    assert!(matches!(a, RunAction::FindRecency { key } if key == "ack:conv:523"));
    let recency = ContactRecency { first_today: true, idle_secs: 0 };
    let (st, a) = run(&s, &c, st, RunEvent::Heard { recency, acked_recently: false });
    match a {
        RunAction::SendAck { text, key, ttl_secs } => {
            assert!(ACK_TEXTS.contains(&text));
            assert_eq!(key, "ack:conv:523");
            assert!(ttl_secs >= 60);
        }
        other => panic!("{other:?}"),
    }
    let (st, a) = run(&s, &c, st, FAILED);
    assert!(matches!(a, RunAction::ReadSpent));
    let (st, a) = run(&s, &c, st, RunEvent::Spent(None));
    assert!(matches!(a, RunAction::RunPrimary));
    match &st {
        RunStage::Asking(t) => {
            assert_eq!(t.request.session_key, "cw:1:523");
            assert_eq!(t.request.turn[0].content, "a");
        }
        other => panic!("{other:?}"),
    }
    let (st, a) = run(&s, &c, st, RunEvent::Answered(Ok(answer("Tudo certo."))));
    assert!(matches!(a, RunAction::ReadLastText { key } if key == "lastout:523"));
    let (st, a) = run(&s, &c, st, RunEvent::LastText(None));
    match a {
        RunAction::Apply(script) => assert_eq!(message(&script), Some("Tudo certo.")),
        other => panic!("{other:?}"),
    }
    let (st, a) = run(&s, &c, st, DONE);
    assert!(matches!(a, RunAction::SaveState));
    match &st {
        RunStage::Saving { plan, .. } => {
            assert_eq!(plan.ai_state, AiState::AiActive);
            assert_eq!(plan.prior_ai_turns_in_row, 1);
            assert_eq!(plan.latency_ms, 1500);
        }
        other => panic!("{other:?}"),
    }
    let (st, a) = run(&s, &c, st, DONE);
    assert!(matches!(a, RunAction::FinishRun(e) if e.status == "succeeded" && e.latency_ms == 1500));
    let (st, a) = run(&s, &c, st, DONE);
    assert!(matches!(a, RunAction::Release(l) if l.token == token && l.conv_id == 523));
    let (st, a) = run(&s, &c, st, DONE);
    assert!(matches!(st, RunStage::Ended(Outcome::Completed)));
    assert!(matches!(a, RunAction::Stop));
    let (st, a) = run(&s, &c, st, DONE);
    assert!(matches!(st, RunStage::Ended(Outcome::Completed)));
    assert!(matches!(a, RunAction::Ignore));
}

#[test]
fn a_held_conversation_is_put_off() {
    let s = setup(false);
    let c = Config::default();
    let (st, a) = run(&s, &c, begin(&s), RunEvent::LockReply { set: false, now_ms: 1000 });
    assert!(matches!(a, RunAction::Requeue { member, score: 3000 } if member == "523"));
    let (st, _) = run(&s, &c, st, DONE);
    assert!(matches!(st, RunStage::Ended(Outcome::Contention)));
}

#[test]
fn an_empty_buffer_or_an_unknown_conversation_ends_the_run() {
    let s = setup(false);
    let c = Config::default();
    let (st, _) = run(&s, &c, begin(&s), RunEvent::LockReply { set: true, now_ms: 0 });
    let (st, a) = run(&s, &c, st, RunEvent::Drained(vec![]));
    assert!(matches!(a, RunAction::Release(_)));
    assert!(matches!(st, RunStage::Leaving(Outcome::EmptyBuffer)));
    let (st, _) = run(&s, &c, begin(&s), RunEvent::LockReply { set: true, now_ms: 0 });
    let (st, _) = run(&s, &c, st, RunEvent::Drained(vec![msg(1, "a", "t")]));
    let (st, a) = run(&s, &c, st, RunEvent::Loaded(None));
    assert!(matches!(a, RunAction::Release(_)));
    assert!(matches!(st, RunStage::Leaving(Outcome::UnknownConversation)));
}

#[test]
fn a_blocked_turn_is_noted_and_let_go() {
    let s = setup(true);
    let c = Config::default();
    let (st, a) = after_loading(&s, "human_handling");
    match a {
        RunAction::Note(n) => {
            assert_eq!((n.gate, n.rule.as_str(), n.decision.as_str()), ("inbound", "G5", "block"));
            assert_eq!(n.detail.get_str("reason"), Some("state:human_handling"));
        }
        other => panic!("{other:?}"),
    }
    let (st, a) = run(&s, &c, st, FAILED);
    assert!(matches!(a, RunAction::Release(_)));
    let (st, _) = run(&s, &c, st, DONE);
    assert!(matches!(st, RunStage::Ended(Outcome::Blocked { rule, .. }) if rule == "G5"));
}

#[test]
fn a_failed_primary_makes_way_for_the_fallback() {
    let s = setup(true);
    let c = Config::default();
    let (st, a) = run(&s, &c, asking(&s), RunEvent::Answered(Err(AgentError::Timeout)));
    assert!(matches!(a, RunAction::RunFallback));
    let (_, a) = run(&s, &c, st, RunEvent::Answered(Ok(answer("oi"))));
    assert!(matches!(a, RunAction::ReadLastText { .. }));
}

#[test]
fn when_both_fail_the_contact_is_told() {
    let s = setup(true);
    let c = Config::default();
    let (st, _) = run(&s, &c, asking(&s), RunEvent::Answered(Err(AgentError::Timeout)));
    let (st, a) = run(&s, &c, st, RunEvent::Answered(Err(AgentError::RateLimited)));
    match a {
        RunAction::Degrade(script) => assert_eq!(message(&script), Some(DEGRADATION_TEXT)),
        other => panic!("{other:?}"),
    }
    let (st, a) = run(&s, &c, st, DONE);
    assert!(matches!(
        a,
        RunAction::FinishRun(e) if e.status == "failed" && e.error_kind == Some("rate_limited")
    ));
    let (st, a) = run(&s, &c, st, FAILED);
    assert!(matches!(a, RunAction::Release(_)));
    assert!(matches!(st, RunStage::Leaving(Outcome::Degraded)));
}

#[test]
fn a_spent_budget_degrades_without_an_agent() {
    let s = setup(true);
    let c = Config::default();
    let (st, _) = after_loading(&s, "ai_active");
    let (st, _) = run(&s, &c, st, DONE);
    let recency = ContactRecency { first_today: false, idle_secs: 10 };
    let (st, a) = run(&s, &c, st, RunEvent::Heard { recency, acked_recently: false });
    assert!(matches!(a, RunAction::ReadSpent));
    let spent = F64Bits { bits: 1e9f64.to_bits() };
    let (st, a) = run(&s, &c, st, RunEvent::Spent(Some(spent)));
    assert!(matches!(a, RunAction::Degrade(_)));
    assert!(matches!(st, RunStage::Degrading { error: AgentError::BudgetExceeded, .. }));
}

#[test]
fn a_changed_answer_is_noted_before_it_goes_out() {
    let s = setup(false);
    let c = Config::default();
    let resolve = Action {
        kind: ActionKind::SetStatus,
        status: Some("resolved".into()),
        ..Default::default()
    };
    let response = AgentResponse { actions: vec![resolve], ..answer("oi") };
    let (st, _) = run(&s, &c, asking(&s), RunEvent::Answered(Ok(response)));
    let (st, a) = run(&s, &c, st, RunEvent::LastText(None));
    match a {
        RunAction::Note(n) => {
            assert_eq!((n.gate, n.decision.as_str()), ("outbound", "modify"));
            assert!(matches!(n.detail.get("applied"), Some(JsonValue::Array(_))));
        }
        other => panic!("{other:?}"),
    }
    let (_, a) = run(&s, &c, st, FAILED);
    match a {
        RunAction::Apply(script) => {
            assert!(!script.iter().any(|x| matches!(
                x,
                DeskStep::Call { call: DeskCall::ToggleStatus(t), .. } if t == "resolved"
            )));
        }
        other => panic!("{other:?}"),
    }
}

#[test]
fn a_repeated_answer_is_blocked() {
    let s = setup(false);
    let c = Config::default();
    let (st, _) = run(&s, &c, asking(&s), RunEvent::Answered(Ok(answer("mesma resposta"))));
    let (st, a) = run(&s, &c, st, RunEvent::LastText(Some("mesma resposta".into())));
    match a {
        RunAction::Note(n) => assert_eq!(n.decision, "block"),
        other => panic!("{other:?}"),
    }
    let (_, a) = run(&s, &c, st, DONE);
    assert!(matches!(a, RunAction::Apply(script) if message(&script).is_none()));
}

#[test]
fn a_failed_save_still_releases_the_lock() {
    let s = setup(false);
    let c = Config::default();
    let (st, _) = run(&s, &c, asking(&s), RunEvent::Answered(Ok(answer("oi"))));
    let (st, _) = run(&s, &c, st, RunEvent::LastText(None));
    let (st, _) = run(&s, &c, st, DONE);
    let (st, a) = run(&s, &c, st, FAILED);
    assert!(matches!(a, RunAction::Release(_)));
    assert!(matches!(st, RunStage::Leaving(Outcome::Failed)));
}

#[test]
fn a_failed_call_breaks_the_run_off() {
    let s = setup(false);
    let c = Config::default();
    let (st, a) = run(&s, &c, begin(&s), FAILED);
    assert!(matches!(st, RunStage::Ended(Outcome::Failed)));
    assert!(matches!(a, RunAction::Stop));
    let (st, _) = run(&s, &c, asking(&s), RunEvent::Answered(Ok(answer("oi"))));
    let (st, _) = run(&s, &c, st, RunEvent::LastText(None));
    let (st, a) = run(&s, &c, st, FAILED);
    assert!(matches!(st, RunStage::Ended(Outcome::Failed)));
    assert!(matches!(a, RunAction::Stop));
}
