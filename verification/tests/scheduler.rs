use chatwoot_bridge::config::ChatwootConfig;
use chatwoot_bridge::error::ChatwootError;
use chatwoot_bridge::json::JsonValue;
use chatwoot_bridge::notify::Notification;
use chatwoot_bridge::scheduler::desk::{
    conversation_ids, has_message, map_status, name_or_empty, sent_message_id, ChatwootClient,
    CwConversation, CwConversationPage,
};
use chatwoot_bridge::scheduler::hours::{
    is_business_hours, is_business_hours_at, is_quiet_hours, local_time, BusinessHoursConfig,
    LocalTime,
};
use chatwoot_bridge::scheduler::notice::{
    deep_link, escape, format_notification, notice, pretty_channel, ConvStateRow,
    NotificationError, TelegramNotifier,
};
use chatwoot_bridge::scheduler::reconcile::{
    reconcile_outbound, settle_outbound, Lookup, OutboundState, OutboundStep, Reposted, Waiting,
};
use chatwoot_bridge::scheduler::sla::{
    advance_timer, clamp_level, ensure_sla_timers, escalation_step, SlaKind, SlaStatus,
    TimerAdvance,
};
use chatwoot_bridge::scheduler::timer::{
    can_notify, counts_as_told, process_timer, told, DueTimer, TimerAction, TimerEvent, TimerStage,
};
use chatwoot_bridge::scheduler::{purge_cutoff, purge_statements};
use chatwoot_bridge::SecretString;

// 2026-07-28 is a Tuesday; 15:00 UTC is noon in São Paulo.
const NOON: i64 = 1_785_250_800;

#[test]
fn local_times() {
    assert_eq!(
        local_time(NOON),
        Some(LocalTime { month: 7, day: 28, weekday: 1, hour: 12 })
    );
    assert_eq!(
        local_time(0),
        Some(LocalTime { month: 12, day: 31, weekday: 2, hour: 21 })
    );
    assert_eq!(local_time(i64::MIN), None);
    assert_eq!(local_time(i64::MAX), None);
}

#[test]
fn business_hours() {
    let cfg = BusinessHoursConfig::default();
    assert_eq!(is_business_hours_at(&cfg, NOON), Some(true));
    assert_eq!(is_business_hours_at(&cfg, NOON + 6 * 3600), Some(false));
    assert_eq!(is_business_hours_at(&cfg, NOON - 4 * 3600 - 1), Some(false));
    assert_eq!(is_business_hours_at(&cfg, NOON - 4 * 3600), Some(true));
    assert_eq!(is_business_hours_at(&cfg, NOON + 4 * 86400), Some(false));
    assert_eq!(is_business_hours_at(&cfg, i64::MAX), None);
    let at = |month: u8, day: u8| LocalTime { month, day, weekday: 1, hour: 12 };
    for (m, d) in [(1, 1), (4, 21), (5, 1), (9, 7), (10, 12), (11, 2), (11, 15), (12, 25)] {
        assert!(!is_business_hours(&cfg, at(m, d)));
    }
    assert!(!is_business_hours(&cfg, at(12, 23)));
    assert!(is_business_hours(&cfg, at(12, 22)));
    assert!(!is_business_hours(&cfg, at(1, 6)));
    assert!(is_business_hours(&cfg, at(1, 7)));
    assert!(is_quiet_hours(22) && is_quiet_hours(6));
    assert!(!is_quiet_hours(7) && !is_quiet_hours(21));
}

#[test]
fn the_ladder() {
    let delays: Vec<i16> = (0..5).map(|l| escalation_step(l).delay_accumulated_minutes).collect();
    assert_eq!(delays, vec![3, 10, 20, 40, 60]);
    assert_eq!(escalation_step(1).channels, vec!["whatsapp", "telegram"]);
    assert_eq!(escalation_step(2).recipient, "team_member");
    assert_eq!(escalation_step(4).channels, vec!["whatsapp", "email"]);
    assert_eq!(clamp_level(-1), 0);
    assert_eq!(clamp_level(9), 4);
    assert_eq!(
        advance_timer(0, 1000),
        TimerAdvance::Rearm { level: 1, due_micros: 1000 + 7 * 60_000_000 }
    );
    assert_eq!(
        advance_timer(3, 0),
        TimerAdvance::Rearm { level: 4, due_micros: 20 * 60_000_000 }
    );
    assert_eq!(advance_timer(4, 0), TimerAdvance::Violated);
}

#[test]
fn kinds_and_states_of_timers() {
    assert_eq!(SlaKind::FirstResponse.as_str(), "first_response");
    assert_eq!(SlaKind::HumanResponse.as_str(), "human_response");
    assert_eq!(SlaKind::Assignment.as_str(), "assignment");
    assert_eq!(SlaKind::Resolution.as_str(), "resolution");
    assert_eq!(SlaKind::Resolution.base_minutes(), 60);
    assert_eq!(SlaKind::Assignment.base_minutes(), 3);
    assert_eq!(SlaStatus::Armed.as_str(), "armed");
    assert_eq!(SlaStatus::Fired.as_str(), "fired");
    assert_eq!(SlaStatus::Cancelled.as_str(), "cancelled");
    assert_eq!(ensure_sla_timers("resolution", None, 0), Some(3_600_000_000));
    assert_eq!(ensure_sla_timers("assignment", None, 5), Some(180_000_005));
    assert_eq!(ensure_sla_timers("assignment", Some("cancelled"), 5), Some(180_000_005));
    assert_eq!(ensure_sla_timers("assignment", Some("armed"), 5), None);
}

fn conv() -> ConvStateRow {
    ConvStateRow {
        conversation_id: 523,
        account_id: 1,
        contact_id: 88,
        channel: "Channel::Whatsapp".into(),
        ai_state: "awaiting_human".into(),
        chatwoot_status: "open".into(),
        assignee_id: Some(12),
        team_id: None,
        labels: vec!["ia:falha".into(), "sla:violado".into(), "fiscal".into()],
    }
}

#[test]
fn texts_of_notices() {
    assert_eq!(
        format_notification(&conv(), "João", 1, "L"),
        "🔔 Atendimento pendente há 10 min\n\nCliente: João\nAssunto: fiscal\nCanal: WhatsApp\nFila: —\n\nAbrir: L"
    );
    let bare = ConvStateRow { labels: vec![], team_id: Some(4), channel: "x".into(), ..conv() };
    assert_eq!(
        format_notification(&bare, "", 0, "L"),
        "🔔 Atendimento pendente há 3 min\n\nCliente: —\nAssunto: Atendimento pendente\nCanal: Chat\nFila: 4\n\nAbrir: L"
    );
    assert_eq!(pretty_channel("Instagram"), "Instagram");
    assert_eq!(pretty_channel("EMAIL"), "E-mail");
    assert_eq!(pretty_channel("WebWidget"), "Widget");
    assert_eq!(
        deep_link("https://chat.x//", 1, 523),
        "https://chat.x/app/accounts/1/conversations/523"
    );
    let n = notice(523, &conv(), "João", 2, "https://chat.x");
    assert_eq!(n.recipient, "12");
    assert_eq!(n.level, 2);
    assert_eq!(n.deep_link, "https://chat.x/app/accounts/1/conversations/523");
}

#[test]
fn the_bot_of_the_scheduler() {
    assert_eq!(escape("a & b <c> &amp;"), "a &amp; b &lt;c> &amp;amp;");
    let n = Notification {
        conversation_id: 1,
        recipient: "12".into(),
        level: 0,
        message: "<b>".into(),
        deep_link: "".into(),
    };
    let bot = TelegramNotifier::new("t".into(), Some(-100));
    let call = bot.send(&n).unwrap();
    assert_eq!(call.url, "https://api.telegram.org/bott/sendMessage");
    assert_eq!(call.body.get("chat_id").unwrap().as_i64(), Some(-100));
    assert_eq!(call.body.get_str("text"), Some("&lt;b>"));
    assert_eq!(bot.channel_name(), "telegram");
    let e = TelegramNotifier::new("t".into(), None).send(&n).unwrap_err();
    assert_eq!(e.to_string(), "not configured");
    assert!(bot.check(200).is_ok());
    assert_eq!(bot.check(403).unwrap_err().to_string(), "channel error: telegram http 403");
    assert!(matches!(bot.check(500), Err(NotificationError::Channel(_))));
}

fn due(level: i16) -> DueTimer {
    DueTimer {
        conversation_id: 523,
        escalation_level: level,
        own_channel: "telegram",
        base_url: "https://chat.x".into(),
        max_per_hour: 10,
    }
}

#[test]
fn a_timer_tells_and_goes_up() {
    let t = due(1);
    let (s, a) = process_timer(
        &t,
        TimerStage::Opening,
        TimerEvent::Clock { business: true, quiet: false },
    );
    assert!(matches!(a, TimerAction::LoadState));
    let (s, a) = process_timer(&t, s, TimerEvent::State(Some(conv())));
    assert!(matches!(a, TimerAction::FindLog { level: 1 }));
    let (s, a) = process_timer(&t, s, TimerEvent::Logged(vec![]));
    assert!(matches!(a, TimerAction::CountLastHour { recipient } if recipient == "12"));
    let (s, a) = process_timer(&t, s, TimerEvent::LastHour(9));
    assert!(matches!(a, TimerAction::FetchName { contact_id: 88 }));
    let (s, a) = process_timer(&t, s, TimerEvent::Name("João".into()));
    assert!(matches!(a, TimerAction::Record { channel: "whatsapp", state: "pending" }));
    let (s, a) = process_timer(&t, s, TimerEvent::Recorded);
    assert!(matches!(a, TimerAction::Deliver));
    let (s, a) = process_timer(&t, s, TimerEvent::Delivered(true));
    assert!(matches!(a, TimerAction::Record { channel: "telegram", state: "sent" }));
    let (s, a) = process_timer(&t, s, TimerEvent::Recorded);
    assert!(matches!(a, TimerAction::Advance { level: 1 }));
    assert!(matches!(s, TimerStage::Over));
}

#[test]
fn a_timer_that_told_nobody_stays() {
    let t = due(0);
    let (s, a) = process_timer(&t, TimerStage::Naming(conv()), TimerEvent::Name("".into()));
    assert!(matches!(a, TimerAction::Record { channel: "whatsapp", state: "pending" }));
    let (s, a) = process_timer(&t, s, TimerEvent::Recorded);
    assert!(matches!((s, a), (TimerStage::Over, TimerAction::Stop)));
    let t = due(1);
    let (s, _) = process_timer(&t, TimerStage::Naming(conv()), TimerEvent::Name("".into()));
    let (s, _) = process_timer(&t, s, TimerEvent::Recorded);
    let (s, a) = process_timer(&t, s, TimerEvent::Delivered(false));
    assert!(matches!(a, TimerAction::Record { channel: "telegram", state: "failed" }));
    let (_, a) = process_timer(&t, s, TimerEvent::Recorded);
    assert!(matches!(a, TimerAction::Stop));
}

#[test]
fn a_level_nobody_was_told_of_is_tried_again() {
    let t = due(0);
    let mut log: Vec<String> = vec![];
    for _ in 0..2 {
        let clock = TimerEvent::Clock { business: true, quiet: false };
        let (s, _) = process_timer(&t, TimerStage::Opening, clock);
        let (s, _) = process_timer(&t, s, TimerEvent::State(Some(conv())));
        let (s, a) = process_timer(&t, s, TimerEvent::Logged(log.clone()));
        assert!(matches!(a, TimerAction::CountLastHour { .. }));
        let (s, _) = process_timer(&t, s, TimerEvent::LastHour(0));
        let (s, a) = process_timer(&t, s, TimerEvent::Name("João".into()));
        assert!(matches!(a, TimerAction::Record { channel: "whatsapp", state: "pending" }));
        log = vec!["pending".into()];
        let (s, a) = process_timer(&t, s, TimerEvent::Recorded);
        assert!(matches!((s, a), (TimerStage::Over, TimerAction::Stop)));
    }
    assert!(counts_as_told(Some("sent")));
    assert!(!counts_as_told(Some("pending")));
    assert!(!counts_as_told(Some("failed")));
    assert!(!counts_as_told(None));
    assert!(told(&vec!["failed".into(), "sent".into()]));
    assert!(!told(&vec!["failed".into(), "pending".into()]));
}

#[test]
fn a_timer_rests_is_cancelled_or_goes_on() {
    let clock = |business, quiet| TimerEvent::Clock { business, quiet };
    let (_, a) = process_timer(&due(0), TimerStage::Opening, clock(false, false));
    assert!(matches!(a, TimerAction::Stop));
    let (_, a) = process_timer(&due(2), TimerStage::Opening, clock(true, true));
    assert!(matches!(a, TimerAction::Stop));
    let (_, a) = process_timer(&due(3), TimerStage::Opening, clock(true, true));
    assert!(matches!(a, TimerAction::LoadState));
    let (_, a) = process_timer(&due(0), TimerStage::Loading, TimerEvent::State(None));
    assert!(matches!(a, TimerAction::Cancel("state_missing")));
    let closed = ConvStateRow { ai_state: "closed".into(), ..conv() };
    let (_, a) = process_timer(&due(0), TimerStage::Loading, TimerEvent::State(Some(closed)));
    assert!(matches!(a, TimerAction::Cancel("human_handling")));
    let sent = TimerEvent::Logged(vec!["pending".into(), "sent".into()]);
    let (_, a) = process_timer(&due(9), TimerStage::Checking(conv()), sent);
    assert!(matches!(a, TimerAction::Advance { level: 4 }));
    let (_, a) = process_timer(&due(0), TimerStage::Counting(conv()), TimerEvent::LastHour(10));
    assert!(matches!(a, TimerAction::Stop));
    let (_, a) = process_timer(&due(0), TimerStage::Opening, TimerEvent::Recorded);
    assert!(matches!(a, TimerAction::Ignore));
    assert!(can_notify(0, 1));
    assert!(!can_notify(1, 1));
}

#[test]
fn waiting_messages() {
    assert_eq!(reconcile_outbound(Lookup::Found, 9), OutboundStep::MarkSent);
    assert_eq!(reconcile_outbound(Lookup::Failed, 0), OutboundStep::Leave);
    assert_eq!(reconcile_outbound(Lookup::NotFound, 2), OutboundStep::Repost);
    assert_eq!(reconcile_outbound(Lookup::NotAsked, 3), OutboundStep::Abandon);
}

#[test]
fn what_is_written_of_a_waiting_message() {
    let u = settle_outbound(Lookup::Found, 1, None).unwrap();
    assert_eq!(u.waiting, Waiting { state: OutboundState::Sent, attempts: 1 });
    assert_eq!((u.msg_id, u.error), (None, None));
    assert!(settle_outbound(Lookup::Failed, 1, None).is_none());
    let u = settle_outbound(Lookup::NotFound, 3, None).unwrap();
    assert_eq!(u.waiting, Waiting { state: OutboundState::Abandoned, attempts: 3 });
    assert_eq!((u.msg_id, u.error.as_deref()), (None, Some("max_attempts")));
    let u = settle_outbound(Lookup::NotAsked, 0, Some(Reposted::Taken(77))).unwrap();
    assert_eq!(u.waiting, Waiting { state: OutboundState::Sent, attempts: 1 });
    assert_eq!((u.msg_id, u.error), (Some(77), None));
    let u = settle_outbound(Lookup::NotFound, 2, Some(Reposted::Failed("down".into()))).unwrap();
    assert_eq!(u.waiting, Waiting { state: OutboundState::Pending, attempts: 3 });
    assert_eq!((u.msg_id, u.error.as_deref()), (None, Some("down")));
    assert_eq!(OutboundState::Pending.as_str(), "pending");
    assert_eq!(OutboundState::Sent.as_str(), "sent");
    assert_eq!(OutboundState::Abandoned.as_str(), "abandoned");
}

#[test]
fn the_desk_of_the_scheduler() {
    let cfg = ChatwootConfig {
        base_url: "https://chat.x/".into(),
        account_id: 1,
        bot_token: SecretString::new("tok".into()),
        ..Default::default()
    };
    let c = ChatwootClient::new(&cfg);
    assert_eq!(c.base(), "https://chat.x");
    assert_eq!(c.account_id(), 1);
    assert_eq!(
        c.list_open_conversations().url,
        "https://chat.x/api/v1/accounts/1/conversations?status=open&assignee_type=all"
    );
    assert_eq!(c.get_conversation(5).url, "https://chat.x/api/v1/accounts/1/conversations/5");
    assert_eq!(c.get_contact_name(8).url, "https://chat.x/api/v1/accounts/1/contacts/8");
    assert!(c.get_labels(5).url.ends_with("/conversations/5/labels"));
    assert!(c.conversation_has_message(5).body.is_none());
    let q = c.add_label(5, &vec!["a".to_string()], "sla:violado").unwrap();
    let labels = q.body.unwrap();
    assert_eq!(labels.get("labels").unwrap().as_array().unwrap().len(), 2);
    assert!(c.add_label(5, &vec!["SLA:Violado".to_string()], "sla:violado").is_none());
    assert_eq!(c.toggle_status(5, "open").body.unwrap().get_str("status"), Some("open"));
    assert_eq!(c.assign_team(5, 4).body.unwrap().get("team_id").unwrap().as_i64(), Some(4));
    let note = c.send_private_note(5, "n").body.unwrap();
    assert!(matches!(note.get("private"), Some(JsonValue::Bool(true))));
    let again = c.repost_message(5, &JsonValue::Str("p".into()));
    assert!(again.url.ends_with("/conversations/5/messages"));
    assert_eq!(again.body.unwrap().as_str(), Some("p"));
}

#[test]
fn replies_of_the_desk() {
    assert!(matches!(map_status(401), ChatwootError::AuthError));
    assert!(matches!(map_status(403), ChatwootError::AuthError));
    assert!(matches!(map_status(404), ChatwootError::NotFound));
    assert!(matches!(map_status(408), ChatwootError::Timeout));
    assert!(matches!(map_status(429), ChatwootError::RateLimited));
    assert!(matches!(map_status(500), ChatwootError::ApiError(m) if m == "http 500"));
    let page = CwConversationPage {
        data: vec![
            CwConversation { id: Some(1), ..Default::default() },
            CwConversation::default(),
            CwConversation { id: Some(3), ..Default::default() },
        ],
    };
    assert_eq!(conversation_ids(&page), vec![1, 3]);
    assert!(has_message(&vec![None, Some(7)], 7));
    assert!(!has_message(&vec![None], 7));
    let reply = JsonValue::Object(vec![("id".to_string(), JsonValue::PosInt(7))]);
    assert_eq!(sent_message_id(&reply), 7);
    assert_eq!(sent_message_id(&JsonValue::Null), 0);
    assert_eq!(name_or_empty(None), "");
    assert_eq!(name_or_empty(Some("x".into())), "x");
}

#[test]
fn old_data_is_purged() {
    let tables: Vec<&str> = purge_statements().iter().map(|s| s.0).collect();
    assert_eq!(tables, vec!["message_log", "agent_run", "notification_log"]);
    assert_eq!(purge_cutoff(86400 * 10, 3), 86400 * 7);
}
