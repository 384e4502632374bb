use chatwoot_bridge::json::JsonValue;
use chatwoot_bridge::notify::{
    check_reply, format_notification, smtp_failure, Delivery, EmailNotifier, Notification,
    Notifier, NotifierRegistry, NotifyError, TelegramNotifier, WhatsAppNotifier,
};

#[test]
fn test_format() {
    let msg = format_notification(
        "João",
        "ABC",
        "Fiscal",
        "WhatsApp",
        "Fiscal",
        "https://chat.abc.com/c/123",
    );
    assert!(msg.contains("João"));
    assert!(msg.contains("https://chat.abc.com/c/123"));
    assert!(msg.contains("🔔 Atendimento pendente"));
    assert!(msg.contains("Fila: Fiscal"));
}

#[test]
fn test_registry_empty_send_all() {
    let mut reg = NotifierRegistry::new();
    let results = reg.send_all(&Notification {
        conversation_id: 523,
        recipient: "123".to_string(),
        level: 0,
        message: "x".to_string(),
        deep_link: "https://chat.abc.com/c/523".to_string(),
    });
    assert!(results.is_empty());
    let _ = &mut reg;
}

#[test]
fn test_registry_send_to_channels_skips_unknown() {
    let reg = NotifierRegistry::new();
    let results = reg.send_to_channels(
        &vec!["telegram".to_string(), "inexistente".to_string()],
        &Notification {
            conversation_id: 1,
            recipient: "r".to_string(),
            level: 1,
            message: "m".to_string(),
            deep_link: "d".to_string(),
        },
    );
    assert!(results.is_empty());
}

#[test]
fn test_email_build_message_shape() {
    let notifier = EmailNotifier::new("127.0.0.1", 25, "bot@escritorio.com", "Íris");
    let msg = notifier.build_message(&Notification {
        conversation_id: 523,
        recipient: "atendente@escritorio.com".to_string(),
        level: 2,
        message: "corpo da notificação".to_string(),
        deep_link: "https://chat.escritorio.com/c/523".to_string(),
    });
    assert!(msg.contains("From: Íris <bot@escritorio.com>"));
    assert!(msg.contains("To: atendente@escritorio.com"));
    assert!(msg.contains("conv 523"));
    assert!(msg.contains("nivel 2"));
    assert!(msg.contains("corpo da notificação"));
    assert!(msg.contains("\r\n.\r\n") || msg.ends_with("\r\n"));
}

#[test]
fn test_telegram_url() {
    let n = TelegramNotifier::new("123:ABC");
    assert!(n.url().ends_with("/bot123:ABC/sendMessage"));
    assert_eq!(n.channel_name(), "telegram");
}

#[test]
fn test_whatsapp_url_and_name() {
    let n = WhatsAppNotifier::new("tok", "phid", "atendimento_pendente");
    assert!(n.url().contains("/v22.0/phid/messages"));
    assert_eq!(n.channel_name(), "whatsapp");
}

fn sample() -> Notification {
    Notification {
        conversation_id: 1,
        recipient: "x".to_string(),
        level: 3,
        message: "m".to_string(),
        deep_link: "d".to_string(),
    }
}

#[test]
fn test_notification_clone_serde() {
    let n = sample();
    let cloned = n.clone();
    assert_eq!(cloned.level, 3);
    let json = n.to_json();
    let back = Notification::from_json(&json).unwrap();
    assert_eq!(back.recipient, "x");
}

#[test]
fn the_standard_text_is_fixed() {
    assert_eq!(
        format_notification("A", "B", "C", "D", "E", "F"),
        "🔔 Atendimento pendente\n\nCliente: A — B\nAssunto: C\nCanal: D\nFila: E\n\nAbrir: F"
    );
}

#[test]
fn the_mail_is_fixed() {
    let e = EmailNotifier::new("relay", 25, "bot@x", "Bot");
    assert_eq!(
        e.build_message(&sample()),
        "From: Bot <bot@x>\r\nTo: x\r\nSubject: Atendimento pendente (conv 1 - nivel 3)\r\nContent-Type: text/plain; charset=utf-8\r\n\r\nm\r\n"
    );
    match e.send(&sample()) {
        Delivery::Smtp { host, port, steps } => {
            assert_eq!((host.as_str(), port), ("relay", 25));
            let texts: Vec<&str> = steps.iter().map(|s| s.text.as_str()).collect();
            assert_eq!(texts[0], "EHLO relay\r\n");
            assert_eq!(texts[1], "MAIL FROM:<bot@x>\r\n");
            assert_eq!(texts[2], "RCPT TO:<x>\r\n");
            assert_eq!(texts[3], "DATA\r\n");
            assert_eq!(texts[5], "\r\n.\r\n");
            assert!(!steps[4].answered);
        }
        other => panic!("{other:?}"),
    }
}

#[test]
fn bodies_of_the_web_channels() {
    match TelegramNotifier::new("t").send(&sample()) {
        Delivery::Post(c) => {
            assert_eq!(c.url, "https://api.telegram.org/bott/sendMessage");
            assert_eq!(c.timeout_ms, 10000);
            assert_eq!(c.body.get_str("chat_id"), Some("x"));
            assert_eq!(c.body.get_str("parse_mode"), Some("HTML"));
            assert!(matches!(c.body.get("disable_web_page_preview"), Some(JsonValue::Bool(true))));
        }
        other => panic!("{other:?}"),
    }
    match WhatsAppNotifier::new("tok", "ph", "tpl").send(&sample()) {
        Delivery::Post(c) => {
            assert_eq!(c.headers, vec![("authorization".to_string(), "Bearer tok".to_string())]);
            let t = c.body.get("template").unwrap();
            assert_eq!(t.get_str("name"), Some("tpl"));
            assert_eq!(t.get("language").unwrap().get_str("code"), Some("pt_BR"));
            let part = &t.get("components").unwrap().as_array().unwrap()[0];
            let p = &part.get("parameters").unwrap().as_array().unwrap()[0];
            assert_eq!(p.get_str("text"), Some("m"));
        }
        other => panic!("{other:?}"),
    }
}

#[test]
fn registered_channels_are_used() {
    let mut reg = NotifierRegistry::default();
    reg.register("telegram", Notifier::Telegram(TelegramNotifier::new("one")));
    reg.register("telegram", Notifier::Telegram(TelegramNotifier::new("two")));
    reg.register("email", Notifier::Email(EmailNotifier::new("h", 25, "a", "n")));
    let all = reg.send_all(&sample());
    assert_eq!(all.len(), 2);
    let names = vec!["email".to_string(), "sms".to_string(), "telegram".to_string()];
    let some = reg.send_to_channels(&names, &sample());
    assert_eq!(some.len(), 2);
    assert_eq!(some[0].0, "email");
    assert_eq!(some[1].0, "telegram");
    assert!(matches!(&some[1].1, Delivery::Post(c) if c.url.contains("/bottwo/")));
}

#[test]
fn failures_of_channels() {
    assert!(check_reply("telegram", 200, "200 OK", "").is_ok());
    let e = check_reply("telegram", 400, "400 Bad Request", "no chat").unwrap_err();
    assert_eq!(e.to_string(), "channel unavailable: telegram 400 Bad Request: no chat");
    assert_eq!(smtp_failure("smtp connect", "refused").to_string(), "channel unavailable: smtp connect: refused");
    assert_eq!(NotifyError::Http("x".into()).to_string(), "http error: x");
    assert_eq!(NotifyError::Template("x".into()).to_string(), "template error: x");
}

#[test]
fn a_broken_notification_is_not_read() {
    assert!(Notification::from_json(&JsonValue::Null).is_none());
    let mut j = sample().to_json();
    if let JsonValue::Object(m) = &mut j {
        m[2].1 = JsonValue::PosInt(40000);
    }
    assert!(Notification::from_json(&j).is_none());
}
