use chatwoot_bridge::json::F64Bits;
use chatwoot_bridge::{Config, RawConfig};

fn set(s: &str) -> Option<String> {
    Some(s.to_string())
}

#[test]
fn values_are_read() {
    let c = Config::from_raw(RawConfig {
        chatwoot_account_id: set("7"),
        buffer_debounce_ms: set("1500"),
        ai_enabled: set("false"),
        webhook_secrets: set("a, b,,"),
        ai_enabled_inboxes: set("1,x,3"),
        daily_budget_usd: Some(F64Bits { bits: 9.5f64.to_bits() }),
        ..Default::default()
    });
    assert_eq!(c.chatwoot.account_id, 7);
    assert_eq!(c.buffer.debounce_ms, 1500);
    assert!(!c.agent.ai_enabled);
    let secrets: Vec<&str> = c.chatwoot.webhook_secrets.iter().map(|s| s.expose()).collect();
    assert_eq!(secrets, vec!["a", "b"]);
    assert_eq!(c.chatwoot.ai_enabled_inboxes, vec![1, 3]);
    assert_eq!(f64::from_bits(c.rate_limits.daily_budget_usd.bits), 9.5);
}

#[test]
fn unreadable_numbers_keep_their_defaults() {
    let c = Config::from_raw(RawConfig {
        buffer_debounce_ms: set("soon"),
        rl_conv_runs_per_min: set("-1"),
        ..Default::default()
    });
    assert_eq!(c.buffer.debounce_ms, 6000);
    assert_eq!(c.rate_limits.conv_runs_per_min, 6);
}
