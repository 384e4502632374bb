//! Configuration: every setting, its default, and how it is read.
//!
//! The program hands the environment in as a [`RawConfig`] of optional texts;
//! a setting that is absent or cannot be read keeps its default.
use crate::ids::{AccountId, InboxId};
use crate::json::F64Bits;
use crate::ratelimit::RateLimits;
use crate::secrets::SecretString;
use crate::text;
use crate::text::{
    ascii_lowered, opt_text, parsed_int, parsed_nat, split_on, texts, trimmed, within,
};
use vstd::prelude::*;

verus! {

/// The settings as found in the environment, under their names in small letters.
/// The daily budget comes as a number already.
#[derive(Debug, Clone)]
pub struct RawConfig {
    pub chatwoot_base_url: Option<String>,
    pub chatwoot_account_id: Option<String>,
    pub chatwoot_bot_token: Option<String>,
    pub chatwoot_platform_token: Option<String>,
    pub webhook_secrets: Option<String>,
    pub ai_enabled_inboxes: Option<String>,
    pub fallback_team_id: Option<String>,
    pub agent_display_name: Option<String>,
    pub ai_disclosure_text: Option<String>,
    pub agent_provider: Option<String>,
    pub agent_provider_fallback: Option<String>,
    pub openclaw_base_url: Option<String>,
    pub openclaw_token: Option<String>,
    pub openclaw_agent_id: Option<String>,
    pub hermes_shim_url: Option<String>,
    pub anthropic_api_key: Option<String>,
    pub anthropic_model_family: Option<String>,
    pub agent_timeout_ms: Option<String>,
    pub agent_max_output_chars: Option<String>,
    pub buffer_debounce_ms: Option<String>,
    pub buffer_max_wait_ms: Option<String>,
    pub buffer_max_messages: Option<String>,
    pub buffer_max_chars: Option<String>,
    pub buffer_media_debounce_ms: Option<String>,
    pub rl_conv_runs_per_min: Option<String>,
    pub rl_contact_runs_per_hour: Option<String>,
    pub rl_out_msgs_per_conv_per_hour: Option<String>,
    pub rl_account_runs_per_min: Option<String>,
    pub max_concurrent_agent_runs: Option<String>,
    pub max_consecutive_ai_turns: Option<String>,
    pub daily_budget_usd: Option<F64Bits>,
    pub ai_enabled: Option<String>,
    pub ai_block_labels: Option<String>,
    pub ai_silent_label: Option<String>,
    pub after_hours_mode: Option<String>,
    pub ack_threshold_ms: Option<String>,
    pub ack_cooldown_ms: Option<String>,
    pub allowed_link_domains: Option<String>,
    pub notify_channels: Option<String>,
    pub telegram_bot_token: Option<String>,
    pub whatsapp_cloud_token: Option<String>,
    pub whatsapp_template_name: Option<String>,
    pub notify_quiet_hours: Option<String>,
    pub notify_max_per_agent_per_hour: Option<String>,
    pub database_url: Option<String>,
    pub redis_url: Option<String>,
    pub tools_service_url: Option<String>,
    pub tools_service_token: Option<String>,
    pub data_retention_days: Option<String>,
    pub log_level: Option<String>,
    pub log_redact_pii: Option<String>,
    pub otel_exporter_otlp_endpoint: Option<String>,
}

/// An environment without any setting.
pub open spec fn unset() -> RawConfig {
    RawConfig {
        chatwoot_base_url: None,
        chatwoot_account_id: None,
        chatwoot_bot_token: None,
        chatwoot_platform_token: None,
        webhook_secrets: None,
        ai_enabled_inboxes: None,
        fallback_team_id: None,
        agent_display_name: None,
        ai_disclosure_text: None,
        agent_provider: None,
        agent_provider_fallback: None,
        openclaw_base_url: None,
        openclaw_token: None,
        openclaw_agent_id: None,
        hermes_shim_url: None,
        anthropic_api_key: None,
        anthropic_model_family: None,
        agent_timeout_ms: None,
        agent_max_output_chars: None,
        buffer_debounce_ms: None,
        buffer_max_wait_ms: None,
        buffer_max_messages: None,
        buffer_max_chars: None,
        buffer_media_debounce_ms: None,
        rl_conv_runs_per_min: None,
        rl_contact_runs_per_hour: None,
        rl_out_msgs_per_conv_per_hour: None,
        rl_account_runs_per_min: None,
        max_concurrent_agent_runs: None,
        max_consecutive_ai_turns: None,
        daily_budget_usd: None,
        ai_enabled: None,
        ai_block_labels: None,
        ai_silent_label: None,
        after_hours_mode: None,
        ack_threshold_ms: None,
        ack_cooldown_ms: None,
        allowed_link_domains: None,
        notify_channels: None,
        telegram_bot_token: None,
        whatsapp_cloud_token: None,
        whatsapp_template_name: None,
        notify_quiet_hours: None,
        notify_max_per_agent_per_hour: None,
        database_url: None,
        redis_url: None,
        tools_service_url: None,
        tools_service_token: None,
        data_retention_days: None,
        log_level: None,
        log_redact_pii: None,
        otel_exporter_otlp_endpoint: None,
    }
}

impl Default for RawConfig {
    fn default() -> (r: Self)
        ensures
            r == unset(),
    {
        RawConfig {
            chatwoot_base_url: None,
            chatwoot_account_id: None,
            chatwoot_bot_token: None,
            chatwoot_platform_token: None,
            webhook_secrets: None,
            ai_enabled_inboxes: None,
            fallback_team_id: None,
            agent_display_name: None,
            ai_disclosure_text: None,
            agent_provider: None,
            agent_provider_fallback: None,
            openclaw_base_url: None,
            openclaw_token: None,
            openclaw_agent_id: None,
            hermes_shim_url: None,
            anthropic_api_key: None,
            anthropic_model_family: None,
            agent_timeout_ms: None,
            agent_max_output_chars: None,
            buffer_debounce_ms: None,
            buffer_max_wait_ms: None,
            buffer_max_messages: None,
            buffer_max_chars: None,
            buffer_media_debounce_ms: None,
            rl_conv_runs_per_min: None,
            rl_contact_runs_per_hour: None,
            rl_out_msgs_per_conv_per_hour: None,
            rl_account_runs_per_min: None,
            max_concurrent_agent_runs: None,
            max_consecutive_ai_turns: None,
            daily_budget_usd: None,
            ai_enabled: None,
            ai_block_labels: None,
            ai_silent_label: None,
            after_hours_mode: None,
            ack_threshold_ms: None,
            ack_cooldown_ms: None,
            allowed_link_domains: None,
            notify_channels: None,
            telegram_bot_token: None,
            whatsapp_cloud_token: None,
            whatsapp_template_name: None,
            notify_quiet_hours: None,
            notify_max_per_agent_per_hour: None,
            database_url: None,
            redis_url: None,
            tools_service_url: None,
            tools_service_token: None,
            data_retention_days: None,
            log_level: None,
            log_redact_pii: None,
            otel_exporter_otlp_endpoint: None,
        }
    }
}

#[derive(Debug, Clone)]
pub struct Config {
    pub chatwoot: ChatwootConfig,
    pub agent: AgentConfig,
    pub buffer: BufferConfig,
    pub rate_limits: RateLimits,
    pub notification: NotificationConfig,
    pub infra: InfraConfig,
}

#[derive(Debug, Clone)]
pub struct ChatwootConfig {
    pub base_url: String,
    pub account_id: AccountId,
    pub bot_token: SecretString,
    pub platform_token: Option<SecretString>,
    /// Secrets that sign webhooks; several during a rotation.
    pub webhook_secrets: Vec<SecretString>,
    /// Inboxes in which the AI works; empty for all.
    pub ai_enabled_inboxes: Vec<InboxId>,
    pub fallback_team_id: i64,
}

#[derive(Debug, Clone)]
pub struct AgentConfig {
    pub display_name: String,
    pub disclosure_text: String,
    pub provider: String,
    pub provider_fallback: String,
    pub openclaw_base_url: String,
    pub openclaw_token: SecretString,
    pub openclaw_agent_id: String,
    pub hermes_shim_url: String,
    pub anthropic_api_key: SecretString,
    /// The family of models of the direct provider: how the names of its models
    /// begin.
    pub anthropic_model_family: String,
    pub timeout_ms: u64,
    pub max_output_chars: usize,
    /// Global switch.
    pub ai_enabled: bool,
    pub ai_block_labels: Vec<String>,
    pub ai_silent_label: String,
    /// `"ai"`, `"static"` or `"off"`.
    pub after_hours_mode: String,
    pub ack_threshold_ms: u64,
    pub ack_cooldown_ms: u64,
    pub allowed_link_domains: Vec<String>,
}

#[derive(Debug, Clone, Copy)]
pub struct BufferConfig {
    pub debounce_ms: u64,
    pub max_wait_ms: u64,
    pub max_messages: u32,
    pub max_chars: u32,
    pub media_debounce_ms: u64,
}

#[derive(Debug, Clone)]
pub struct NotificationConfig {
    pub channels: Vec<String>,
    pub telegram_bot_token: SecretString,
    pub whatsapp_cloud_token: SecretString,
    pub whatsapp_template_name: String,
    pub quiet_hours: String,
    pub max_per_agent_per_hour: u32,
}

#[derive(Debug, Clone)]
pub struct InfraConfig {
    pub database_url: SecretString,
    pub redis_url: SecretString,
    pub tools_service_url: String,
    pub tools_service_token: SecretString,
    pub data_retention_days: u32,
    pub log_level: String,
    pub log_redact_pii: bool,
    pub otel_endpoint: Option<String>,
}

// ---------------------------------------------------------------------------
// Reading one setting
// ---------------------------------------------------------------------------

/// The text of a setting, or `d`.
pub open spec fn text_or(o: Option<String>, d: Seq<char>) -> Seq<char> {
    match o {
        Some(s) => s@,
        None => d,
    }
}

/// The number of a setting where it is one in `0..=max`, or `d`.
pub open spec fn nat_or(o: Option<String>, max: int, d: int) -> int {
    match o {
        Some(s) => match within(parsed_nat(trimmed(s@)), 0, max) {
            Some(n) => n,
            None => d,
        },
        None => d,
    }
}

/// The signed number of a setting where it is one of 64 bits, or `d`.
pub open spec fn int_or(o: Option<String>, d: int) -> int {
    match o {
        Some(s) => match within(parsed_int(trimmed(s@)), i64::MIN as int, i64::MAX as int) {
            Some(n) => n,
            None => d,
        },
        None => d,
    }
}

/// The truth value that a word stands for.
pub open spec fn flag_named(s: Seq<char>) -> Option<bool> {
    let t = ascii_lowered(trimmed(s));
    if t == "1"@ || t == "true"@ || t == "yes"@ || t == "on"@ {
        Some(true)
    } else if t == "0"@ || t == "false"@ || t == "no"@ || t == "off"@ {
        Some(false)
    } else {
        None
    }
}

/// A switch is on unless a word turns it off.
pub open spec fn flag_or_true(o: Option<String>) -> bool {
    match o {
        Some(s) => match flag_named(s@) {
            Some(b) => b,
            None => true,
        },
        None => true,
    }
}

/// The trimmed parts.
pub open spec fn trimmed_parts(parts: Seq<Seq<char>>) -> Seq<Seq<char>> {
    parts.map_values(|p: Seq<char>| trimmed(p))
}

/// The parts that are not empty.
pub open spec fn nonempty_parts(parts: Seq<Seq<char>>) -> Seq<Seq<char>> {
    parts.filter(|p: Seq<char>| p.len() > 0)
}

/// The entries of a comma-separated list: trimmed, without the empty ones.
pub open spec fn csv(s: Seq<char>) -> Seq<Seq<char>> {
    nonempty_parts(trimmed_parts(split_on(s, ',')))
}

/// The entries of a list, or `d` where there are none.
pub open spec fn list_or(o: Option<String>, d: Seq<Seq<char>>) -> Seq<Seq<char>> {
    match o {
        Some(s) => if csv(s@).len() == 0 {
            d
        } else {
            csv(s@)
        },
        None => d,
    }
}

/// The entries of a list, which may be empty.
pub open spec fn list_or_empty(o: Option<String>) -> Seq<Seq<char>> {
    match o {
        Some(s) => csv(s@),
        None => Seq::empty(),
    }
}

/// The entries that are numbers, as numbers.
pub open spec fn numbers(parts: Seq<Seq<char>>) -> Seq<i64>
    decreases parts.len(),
{
    if parts.len() == 0 {
        Seq::empty()
    } else {
        match within(parsed_int(trimmed(parts.last())), i64::MIN as int, i64::MAX as int) {
            Some(n) => numbers(parts.drop_last()).push(n as i64),
            None => numbers(parts.drop_last()),
        }
    }
}

/// The numbers of a list.
pub open spec fn ids_or_empty(o: Option<String>) -> Seq<i64> {
    match o {
        Some(s) => numbers(csv(s@)),
        None => Seq::empty(),
    }
}

/// The text of a setting unless it is blank.
pub open spec fn nonblank(o: Option<String>) -> Option<Seq<char>> {
    match o {
        Some(s) => if trimmed(s@).len() == 0 {
            None
        } else {
            Some(s@)
        },
        None => None,
    }
}

/// The trimmed text of a setting unless it is blank.
pub open spec fn trimmed_nonblank(o: Option<String>) -> Option<Seq<char>> {
    match o {
        Some(s) => if trimmed(s@).len() == 0 {
            None
        } else {
            Some(trimmed(s@))
        },
        None => None,
    }
}

/// The content of an optional secret.
pub open spec fn secret_text(o: Option<SecretString>) -> Option<Seq<char>> {
    match o {
        Some(s) => Some(s@),
        None => None,
    }
}

/// The contents of a list of secrets.
pub open spec fn secret_texts(v: Seq<SecretString>) -> Seq<Seq<char>> {
    v.map_values(|s: SecretString| s@)
}

fn text_setting(o: Option<String>, d: &str) -> (r: String)
    ensures
        r@ == text_or(o, d@),
{
    match o {
        Some(s) => s,
        None => d.to_string(),
    }
}

fn u64_setting(o: Option<String>, d: u64) -> (r: u64)
    ensures
        r == nat_or(o, u64::MAX as int, d as int),
{
    match o {
        Some(s) => match text::parse_u64(text::trim(s.as_str()).as_str()) {
            Some(n) => n,
            None => d,
        },
        None => d,
    }
}

fn u32_setting(o: Option<String>, d: u32) -> (r: u32)
    ensures
        r == nat_or(o, u32::MAX as int, d as int),
{
    match o {
        Some(s) => match text::parse_u32(text::trim(s.as_str()).as_str()) {
            Some(n) => n,
            None => d,
        },
        None => d,
    }
}

fn u8_setting(o: Option<String>, d: u8) -> (r: u8)
    ensures
        r == nat_or(o, u8::MAX as int, d as int),
{
    match o {
        Some(s) => match text::parse_u8(text::trim(s.as_str()).as_str()) {
            Some(n) => n,
            None => d,
        },
        None => d,
    }
}

fn usize_setting(o: Option<String>, d: usize) -> (r: usize)
    ensures
        r == nat_or(o, usize::MAX as int, d as int),
{
    match o {
        Some(s) => match text::parse_usize(text::trim(s.as_str()).as_str()) {
            Some(n) => n,
            None => d,
        },
        None => d,
    }
}

fn i64_setting(o: Option<String>, d: i64) -> (r: i64)
    ensures
        r == int_or(o, d as int),
{
    match o {
        Some(s) => match text::parse_i64(text::trim(s.as_str()).as_str()) {
            Some(n) => n,
            None => d,
        },
        None => d,
    }
}

/// The truth value that a word stands for.
fn parse_bool(s: &str) -> (r: Option<bool>)
    ensures
        r == flag_named(s@),
{
    let t = text::lower_ascii(text::trim(s).as_str());
    let w = t.as_str();
    if text::same(w, "1") || text::same(w, "true") || text::same(w, "yes") || text::same(w, "on") {
        Some(true)
    } else if text::same(w, "0") || text::same(w, "false") || text::same(w, "no") || text::same(
        w,
        "off",
    ) {
        Some(false)
    } else {
        None
    }
}

fn flag_setting(o: Option<String>) -> (r: bool)
    ensures
        r == flag_or_true(o),
{
    match o {
        Some(s) => match parse_bool(s.as_str()) {
            Some(b) => b,
            None => true,
        },
        None => true,
    }
}

/// The entries of a comma-separated list.
fn split_csv(s: &str) -> (r: Vec<String>)
    ensures
        texts(r@) == csv(s@),
{
    let parts = text::split_char(s, ',');
    let ghost cut = trimmed_parts(split_on(s@, ','));
    let mut r: Vec<String> = Vec::new();
    let mut i: usize = 0;
    while i < parts.len()
        invariant
            i <= parts@.len(),
            texts(parts@) == split_on(s@, ','),
            cut == trimmed_parts(split_on(s@, ',')),
            texts(r@) == nonempty_parts(cut.take(i as int)),
        decreases parts@.len() - i,
    {
        let p = text::trim(parts[i].as_str());
        proof {
            assert(texts(parts@)[i as int] == parts@[i as int]@);
            assert(p@ == cut[i as int]);
            assert(cut.take(i as int + 1) =~= cut.take(i as int).push(p@));
            cut.take(i as int).lemma_filter_push(p@, |q: Seq<char>| q.len() > 0);
        }
        let ghost before = texts(r@);
        if !p.as_str().is_empty() {
            let ghost added = p@;
            r.push(p);
            assert(texts(r@) =~= before.push(added));
        }
        i += 1;
    }
    assert(cut.take(i as int) =~= cut);
    r
}

fn two(a: &str, b: &str) -> (r: Vec<String>)
    ensures
        texts(r@) == seq![a@, b@],
{
    let mut r: Vec<String> = Vec::new();
    r.push(a.to_string());
    r.push(b.to_string());
    assert(texts(r@) =~= seq![a@, b@]);
    r
}

fn three(a: &str, b: &str, c: &str) -> (r: Vec<String>)
    ensures
        texts(r@) == seq![a@, b@, c@],
{
    let mut r: Vec<String> = Vec::new();
    r.push(a.to_string());
    r.push(b.to_string());
    r.push(c.to_string());
    assert(texts(r@) =~= seq![a@, b@, c@]);
    r
}

fn list_setting(o: Option<String>, d: Vec<String>) -> (r: Vec<String>)
    ensures
        texts(r@) == list_or(o, texts(d@)),
{
    match o {
        Some(s) => {
            let parsed = split_csv(s.as_str());
            assert(texts(parsed@).len() == parsed@.len());
            if parsed.len() == 0 {
                d
            } else {
                parsed
            }
        },
        None => d,
    }
}

fn secret_list(o: Option<String>) -> (r: Vec<SecretString>)
    ensures
        secret_texts(r@) == list_or_empty(o),
{
    let mut r: Vec<SecretString> = Vec::new();
    match o {
        Some(s) => {
            let parsed = split_csv(s.as_str());
            let mut i: usize = 0;
            while i < parsed.len()
                invariant
                    i <= parsed@.len(),
                    r@.len() == i,
                    forall|k: int| 0 <= k < i ==> (#[trigger] r@[k])@ == parsed@[k]@,
                decreases parsed@.len() - i,
            {
                r.push(SecretString::new(parsed[i].clone()));
                i += 1;
            }
            assert(secret_texts(r@) =~= texts(parsed@));
        },
        None => {
            assert(secret_texts(r@) =~= Seq::<Seq<char>>::empty());
        },
    }
    r
}

fn id_list(o: Option<String>) -> (r: Vec<InboxId>)
    ensures
        r@ == ids_or_empty(o),
{
    let mut r: Vec<InboxId> = Vec::new();
    match o {
        Some(s) => {
            let parsed = split_csv(s.as_str());
            let ghost all = texts(parsed@);
            let mut i: usize = 0;
            while i < parsed.len()
                invariant
                    i <= parsed@.len(),
                    all == texts(parsed@),
                    r@ == numbers(all.take(i as int)),
                decreases parsed@.len() - i,
            {
                assert(all.take(i as int + 1).drop_last() =~= all.take(i as int));
                assert(all.take(i as int + 1).last() == parsed@[i as int]@);
                match text::parse_i64(text::trim(parsed[i].as_str()).as_str()) {
                    Some(n) => {
                        r.push(n);
                    },
                    None => {},
                }
                i += 1;
            }
            assert(all.take(i as int) =~= all);
        },
        None => {},
    }
    r
}

fn optional_secret(o: Option<String>) -> (r: Option<SecretString>)
    ensures
        secret_text(r) == nonblank(o),
{
    match o {
        Some(s) => if text::is_blank(s.as_str()) {
            None
        } else {
            Some(SecretString::new(s))
        },
        None => None,
    }
}

fn endpoint_setting(o: Option<String>) -> (r: Option<String>)
    ensures
        opt_text(r) == trimmed_nonblank(o),
{
    match o {
        Some(s) => if text::is_blank(s.as_str()) {
            None
        } else {
            Some(text::trim(s.as_str()))
        },
        None => None,
    }
}

// ---------------------------------------------------------------------------
// Reading all settings
// ---------------------------------------------------------------------------

/// The settings of `chatwoot` as read from `r`.
pub open spec fn chatwoot_read(c: ChatwootConfig, r: RawConfig) -> bool {
    &&& c.base_url@ == text_or(r.chatwoot_base_url, ""@)
    &&& c.account_id == int_or(r.chatwoot_account_id, 1)
    &&& c.bot_token@ == text_or(r.chatwoot_bot_token, ""@)
    &&& secret_text(c.platform_token) == nonblank(r.chatwoot_platform_token)
    &&& secret_texts(c.webhook_secrets@) == list_or_empty(r.webhook_secrets)
    &&& c.ai_enabled_inboxes@ == ids_or_empty(r.ai_enabled_inboxes)
    &&& c.fallback_team_id == int_or(r.fallback_team_id, 0)
}

/// The settings of `agent` as read from `r`.
pub open spec fn agent_read(c: AgentConfig, r: RawConfig) -> bool {
    &&& c.display_name@ == text_or(r.agent_display_name, "Íris"@)
    &&& c.disclosure_text@ == text_or(r.ai_disclosure_text, "Oi! Sou a Íris, assistente digital do escritório. Posso te ajudar agora mesmo — e se precisar, chamo alguém da equipe."@)
    &&& c.provider@ == text_or(r.agent_provider, "openclaw"@)
    &&& c.provider_fallback@ == text_or(r.agent_provider_fallback, "anthropic"@)
    &&& c.openclaw_base_url@ == text_or(r.openclaw_base_url, "http://127.0.0.1:18789"@)
    &&& c.openclaw_token@ == text_or(r.openclaw_token, ""@)
    &&& c.openclaw_agent_id@ == text_or(r.openclaw_agent_id, "iris-triagem"@)
    &&& c.hermes_shim_url@ == text_or(r.hermes_shim_url, "http://127.0.0.1:18800"@)
    &&& c.anthropic_api_key@ == text_or(r.anthropic_api_key, ""@)
    &&& c.anthropic_model_family@ == text_or(r.anthropic_model_family, ""@)
    &&& c.timeout_ms == nat_or(r.agent_timeout_ms, u64::MAX as int, 45000)
    &&& c.max_output_chars == nat_or(r.agent_max_output_chars, usize::MAX as int, 1200)
    &&& c.ai_enabled == flag_or_true(r.ai_enabled)
    &&& texts(c.ai_block_labels@) == list_or(r.ai_block_labels, seq!["ia:off"@, "humano"@, "juridico"@])
    &&& c.ai_silent_label@ == text_or(r.ai_silent_label, "ia:silencio"@)
    &&& c.after_hours_mode@ == text_or(r.after_hours_mode, "ai"@)
    &&& c.ack_threshold_ms == nat_or(r.ack_threshold_ms, u64::MAX as int, 3000)
    &&& c.ack_cooldown_ms == nat_or(r.ack_cooldown_ms, u64::MAX as int, 600000)
    &&& texts(c.allowed_link_domains@) == list_or(r.allowed_link_domains, seq!["escritorio.com.br"@, "gov.br"@])
}

/// The settings of `buffer` as read from `r`.
pub open spec fn buffer_read(c: BufferConfig, r: RawConfig) -> bool {
    &&& c.debounce_ms == nat_or(r.buffer_debounce_ms, u64::MAX as int, 6000)
    &&& c.max_wait_ms == nat_or(r.buffer_max_wait_ms, u64::MAX as int, 25000)
    &&& c.max_messages == nat_or(r.buffer_max_messages, u32::MAX as int, 12)
    &&& c.max_chars == nat_or(r.buffer_max_chars, u32::MAX as int, 6000)
    &&& c.media_debounce_ms == nat_or(r.buffer_media_debounce_ms, u64::MAX as int, 10000)
}

/// The settings of `rate_limits` as read from `r`.
pub open spec fn rate_limits_read(c: RateLimits, r: RawConfig) -> bool {
    &&& c.conv_runs_per_min == nat_or(r.rl_conv_runs_per_min, u32::MAX as int, 6)
    &&& c.contact_runs_per_hour == nat_or(r.rl_contact_runs_per_hour, u32::MAX as int, 30)
    &&& c.out_msgs_per_conv_per_hour == nat_or(r.rl_out_msgs_per_conv_per_hour, u32::MAX as int, 15)
    &&& c.account_runs_per_min == nat_or(r.rl_account_runs_per_min, u32::MAX as int, 300)
    &&& c.max_concurrent_runs == nat_or(r.max_concurrent_agent_runs, u32::MAX as int, 20)
    &&& c.max_consecutive_ai_turns == nat_or(r.max_consecutive_ai_turns, u8::MAX as int, 4)
    &&& c.daily_budget_usd == (match r.daily_budget_usd { Some(b) => b, None => (F64Bits { bits: 0x4039000000000000 }) })
}

/// The settings of `notification` as read from `r`.
pub open spec fn notification_read(c: NotificationConfig, r: RawConfig) -> bool {
    &&& texts(c.channels@) == list_or(r.notify_channels, seq!["telegram"@, "whatsapp"@])
    &&& c.telegram_bot_token@ == text_or(r.telegram_bot_token, ""@)
    &&& c.whatsapp_cloud_token@ == text_or(r.whatsapp_cloud_token, ""@)
    &&& c.whatsapp_template_name@ == text_or(r.whatsapp_template_name, "atendimento_pendente"@)
    &&& c.quiet_hours@ == text_or(r.notify_quiet_hours, "22:00-07:00"@)
    &&& c.max_per_agent_per_hour == nat_or(r.notify_max_per_agent_per_hour, u32::MAX as int, 10)
}

/// The settings of `infra` as read from `r`.
pub open spec fn infra_read(c: InfraConfig, r: RawConfig) -> bool {
    &&& c.database_url@ == text_or(r.database_url, ""@)
    &&& c.redis_url@ == text_or(r.redis_url, "redis://127.0.0.1:6379/0"@)
    &&& c.tools_service_url@ == text_or(r.tools_service_url, "http://127.0.0.1:18900"@)
    &&& c.tools_service_token@ == text_or(r.tools_service_token, ""@)
    &&& c.data_retention_days == nat_or(r.data_retention_days, u32::MAX as int, 180)
    &&& c.log_level@ == text_or(r.log_level, "info"@)
    &&& c.log_redact_pii == flag_or_true(r.log_redact_pii)
    &&& opt_text(c.otel_endpoint) == trimmed_nonblank(r.otel_exporter_otlp_endpoint)
}

/// The whole configuration as read from `r`.
pub open spec fn config_read(c: Config, r: RawConfig) -> bool {
    &&& chatwoot_read(c.chatwoot, r)
    &&& agent_read(c.agent, r)
    &&& buffer_read(c.buffer, r)
    &&& rate_limits_read(c.rate_limits, r)
    &&& notification_read(c.notification, r)
    &&& infra_read(c.infra, r)
}

impl Config {
    /// The configuration that the settings of `r` stand for. Nothing in `r`
    /// makes it fail.
    pub fn from_raw(r: RawConfig) -> (c: Config)
        ensures
            config_read(c, r),
    {
        let chatwoot = ChatwootConfig {
            base_url: text_setting(r.chatwoot_base_url, ""),
            account_id: i64_setting(r.chatwoot_account_id, 1),
            bot_token: SecretString::new(text_setting(r.chatwoot_bot_token, "")),
            platform_token: optional_secret(r.chatwoot_platform_token),
            webhook_secrets: secret_list(r.webhook_secrets),
            ai_enabled_inboxes: id_list(r.ai_enabled_inboxes),
            fallback_team_id: i64_setting(r.fallback_team_id, 0),
        };
        let agent = AgentConfig {
            display_name: text_setting(r.agent_display_name, "Íris"),
            disclosure_text: text_setting(r.ai_disclosure_text, "Oi! Sou a Íris, assistente digital do escritório. Posso te ajudar agora mesmo — e se precisar, chamo alguém da equipe."),
            provider: text_setting(r.agent_provider, "openclaw"),
            provider_fallback: text_setting(r.agent_provider_fallback, "anthropic"),
            openclaw_base_url: text_setting(r.openclaw_base_url, "http://127.0.0.1:18789"),
            openclaw_token: SecretString::new(text_setting(r.openclaw_token, "")),
            openclaw_agent_id: text_setting(r.openclaw_agent_id, "iris-triagem"),
            hermes_shim_url: text_setting(r.hermes_shim_url, "http://127.0.0.1:18800"),
            anthropic_api_key: SecretString::new(text_setting(r.anthropic_api_key, "")),
            anthropic_model_family: text_setting(r.anthropic_model_family, ""),
            timeout_ms: u64_setting(r.agent_timeout_ms, 45000),
            max_output_chars: usize_setting(r.agent_max_output_chars, 1200),
            ai_enabled: flag_setting(r.ai_enabled),
            ai_block_labels: list_setting(r.ai_block_labels, three("ia:off", "humano", "juridico")),
            ai_silent_label: text_setting(r.ai_silent_label, "ia:silencio"),
            after_hours_mode: text_setting(r.after_hours_mode, "ai"),
            ack_threshold_ms: u64_setting(r.ack_threshold_ms, 3000),
            ack_cooldown_ms: u64_setting(r.ack_cooldown_ms, 600000),
            allowed_link_domains: list_setting(r.allowed_link_domains, two("escritorio.com.br", "gov.br")),
        };
        let buffer = BufferConfig {
            debounce_ms: u64_setting(r.buffer_debounce_ms, 6000),
            max_wait_ms: u64_setting(r.buffer_max_wait_ms, 25000),
            max_messages: u32_setting(r.buffer_max_messages, 12),
            max_chars: u32_setting(r.buffer_max_chars, 6000),
            media_debounce_ms: u64_setting(r.buffer_media_debounce_ms, 10000),
        };
        let rate_limits = RateLimits {
            conv_runs_per_min: u32_setting(r.rl_conv_runs_per_min, 6),
            contact_runs_per_hour: u32_setting(r.rl_contact_runs_per_hour, 30),
            out_msgs_per_conv_per_hour: u32_setting(r.rl_out_msgs_per_conv_per_hour, 15),
            account_runs_per_min: u32_setting(r.rl_account_runs_per_min, 300),
            max_concurrent_runs: u32_setting(r.max_concurrent_agent_runs, 20),
            max_consecutive_ai_turns: u8_setting(r.max_consecutive_ai_turns, 4),
            daily_budget_usd: match r.daily_budget_usd { Some(b) => b, None => F64Bits { bits: 0x4039000000000000 } },
        };
        let notification = NotificationConfig {
            channels: list_setting(r.notify_channels, two("telegram", "whatsapp")),
            telegram_bot_token: SecretString::new(text_setting(r.telegram_bot_token, "")),
            whatsapp_cloud_token: SecretString::new(text_setting(r.whatsapp_cloud_token, "")),
            whatsapp_template_name: text_setting(r.whatsapp_template_name, "atendimento_pendente"),
            quiet_hours: text_setting(r.notify_quiet_hours, "22:00-07:00"),
            max_per_agent_per_hour: u32_setting(r.notify_max_per_agent_per_hour, 10),
        };
        let infra = InfraConfig {
            database_url: SecretString::new(text_setting(r.database_url, "")),
            redis_url: SecretString::new(text_setting(r.redis_url, "redis://127.0.0.1:6379/0")),
            tools_service_url: text_setting(r.tools_service_url, "http://127.0.0.1:18900"),
            tools_service_token: SecretString::new(text_setting(r.tools_service_token, "")),
            data_retention_days: u32_setting(r.data_retention_days, 180),
            log_level: text_setting(r.log_level, "info"),
            log_redact_pii: flag_setting(r.log_redact_pii),
            otel_endpoint: endpoint_setting(r.otel_exporter_otlp_endpoint),
        };
        Config { chatwoot, agent, buffer, rate_limits, notification, infra }
    }
}

impl Default for Config {
    fn default() -> (c: Self)
        ensures
            config_read(c, unset()),
    {
        Config::from_raw(RawConfig::default())
    }
}

impl Default for ChatwootConfig {
    fn default() -> (c: Self)
        ensures
            chatwoot_read(c, unset()),
    {
        Config::from_raw(RawConfig::default()).chatwoot
    }
}

impl Default for AgentConfig {
    fn default() -> (c: Self)
        ensures
            agent_read(c, unset()),
    {
        Config::from_raw(RawConfig::default()).agent
    }
}

impl Default for BufferConfig {
    fn default() -> (c: Self)
        ensures
            buffer_read(c, unset()),
    {
        Config::from_raw(RawConfig::default()).buffer
    }
}

impl Default for NotificationConfig {
    fn default() -> (c: Self)
        ensures
            notification_read(c, unset()),
    {
        Config::from_raw(RawConfig::default()).notification
    }
}

impl Default for InfraConfig {
    fn default() -> (c: Self)
        ensures
            infra_read(c, unset()),
    {
        Config::from_raw(RawConfig::default()).infra
    }
}

/// Without any setting the limits are those of [`RateLimits::default`].
pub proof fn law_unset_limits_are_the_defaults(c: Config)
    requires
        config_read(c, unset()),
    ensures
        c.rate_limits.conv_runs_per_min == 6,
        c.rate_limits.contact_runs_per_hour == 30,
        c.rate_limits.out_msgs_per_conv_per_hour == 15,
        c.rate_limits.account_runs_per_min == 300,
        c.rate_limits.max_concurrent_runs == 20,
        c.rate_limits.max_consecutive_ai_turns == 4,
        c.rate_limits.daily_budget_usd.bits == 0x4039000000000000,
{
}

/// A number that cannot be read counts as a setting that is absent.
pub proof fn law_unreadable_number_keeps_the_default(s: String, max: int, d: int)
    requires
        within(parsed_nat(trimmed(s@)), 0, max) is None,
    ensures
        nat_or(Some(s), max, d) == nat_or(None, max, d),
{
}

/// An entry of a list is trimmed and not empty.
pub proof fn law_list_entries_are_clean(s: Seq<char>, i: int)
    requires
        0 <= i < csv(s).len(),
    ensures
        csv(s)[i].len() > 0,
        exists|k: int|
            0 <= k < split_on(s, ',').len() && csv(s)[i] == trimmed(#[trigger] split_on(s, ',')[k]),
{
    let cut = trimmed_parts(split_on(s, ','));
    cut.lemma_filter_pred(|p: Seq<char>| p.len() > 0, i);
    assert(nonempty_parts(cut).contains(csv(s)[i]));
    cut.lemma_filter_contains_rev(|p: Seq<char>| p.len() > 0, csv(s)[i]);
    let k = choose|k: int| 0 <= k < cut.len() && cut[k] == csv(s)[i];
    assert(cut[k] == trimmed(split_on(s, ',')[k]));
}

/// Whether a number is the one that a setting gives, or the default where the
/// setting is no number.
pub open spec fn number_taken(o: Option<String>, max: int, d: int, n: int) -> bool {
    o matches Some(s) ==> {
        &&& parsed_nat(trimmed(s@)) is None ==> n == d
        &&& parsed_nat(trimmed(s@)) matches Some(k) ==> (0 <= k <= max ==> n == k) && (k > max
            ==> n == d)
    }
}

/// Whether a signed number is the one that a setting gives, or the default where
/// the setting is no number.
pub open spec fn signed_taken(o: Option<String>, d: int, n: int) -> bool {
    o matches Some(s) ==> {
        &&& parsed_int(trimmed(s@)) is None ==> n == d
        &&& parsed_int(trimmed(s@)) matches Some(k) ==> (i64::MIN <= k <= i64::MAX ==> n == k)
    }
}

/// Whether a list is the one that a setting gives, or the default where it gives
/// no entry.
pub open spec fn list_taken(o: Option<String>, d: Seq<Seq<char>>, v: Seq<Seq<char>>) -> bool {
    o matches Some(s) ==> if csv(s@).len() == 0 {
        v == d
    } else {
        v == csv(s@)
    }
}

/// Whether a word turns a switch off.
pub open spec fn turns_off(s: Seq<char>) -> bool {
    let t = ascii_lowered(trimmed(s));
    t == "0"@ || t == "false"@ || t == "no"@ || t == "off"@
}

proof fn lemma_flag_words()
    ensures
        forall|s: Seq<char>| #[trigger] turns_off(s) <==> flag_named(s) == Some(false),
{
    reveal_strlit("1");
    reveal_strlit("true");
    reveal_strlit("yes");
    reveal_strlit("on");
    reveal_strlit("0");
    reveal_strlit("false");
    reveal_strlit("no");
    reveal_strlit("off");
    assert("1"@.len() == 1 && "0"@.len() == 1 && "1"@[0] == '1' && "0"@[0] == '0');
    assert("true"@.len() == 4 && "false"@.len() == 5 && "yes"@.len() == 3 && "off"@.len() == 3);
    assert("yes"@[0] == 'y' && "off"@[0] == 'o');
    assert("on"@.len() == 2 && "no"@.len() == 2 && "on"@[0] == 'o' && "no"@[0] == 'n');
}

proof fn lemma_numbers(parts: Seq<Seq<char>>, n: i64)
    ensures
        numbers(parts).contains(n) <==> exists|i: int|
            0 <= i < parts.len() && parsed_int(trimmed(#[trigger] parts[i])) == Some(n as int),
    decreases parts.len(),
{
    if parts.len() > 0 {
        let w = parts.drop_last();
        lemma_numbers(w, n);
        let head = numbers(w);
        let all = numbers(parts);
        assert(parts[parts.len() - 1] == parts.last());
        if all.contains(n) {
            let k = choose|k: int| 0 <= k < all.len() && all[k] == n;
            if k < head.len() {
                assert(head[k] == n);
                let i = choose|i: int|
                    0 <= i < w.len() && parsed_int(trimmed(#[trigger] w[i])) == Some(n as int);
                assert(parts[i] == w[i]);
            } else {
                assert(parsed_int(trimmed(parts[parts.len() - 1])) == Some(n as int));
            }
        }
        if exists|i: int|
            0 <= i < parts.len() && parsed_int(trimmed(#[trigger] parts[i])) == Some(n as int) {
            let i = choose|i: int|
                0 <= i < parts.len() && parsed_int(trimmed(#[trigger] parts[i])) == Some(n as int);
            if i < w.len() {
                assert(w[i] == parts[i]);
                let k = choose|k: int| 0 <= k < head.len() && head[k] == n;
                assert(all[k] == n);
            } else {
                assert(all[head.len() as int] == n);
            }
        }
    } else {
        assert(numbers(parts).len() == 0);
    }
}

/// No entry of a list is lost: whatever stands between two commas is an entry,
/// unless it is blank.
pub proof fn law_no_list_entry_is_lost(s: Seq<char>, k: int)
    requires
        0 <= k < split_on(s, ',').len(),
        trimmed(split_on(s, ',')[k]).len() > 0,
    ensures
        csv(s).contains(trimmed(split_on(s, ',')[k])),
{
    let cut = trimmed_parts(split_on(s, ','));
    assert(cut[k] == trimmed(split_on(s, ',')[k]));
    cut.lemma_filter_contains(|p: Seq<char>| p.len() > 0, k);
}

/// Without a setting, what belongs to the help desk keeps its default.
pub proof fn law_defaults_of_chatwoot(raw: RawConfig, c: Config)
    requires
        call_ensures(Config::from_raw, (raw,), c),
    ensures
        raw.chatwoot_base_url is None ==> c.chatwoot.base_url@ == ""@,
        raw.chatwoot_account_id is None ==> c.chatwoot.account_id == 1,
        raw.chatwoot_bot_token is None ==> c.chatwoot.bot_token@ == ""@,
        raw.chatwoot_platform_token is None ==> c.chatwoot.platform_token is None,
        raw.webhook_secrets is None ==> c.chatwoot.webhook_secrets@.len() == 0,
        raw.ai_enabled_inboxes is None ==> c.chatwoot.ai_enabled_inboxes@.len() == 0,
        raw.fallback_team_id is None ==> c.chatwoot.fallback_team_id == 0,
{
    assert(secret_texts(c.chatwoot.webhook_secrets@).len() == c.chatwoot.webhook_secrets@.len());
}

/// A setting of the help desk is taken as it is written; a number that cannot be read
/// counts as absent.
pub proof fn law_settings_of_chatwoot(raw: RawConfig, c: Config)
    requires
        call_ensures(Config::from_raw, (raw,), c),
    ensures
        raw.chatwoot_base_url matches Some(s) ==> c.chatwoot.base_url@ == s@,
        signed_taken(raw.chatwoot_account_id, 1, c.chatwoot.account_id as int),
        raw.chatwoot_bot_token matches Some(s) ==> c.chatwoot.bot_token@ == s@,
        raw.chatwoot_platform_token matches Some(s) ==> secret_text(c.chatwoot.platform_token)
            == if trimmed(s@).len() > 0 {
            Some(s@)
        } else {
            None
        },
        raw.webhook_secrets matches Some(s) ==> secret_texts(c.chatwoot.webhook_secrets@) == csv(s@),
        raw.ai_enabled_inboxes matches Some(s) ==> forall|n: i64| #[trigger]
            c.chatwoot.ai_enabled_inboxes@.contains(n) <==> exists|i: int|
                0 <= i < csv(s@).len() && parsed_int(trimmed(#[trigger] csv(s@)[i])) == Some(
                    n as int,
                ),
        signed_taken(raw.fallback_team_id, 0, c.chatwoot.fallback_team_id as int),
{
    if let Some(s) = raw.ai_enabled_inboxes {
        assert forall|n: i64| #[trigger]
            c.chatwoot.ai_enabled_inboxes@.contains(n) <==> exists|i: int|
                0 <= i < csv(s@).len() && parsed_int(trimmed(#[trigger] csv(s@)[i])) == Some(
                    n as int,
                ) by {
            lemma_numbers(csv(s@), n);
        }
    }
}

/// Without a setting, what belongs to the agent keeps its default.
pub proof fn law_defaults_of_agent(raw: RawConfig, c: Config)
    requires
        call_ensures(Config::from_raw, (raw,), c),
    ensures
        raw.agent_display_name is None ==> c.agent.display_name@ == "Íris"@,
        raw.ai_disclosure_text is None ==> c.agent.disclosure_text@ == "Oi! Sou a Íris, assistente digital do escritório. Posso te ajudar agora mesmo — e se precisar, chamo alguém da equipe."@,
        raw.agent_provider is None ==> c.agent.provider@ == "openclaw"@,
        raw.agent_provider_fallback is None ==> c.agent.provider_fallback@ == "anthropic"@,
        raw.openclaw_base_url is None ==> c.agent.openclaw_base_url@ == "http://127.0.0.1:18789"@,
        raw.openclaw_token is None ==> c.agent.openclaw_token@ == ""@,
        raw.openclaw_agent_id is None ==> c.agent.openclaw_agent_id@ == "iris-triagem"@,
        raw.hermes_shim_url is None ==> c.agent.hermes_shim_url@ == "http://127.0.0.1:18800"@,
        raw.anthropic_api_key is None ==> c.agent.anthropic_api_key@ == ""@,
        raw.anthropic_model_family is None ==> c.agent.anthropic_model_family@ == ""@,
        raw.agent_timeout_ms is None ==> c.agent.timeout_ms == 45000,
        raw.agent_max_output_chars is None ==> c.agent.max_output_chars == 1200,
        raw.ai_enabled is None ==> c.agent.ai_enabled,
        raw.ai_block_labels is None ==> texts(c.agent.ai_block_labels@) == seq!["ia:off"@, "humano"@, "juridico"@],
        raw.ai_silent_label is None ==> c.agent.ai_silent_label@ == "ia:silencio"@,
        raw.after_hours_mode is None ==> c.agent.after_hours_mode@ == "ai"@,
        raw.ack_threshold_ms is None ==> c.agent.ack_threshold_ms == 3000,
        raw.ack_cooldown_ms is None ==> c.agent.ack_cooldown_ms == 600000,
        raw.allowed_link_domains is None ==> texts(c.agent.allowed_link_domains@) == seq!["escritorio.com.br"@, "gov.br"@],
{
}

/// A setting of the agent is taken as it is written; a number that cannot be read
/// counts as absent.
pub proof fn law_settings_of_agent(raw: RawConfig, c: Config)
    requires
        call_ensures(Config::from_raw, (raw,), c),
    ensures
        raw.agent_display_name matches Some(s) ==> c.agent.display_name@ == s@,
        raw.ai_disclosure_text matches Some(s) ==> c.agent.disclosure_text@ == s@,
        raw.agent_provider matches Some(s) ==> c.agent.provider@ == s@,
        raw.agent_provider_fallback matches Some(s) ==> c.agent.provider_fallback@ == s@,
        raw.openclaw_base_url matches Some(s) ==> c.agent.openclaw_base_url@ == s@,
        raw.openclaw_token matches Some(s) ==> c.agent.openclaw_token@ == s@,
        raw.openclaw_agent_id matches Some(s) ==> c.agent.openclaw_agent_id@ == s@,
        raw.hermes_shim_url matches Some(s) ==> c.agent.hermes_shim_url@ == s@,
        raw.anthropic_api_key matches Some(s) ==> c.agent.anthropic_api_key@ == s@,
        raw.anthropic_model_family matches Some(s) ==> c.agent.anthropic_model_family@ == s@,
        number_taken(raw.agent_timeout_ms, u64::MAX as int, 45000, c.agent.timeout_ms as int),
        number_taken(raw.agent_max_output_chars, usize::MAX as int, 1200, c.agent.max_output_chars as int),
        raw.ai_enabled matches Some(s) ==> (c.agent.ai_enabled <==> !turns_off(s@)),
        list_taken(raw.ai_block_labels, seq!["ia:off"@, "humano"@, "juridico"@], texts(c.agent.ai_block_labels@)),
        raw.ai_silent_label matches Some(s) ==> c.agent.ai_silent_label@ == s@,
        raw.after_hours_mode matches Some(s) ==> c.agent.after_hours_mode@ == s@,
        number_taken(raw.ack_threshold_ms, u64::MAX as int, 3000, c.agent.ack_threshold_ms as int),
        number_taken(raw.ack_cooldown_ms, u64::MAX as int, 600000, c.agent.ack_cooldown_ms as int),
        list_taken(raw.allowed_link_domains, seq!["escritorio.com.br"@, "gov.br"@], texts(c.agent.allowed_link_domains@)),
{
    lemma_flag_words();
}

/// Without a setting, what belongs to the buffer keeps its default.
pub proof fn law_defaults_of_buffer(raw: RawConfig, c: Config)
    requires
        call_ensures(Config::from_raw, (raw,), c),
    ensures
        raw.buffer_debounce_ms is None ==> c.buffer.debounce_ms == 6000,
        raw.buffer_max_wait_ms is None ==> c.buffer.max_wait_ms == 25000,
        raw.buffer_max_messages is None ==> c.buffer.max_messages == 12,
        raw.buffer_max_chars is None ==> c.buffer.max_chars == 6000,
        raw.buffer_media_debounce_ms is None ==> c.buffer.media_debounce_ms == 10000,
{
}

/// A setting of the buffer is taken as it is written; a number that cannot be read
/// counts as absent.
pub proof fn law_settings_of_buffer(raw: RawConfig, c: Config)
    requires
        call_ensures(Config::from_raw, (raw,), c),
    ensures
        number_taken(raw.buffer_debounce_ms, u64::MAX as int, 6000, c.buffer.debounce_ms as int),
        number_taken(raw.buffer_max_wait_ms, u64::MAX as int, 25000, c.buffer.max_wait_ms as int),
        number_taken(raw.buffer_max_messages, u32::MAX as int, 12, c.buffer.max_messages as int),
        number_taken(raw.buffer_max_chars, u32::MAX as int, 6000, c.buffer.max_chars as int),
        number_taken(raw.buffer_media_debounce_ms, u64::MAX as int, 10000, c.buffer.media_debounce_ms as int),
{
}

/// Without a setting, what belongs to the limiters keeps its default.
pub proof fn law_defaults_of_rate_limits(raw: RawConfig, c: Config)
    requires
        call_ensures(Config::from_raw, (raw,), c),
    ensures
        raw.rl_conv_runs_per_min is None ==> c.rate_limits.conv_runs_per_min == 6,
        raw.rl_contact_runs_per_hour is None ==> c.rate_limits.contact_runs_per_hour == 30,
        raw.rl_out_msgs_per_conv_per_hour is None ==> c.rate_limits.out_msgs_per_conv_per_hour == 15,
        raw.rl_account_runs_per_min is None ==> c.rate_limits.account_runs_per_min == 300,
        raw.max_concurrent_agent_runs is None ==> c.rate_limits.max_concurrent_runs == 20,
        raw.max_consecutive_ai_turns is None ==> c.rate_limits.max_consecutive_ai_turns == 4,
        raw.daily_budget_usd is None ==> c.rate_limits.daily_budget_usd.bits == 0x4039000000000000,
{
}

/// A setting of the limiters is taken as it is written; a number that cannot be read
/// counts as absent.
pub proof fn law_settings_of_rate_limits(raw: RawConfig, c: Config)
    requires
        call_ensures(Config::from_raw, (raw,), c),
    ensures
        number_taken(raw.rl_conv_runs_per_min, u32::MAX as int, 6, c.rate_limits.conv_runs_per_min as int),
        number_taken(raw.rl_contact_runs_per_hour, u32::MAX as int, 30, c.rate_limits.contact_runs_per_hour as int),
        number_taken(raw.rl_out_msgs_per_conv_per_hour, u32::MAX as int, 15, c.rate_limits.out_msgs_per_conv_per_hour as int),
        number_taken(raw.rl_account_runs_per_min, u32::MAX as int, 300, c.rate_limits.account_runs_per_min as int),
        number_taken(raw.max_concurrent_agent_runs, u32::MAX as int, 20, c.rate_limits.max_concurrent_runs as int),
        number_taken(raw.max_consecutive_ai_turns, u8::MAX as int, 4, c.rate_limits.max_consecutive_ai_turns as int),
        raw.daily_budget_usd matches Some(b) ==> c.rate_limits.daily_budget_usd == b,
{
}

/// Without a setting, what belongs to notifications keeps its default.
pub proof fn law_defaults_of_notification(raw: RawConfig, c: Config)
    requires
        call_ensures(Config::from_raw, (raw,), c),
    ensures
        raw.notify_channels is None ==> texts(c.notification.channels@) == seq!["telegram"@, "whatsapp"@],
        raw.telegram_bot_token is None ==> c.notification.telegram_bot_token@ == ""@,
        raw.whatsapp_cloud_token is None ==> c.notification.whatsapp_cloud_token@ == ""@,
        raw.whatsapp_template_name is None ==> c.notification.whatsapp_template_name@ == "atendimento_pendente"@,
        raw.notify_quiet_hours is None ==> c.notification.quiet_hours@ == "22:00-07:00"@,
        raw.notify_max_per_agent_per_hour is None ==> c.notification.max_per_agent_per_hour == 10,
{
}

/// A setting of notifications is taken as it is written; a number that cannot be read
/// counts as absent.
pub proof fn law_settings_of_notification(raw: RawConfig, c: Config)
    requires
        call_ensures(Config::from_raw, (raw,), c),
    ensures
        list_taken(raw.notify_channels, seq!["telegram"@, "whatsapp"@], texts(c.notification.channels@)),
        raw.telegram_bot_token matches Some(s) ==> c.notification.telegram_bot_token@ == s@,
        raw.whatsapp_cloud_token matches Some(s) ==> c.notification.whatsapp_cloud_token@ == s@,
        raw.whatsapp_template_name matches Some(s) ==> c.notification.whatsapp_template_name@ == s@,
        raw.notify_quiet_hours matches Some(s) ==> c.notification.quiet_hours@ == s@,
        number_taken(raw.notify_max_per_agent_per_hour, u32::MAX as int, 10, c.notification.max_per_agent_per_hour as int),
{
}

/// Without a setting, what belongs to the stores and services keeps its default.
pub proof fn law_defaults_of_infra(raw: RawConfig, c: Config)
    requires
        call_ensures(Config::from_raw, (raw,), c),
    ensures
        raw.database_url is None ==> c.infra.database_url@ == ""@,
        raw.redis_url is None ==> c.infra.redis_url@ == "redis://127.0.0.1:6379/0"@,
        raw.tools_service_url is None ==> c.infra.tools_service_url@ == "http://127.0.0.1:18900"@,
        raw.tools_service_token is None ==> c.infra.tools_service_token@ == ""@,
        raw.data_retention_days is None ==> c.infra.data_retention_days == 180,
        raw.log_level is None ==> c.infra.log_level@ == "info"@,
        raw.log_redact_pii is None ==> c.infra.log_redact_pii,
        raw.otel_exporter_otlp_endpoint is None ==> c.infra.otel_endpoint is None,
{
}

/// A setting of the stores and services is taken as it is written; a number that cannot be read
/// counts as absent.
pub proof fn law_settings_of_infra(raw: RawConfig, c: Config)
    requires
        call_ensures(Config::from_raw, (raw,), c),
    ensures
        raw.database_url matches Some(s) ==> c.infra.database_url@ == s@,
        raw.redis_url matches Some(s) ==> c.infra.redis_url@ == s@,
        raw.tools_service_url matches Some(s) ==> c.infra.tools_service_url@ == s@,
        raw.tools_service_token matches Some(s) ==> c.infra.tools_service_token@ == s@,
        number_taken(raw.data_retention_days, u32::MAX as int, 180, c.infra.data_retention_days as int),
        raw.log_level matches Some(s) ==> c.infra.log_level@ == s@,
        raw.log_redact_pii matches Some(s) ==> (c.infra.log_redact_pii <==> !turns_off(s@)),
        raw.otel_exporter_otlp_endpoint matches Some(s) ==> opt_text(c.infra.otel_endpoint) == if trimmed(
            s@,
        ).len() > 0 {
            Some(trimmed(s@))
        } else {
            None
        },
{
    lemma_flag_words();
}

/// The default configuration is the one that is read where nothing is set.
pub proof fn law_the_default_is_what_is_read_of_nothing(c: Config, raw: RawConfig, d: Config)
    requires
        call_ensures(Config::default, (), c),
        call_ensures(RawConfig::default, (), raw),
        call_ensures(Config::from_raw, (raw,), d),
    ensures
        c.chatwoot.base_url@ == d.chatwoot.base_url@,
        c.chatwoot.account_id == d.chatwoot.account_id == 1,
        c.agent.provider@ == "openclaw"@ && d.agent.provider@ == "openclaw"@,
        c.agent.provider_fallback@ == "anthropic"@ && d.agent.provider_fallback@ == "anthropic"@,
        c.agent.timeout_ms == d.agent.timeout_ms == 45000,
        c.agent.max_output_chars == d.agent.max_output_chars == 1200,
        c.agent.ai_enabled && d.agent.ai_enabled,
        c.agent.ack_cooldown_ms == d.agent.ack_cooldown_ms == 600000,
        c.buffer.debounce_ms == d.buffer.debounce_ms == 6000,
        c.buffer.max_wait_ms == d.buffer.max_wait_ms == 25000,
        c.buffer.max_messages == d.buffer.max_messages == 12,
        c.buffer.max_chars == d.buffer.max_chars == 6000,
        c.rate_limits.max_consecutive_ai_turns == d.rate_limits.max_consecutive_ai_turns == 4,
        c.notification.max_per_agent_per_hour == d.notification.max_per_agent_per_hour == 10,
        c.infra.data_retention_days == d.infra.data_retention_days == 180,
        c.infra.log_redact_pii && d.infra.log_redact_pii,
{
}

} // verus!
