//! Webhooks of the help desk: what is taken up, and what becomes of it.
use crate::chatwoot::payload::{
    said_by, sender_type, speaker, AgentBotWebhookPayload, ConversationSummary, SenderKind,
};
use crate::chatwoot::signature;
use crate::chatwoot::signature::{fresh, verify_webhook_signature};
use crate::config::BufferConfig;
use crate::ids::ConversationId;
use crate::json::{i64_in, lemma_object, member, members, of_i64, string_in, Json, JsonValue};
use crate::secrets::SecretString;
use crate::state_machine::{state_name, AiState, StateEvent};
use crate::text;
use crate::text::{int_text, opt_str, opt_text, parsed_int, texts, trimmed, within};
use crate::timestamp;
use crate::timestamp::rfc3339_nanos;
use vstd::prelude::*;
use vstd::utf8::encode_utf8;

pub mod process;

verus! {

/// How far the time of a webhook may be off, in seconds.
pub const WEBHOOK_TIMESTAMP_TOLERANCE_SECS: i64 = 300;

/// How long a message is remembered, in seconds.
pub const DEDUP_TTL_SECS: u64 = 86400;

/// How long a buffer lives, in seconds.
pub const BUFFER_TTL_SECS: u64 = 300;

/// When the first answer is due after a conversation was created, in seconds.
pub const FIRST_RESPONSE_SECS: u64 = 180;

// ---------------------------------------------------------------------------
// Who sent it
// ---------------------------------------------------------------------------

/// Why a webhook is refused, if it is: no signature or time, a time too far
/// off, a signature of no secret.
pub open spec fn refusal(
    secrets: Seq<SecretString>,
    sig: Seq<char>,
    ts: Seq<char>,
    body: Seq<u8>,
    now: int,
) -> Option<Seq<char>> {
    if sig.len() == 0 || ts.len() == 0 {
        Some("missing signature or timestamp"@)
    } else if !fresh(ts, now, WEBHOOK_TIMESTAMP_TOLERANCE_SECS as int) {
        Some("timestamp out of tolerance"@)
    } else if !(exists|i: int|
        0 <= i < secrets.len() && sig == signature::signature(
            encode_utf8((#[trigger] secrets[i])@),
            ts,
            body,
        )) {
        Some("invalid signature"@)
    } else {
        None
    }
}

fn signed_by_one(secrets: &Vec<SecretString>, sig: &str, ts: &str, body: &[u8]) -> (r: bool)
    ensures
        r == exists|i: int|
            0 <= i < secrets@.len() && sig@ == signature::signature(
                encode_utf8((#[trigger] secrets@[i])@),
                ts@,
                body@,
            ),
{
    let mut i: usize = 0;
    while i < secrets.len()
        invariant
            i <= secrets@.len(),
            forall|k: int|
                0 <= k < i ==> sig@ != signature::signature(
                    encode_utf8((#[trigger] secrets@[k])@),
                    ts@,
                    body@,
                ),
        decreases secrets@.len() - i,
    {
        if verify_webhook_signature(secrets[i].expose().as_bytes(), ts, body, sig) {
            assert(sig@ == signature::signature(
                encode_utf8(secrets@[i as int]@),
                ts@,
                body@,
            ));
            return true;
        }
        i += 1;
    }
    false
}

/// Whether a webhook is accepted at the given time, in Unix seconds.
pub fn verify_request_at(
    secrets: &Vec<SecretString>,
    sig: &str,
    ts: &str,
    body: &[u8],
    now_secs: i64,
) -> (r: Result<(), String>)
    ensures
        match r {
            Ok(_) => refusal(secrets@, sig@, ts@, body@, now_secs as int) is None,
            Err(e) => refusal(secrets@, sig@, ts@, body@, now_secs as int) == Some(e@),
        },
{
    if sig.is_empty() || ts.is_empty() {
        return Err("missing signature or timestamp".to_string());
    }
    if !signature::is_timestamp_fresh(ts, now_secs, WEBHOOK_TIMESTAMP_TOLERANCE_SECS) {
        return Err("timestamp out of tolerance".to_string());
    }
    if !signed_by_one(secrets, sig, ts, body) {
        return Err("invalid signature".to_string());
    }
    Ok(())
}

/// Whether a webhook is accepted now, by the clock.
pub fn verify_request(secrets: &Vec<SecretString>, sig: &str, ts: &str, body: &[u8]) -> (r: Result<
    (),
    String,
>)
    ensures
        exists|now: i64|
            match r {
                Ok(_) => #[trigger] refusal(secrets@, sig@, ts@, body@, now as int) is None,
                Err(e) => refusal(secrets@, sig@, ts@, body@, now as int) == Some(e@),
            },
{
    let now = signature::now_secs();
    let r = verify_request_at(secrets, sig, ts, body, now);
    assert(match r {
        Ok(_) => refusal(secrets@, sig@, ts@, body@, now as int) is None,
        Err(e) => refusal(secrets@, sig@, ts@, body@, now as int) == Some(e@),
    });
    r
}

// ---------------------------------------------------------------------------
// Replies
// ---------------------------------------------------------------------------

pub(crate) fn reply(extra: Option<(&str, JsonValue)>) -> (r: JsonValue)
    ensures
        r@ == Json::Object(
            match extra {
                Some(x) => seq![("ok"@, Json::Bool(true)), (x.0@, x.1@)],
                None => seq![("ok"@, Json::Bool(true))],
            },
        ),
{
    let mut m: Vec<(String, JsonValue)> = Vec::new();
    m.push(("ok".to_string(), JsonValue::Bool(true)));
    proof {
        lemma_object(m);
        assert(members(m@) =~= seq![("ok"@, Json::Bool(true))]);
    }
    if let Some(x) = extra {
        let ghost v = x.1@;
        m.push((x.0.to_string(), x.1));
        proof {
            lemma_object(m);
            assert(members(m@) =~= seq![("ok"@, Json::Bool(true)), (x.0@, v)]);
        }
    }
    JsonValue::Object(m)
}

/// The reply to a webhook whose body is no JSON. It asks for no second try.
pub fn invalid_json_reply() -> (r: JsonValue)
    ensures
        r@ == Json::Object(
            seq![("ok"@, Json::Bool(true)), ("ignored"@, Json::Str("invalid_json"@))],
        ),
{
    reply(Some(("ignored", JsonValue::Str("invalid_json".to_string()))))
}

/// The reply to a webhook that was dealt with.
pub fn processed_reply() -> (r: JsonValue)
    ensures
        r@ == Json::Object(seq![("ok"@, Json::Bool(true))]),
{
    reply(None)
}

/// The reply to a webhook that came before.
pub fn duplicate_reply() -> (r: JsonValue)
    ensures
        r@ == Json::Object(seq![("ok"@, Json::Bool(true)), ("duplicate"@, Json::Bool(true))]),
{
    reply(Some(("duplicate", JsonValue::Bool(true))))
}

/// The answer to a health check.
pub fn health_reply(version: &str, uptime_secs: u64) -> (r: JsonValue)
    ensures
        r@ == Json::Object(
            seq![
                ("status"@, Json::Str("ok"@)),
                ("version"@, Json::Str(version@)),
                ("uptime_secs"@, Json::Int(uptime_secs as int)),
            ],
        ),
{
    let mut m: Vec<(String, JsonValue)> = Vec::new();
    m.push(("status".to_string(), JsonValue::Str("ok".to_string())));
    m.push(("version".to_string(), JsonValue::Str(version.to_string())));
    m.push(("uptime_secs".to_string(), JsonValue::PosInt(uptime_secs)));
    proof {
        lemma_object(m);
        assert(members(m@) =~= seq![
            ("status"@, Json::Str("ok"@)),
            ("version"@, Json::Str(version@)),
            ("uptime_secs"@, Json::Int(uptime_secs as int)),
        ]);
    }
    JsonValue::Object(m)
}

// ---------------------------------------------------------------------------
// The agent bot's webhook
// ---------------------------------------------------------------------------

/// What becomes of a message of the agent bot's webhook.
#[derive(Debug, Clone)]
pub enum Intake {
    /// Another event.
    Ignored,
    NoId,
    NoConversation,
    /// An internal note.
    Private,
    /// Not said by a contact.
    Skipped,
    /// A word of a contact: it goes into the buffer.
    Process { msg_id: i64, conversation_id: ConversationId, account_id: i64 },
}

/// The account of a payload.
pub open spec fn account_of(p: AgentBotWebhookPayload) -> i64 {
    match p.account {
        Some(a) => a.id,
        None => 0,
    }
}

/// What becomes of a message: only a word of a contact that is no note, with an
/// id and a conversation, is taken up.
pub open spec fn intake_of(p: AgentBotWebhookPayload) -> Intake {
    if p.event@ != "message_created"@ {
        Intake::Ignored
    } else if p.id is None {
        Intake::NoId
    } else if p.conversation is None {
        Intake::NoConversation
    } else if p.private == Some(true) {
        Intake::Private
    } else if !(speaker(opt_text(p.message_type), sender_type(p)) is Contact) {
        Intake::Skipped
    } else {
        Intake::Process {
            msg_id: p.id->Some_0,
            conversation_id: p.conversation->Some_0.id,
            account_id: account_of(p),
        }
    }
}

/// What becomes of a message of the agent bot's webhook.
pub fn intake(payload: &AgentBotWebhookPayload) -> (r: Intake)
    ensures
        r == intake_of(*payload),
{
    if !text::same(payload.event.as_str(), "message_created") {
        return Intake::Ignored;
    }
    let msg_id = match payload.id {
        Some(id) => id,
        None => return Intake::NoId,
    };
    let conversation_id = match &payload.conversation {
        Some(c) => c.id,
        None => return Intake::NoConversation,
    };
    let account_id = match &payload.account {
        Some(a) => a.id,
        None => 0,
    };
    if payload.is_private_note() {
        return Intake::Private;
    }
    match payload.sender_kind() {
        SenderKind::Contact => Intake::Process { msg_id, conversation_id, account_id },
        _ => Intake::Skipped,
    }
}

/// The reply for what became of a message that was not taken up.
pub open spec fn refusal_reply(intake: Intake, event: Seq<char>) -> Json {
    Json::Object(
        seq![
            ("ok"@, Json::Bool(true)),
            (match intake {
                Intake::Ignored => ("ignored"@, Json::Str(event)),
                Intake::NoId => ("ignored"@, Json::Str("no_id"@)),
                Intake::NoConversation => ("ignored"@, Json::Str("no_conversation"@)),
                Intake::Private => ("discarded"@, Json::Str("private"@)),
                _ => ("skipped"@, Json::Bool(true)),
            }),
        ],
    )
}

/// The label under which the metrics count what became of a message that was
/// not taken up; `None` where it is not counted.
pub open spec fn refusal_result(intake: Intake) -> Option<Seq<char>> {
    match intake {
        Intake::Ignored => Some("ignored"@),
        Intake::Private => Some("discarded"@),
        Intake::Skipped => Some("skipped"@),
        _ => None,
    }
}

/// The reply for what became of a message; `None` where it is still to be dealt
/// with.
pub fn intake_reply(intake: &Intake, event: &str) -> (r: Option<JsonValue>)
    ensures
        match *intake {
            Intake::Process { .. } => r is None,
            _ => r is Some && r->Some_0@ == refusal_reply(*intake, event@),
        },
{
    match intake {
        Intake::Ignored => Some(reply(Some(("ignored", JsonValue::Str(event.to_string()))))),
        Intake::NoId => Some(reply(Some(("ignored", JsonValue::Str("no_id".to_string()))))),
        Intake::NoConversation => Some(
            reply(Some(("ignored", JsonValue::Str("no_conversation".to_string())))),
        ),
        Intake::Private => Some(
            reply(Some(("discarded", JsonValue::Str("private".to_string())))),
        ),
        Intake::Skipped => Some(reply(Some(("skipped", JsonValue::Bool(true))))),
        Intake::Process { .. } => None,
    }
}

/// The label under which the metrics count what became of a message.
pub fn intake_result(intake: &Intake) -> (r: Option<&'static str>)
    ensures
        opt_str(r) == refusal_result(*intake),
{
    match intake {
        Intake::Ignored => Some("ignored"),
        Intake::Private => Some("discarded"),
        Intake::Skipped => Some("skipped"),
        _ => None,
    }
}

/// The row of the message log for a word of a contact.
#[derive(Debug, Clone)]
pub struct InboundLog {
    pub chatwoot_msg_id: i64,
    pub conversation_id: ConversationId,
    pub direction: &'static str,
    pub sender_kind: &'static str,
    pub is_private: bool,
    /// The length in bytes.
    pub content_len: i32,
    pub has_attachment: bool,
    /// Nanoseconds since the Unix epoch.
    pub created_at_nanos: i128,
}

/// The text of a message, empty where it has none.
pub open spec fn content_of(p: AgentBotWebhookPayload) -> Seq<char> {
    match p.content {
        Some(s) => s@,
        None => ""@,
    }
}

/// The time of a message as its text, empty where it has none.
pub open spec fn created_of(p: AgentBotWebhookPayload) -> Seq<char> {
    match p.created_at {
        Some(s) => s@,
        None => ""@,
    }
}

/// When a message was made, given what its time was read as; now where it has
/// none that can be read.
pub fn time_or_now(parsed: Option<i128>, now_nanos: i128) -> (r: i128)
    ensures
        r == (match parsed {
            Some(t) => t,
            None => now_nanos,
        }),
{
    match parsed {
        Some(t) => t,
        None => now_nanos,
    }
}

/// The length of a message in bytes, as the log keeps it.
pub open spec fn content_len_of(p: AgentBotWebhookPayload) -> i32 {
    (encode_utf8(content_of(p)).len() as usize) as i32
}

/// Whether a row is the one of the message log for a word of a contact: its time
/// is the one it names, or now where that cannot be read.
pub open spec fn logs(
    r: InboundLog,
    p: AgentBotWebhookPayload,
    msg_id: i64,
    conversation_id: ConversationId,
    now_nanos: i128,
) -> bool {
    &&& r.chatwoot_msg_id == msg_id
    &&& r.conversation_id == conversation_id
    &&& r.direction@ == "inbound"@
    &&& r.sender_kind@ == "contact"@
    &&& !r.is_private
    &&& r.content_len == content_len_of(p)
    &&& !r.has_attachment
    &&& r.created_at_nanos == (match p.created_at {
        Some(s) => match rfc3339_nanos(s@) {
            Some(t) => t,
            None => now_nanos,
        },
        None => now_nanos,
    })
}

/// The row of the message log for a word of a contact.
pub fn inbound_log(
    payload: &AgentBotWebhookPayload,
    msg_id: i64,
    conversation_id: ConversationId,
    now_nanos: i128,
) -> (r: InboundLog)
    ensures
        logs(r, *payload, msg_id, conversation_id, now_nanos),
{
    let len: usize = match &payload.content {
        Some(s) => s.as_str().len(),
        None => "".len(),
    };
    let parsed = match &payload.created_at {
        Some(s) => timestamp::parse_rfc3339(s.as_str()),
        None => None,
    };
    InboundLog {
        chatwoot_msg_id: msg_id,
        conversation_id,
        direction: "inbound",
        sender_kind: "contact",
        is_private: false,
        content_len: #[verifier::truncate]
        (len as i32),
        has_attachment: false,
        created_at_nanos: time_or_now(parsed, now_nanos),
    }
}

/// A word of a contact, as the buffer holds it.
pub open spec fn buffered(p: AgentBotWebhookPayload, msg_id: i64, account_id: i64, conv: i64) -> Json {
    Json::Object(
        seq![
            ("id"@, Json::Int(msg_id as int)),
            ("account_id"@, Json::Int(account_id as int)),
            ("conversation_id"@, Json::Int(conv as int)),
            ("content"@, Json::Str(content_of(p))),
            ("created_at"@, Json::Str(created_of(p))),
        ],
    )
}

/// A word of a contact, as the buffer holds it.
pub fn buffered_message(
    payload: &AgentBotWebhookPayload,
    msg_id: i64,
    account_id: i64,
    conversation_id: ConversationId,
) -> (r: JsonValue)
    ensures
        r@ == buffered(*payload, msg_id, account_id, conversation_id),
{
    let content = match &payload.content {
        Some(s) => s.clone(),
        None => "".to_string(),
    };
    let created_at = match &payload.created_at {
        Some(s) => s.clone(),
        None => "".to_string(),
    };
    let ghost c = content@;
    let ghost t = created_at@;
    let mut m: Vec<(String, JsonValue)> = Vec::new();
    m.push(("id".to_string(), of_i64(msg_id)));
    m.push(("account_id".to_string(), of_i64(account_id)));
    m.push(("conversation_id".to_string(), of_i64(conversation_id)));
    m.push(("content".to_string(), JsonValue::Str(content)));
    m.push(("created_at".to_string(), JsonValue::Str(created_at)));
    proof {
        lemma_object(m);
        assert(members(m@) =~= seq![
            ("id"@, Json::Int(msg_id as int)),
            ("account_id"@, Json::Int(account_id as int)),
            ("conversation_id"@, Json::Int(conversation_id as int)),
            ("content"@, Json::Str(c)),
            ("created_at"@, Json::Str(t)),
        ]);
        assert(c == content_of(*payload) && t == created_of(*payload));
    }
    JsonValue::Object(m)
}

// ---------------------------------------------------------------------------
// The buffer
// ---------------------------------------------------------------------------

/// What to do once a message is in the buffer.
#[derive(Debug, Clone)]
pub enum BufferStep {
    /// Run at once, for this reason.
    Run(&'static str),
    /// Wait: put the conversation into the debounce set with this score, in
    /// milliseconds.
    Wait { score_ms: i64 },
}

/// When the window began: the kept time, or now where it cannot be read.
pub open spec fn window_start(first: Option<Seq<char>>, now_ms: int) -> int {
    match first {
        Some(s) => match within(parsed_int(s), i64::MIN as int, i64::MAX as int) {
            Some(n) => n,
            None => now_ms,
        },
        None => now_ms,
    }
}

/// Why to run at once, if at all: the buffer holds enough messages, or enough
/// characters, or its first message has waited long enough.
pub open spec fn run_reason(n: i64, chars: i64, start_ms: int, now_ms: int, cfg: BufferConfig) -> Option<
    Seq<char>,
> {
    if (n as u32) >= cfg.max_messages {
        Some("max_messages"@)
    } else if (chars as u32) >= cfg.max_chars {
        Some("max_chars"@)
    } else if now_ms - start_ms >= cfg.max_wait_ms as i64 {
        Some("max_wait"@)
    } else {
        None
    }
}

/// How long to wait for another message: the debounce time, cut short where the
/// first message would wait too long.
pub open spec fn wait_ms(start_ms: int, now_ms: int, cfg: BufferConfig) -> int {
    let left = cfg.max_wait_ms as i64 - (now_ms - start_ms);
    let d = if (cfg.debounce_ms as i64) < left {
        (cfg.debounce_ms as i64) as int
    } else {
        left
    };
    if d < 0 {
        0
    } else {
        d
    }
}

/// What to do once a message is in the buffer, which then holds `n` messages of
/// `chars` bytes; `first` is the kept time of its first message.
pub fn buffer_step(n: i64, chars: i64, first: Option<&str>, now_ms: i64, cfg: BufferConfig) -> (r:
    BufferStep)
    requires
        now_ms + (cfg.debounce_ms as i64) <= i64::MAX,
    ensures
        match r {
            BufferStep::Run(reason) => run_reason(
                n,
                chars,
                window_start(opt_str(first), now_ms as int),
                now_ms as int,
                cfg,
            ) == Some(reason@),
            BufferStep::Wait { score_ms } => run_reason(
                n,
                chars,
                window_start(opt_str(first), now_ms as int),
                now_ms as int,
                cfg,
            ) is None && score_ms == now_ms + wait_ms(
                window_start(opt_str(first), now_ms as int),
                now_ms as int,
                cfg,
            ),
        },
{
    let start: i64 = match first {
        Some(s) => match text::parse_i64(s) {
            Some(t) => t,
            None => now_ms,
        },
        None => now_ms,
    };
    let count: u32 = #[verifier::truncate]
    (n as u32);
    if count >= cfg.max_messages {
        return BufferStep::Run("max_messages");
    }
    let size: u32 = #[verifier::truncate]
    (chars as u32);
    if size >= cfg.max_chars {
        return BufferStep::Run("max_chars");
    }
    let waited: i128 = now_ms as i128 - start as i128;
    let max_wait: i64 = #[verifier::truncate]
    (cfg.max_wait_ms as i64);
    if waited >= max_wait as i128 {
        return BufferStep::Run("max_wait");
    }
    let left: i128 = max_wait as i128 - waited;
    let debounce: i64 = #[verifier::truncate]
    (cfg.debounce_ms as i64);
    let delay: i128 = if (debounce as i128) < left {
        debounce as i128
    } else {
        left
    };
    let delay: i128 = if delay < 0 {
        0
    } else {
        delay
    };
    BufferStep::Wait { score_ms: now_ms + delay as i64 }
}

/// Keys of the buffer: when it began, and how many bytes it holds.
pub fn buffer_meta_keys(conv_id: ConversationId) -> (r: (String, String))
    ensures
        r.0@ == "buf:first:"@ + int_text(conv_id as int),
        r.1@ == "buf:chars:"@ + int_text(conv_id as int),
{
    let n = text::i64_text(conv_id);
    (
        "buf:first:".to_string().concat(n.as_str()),
        "buf:chars:".to_string().concat(n.as_str()),
    )
}

/// The job that starts a run.
pub open spec fn intake_job(conv_id: i64, account_id: i64, reason: Seq<char>, now_ms: i64) -> Json {
    Json::Object(
        seq![
            ("conversation_id"@, Json::Int(conv_id as int)),
            ("account_id"@, Json::Int(account_id as int)),
            ("reason"@, Json::Str(reason)),
            ("enqueued_at_ms"@, Json::Int(now_ms as int)),
        ],
    )
}

/// The job that starts a run.
pub fn run_job(conv_id: ConversationId, account_id: i64, reason: &str, now_ms: i64) -> (r:
    JsonValue)
    ensures
        r@ == intake_job(conv_id, account_id, reason@, now_ms),
{
    let mut m: Vec<(String, JsonValue)> = Vec::new();
    m.push(("conversation_id".to_string(), of_i64(conv_id)));
    m.push(("account_id".to_string(), of_i64(account_id)));
    m.push(("reason".to_string(), JsonValue::Str(reason.to_string())));
    m.push(("enqueued_at_ms".to_string(), of_i64(now_ms)));
    proof {
        lemma_object(m);
        assert(members(m@) =~= seq![
            ("conversation_id"@, Json::Int(conv_id as int)),
            ("account_id"@, Json::Int(account_id as int)),
            ("reason"@, Json::Str(reason@)),
            ("enqueued_at_ms"@, Json::Int(now_ms as int)),
        ]);
    }
    JsonValue::Object(m)
}

// ---------------------------------------------------------------------------
// The account's webhook
// ---------------------------------------------------------------------------

/// `seen:conv:{conversation}:{event}:{created_at}`.
pub open spec fn event_mark(conv_id: int, event: Seq<char>, created_at: Option<Seq<char>>) -> Seq<
    char,
> {
    "seen:conv:"@ + int_text(conv_id) + ":"@ + event + ":"@ + (match created_at {
        Some(s) => s,
        None => ""@,
    })
}

/// Key under which an event of a conversation is remembered.
pub fn conversation_dedup_key(
    conv_id: ConversationId,
    event: &str,
    created_at: Option<&str>,
) -> (r: String)
    ensures
        r@ == event_mark(conv_id as int, event@, opt_str(created_at)),
{
    let mut r = "seen:conv:".to_string();
    r.append(text::i64_text(conv_id).as_str());
    r.append(":");
    r.append(event);
    r.append(":");
    match created_at {
        Some(s) => r.append(s),
        None => r.append(""),
    }
    r
}

/// What an event of the account asks for.
#[derive(Debug, Clone, Copy, PartialEq, Eq, Structural)]
pub enum AccountEvent {
    NoConversation,
    Created,
    Updated,
    StatusChanged,
    /// An attendant spoke.
    HumanMessage,
    Nothing,
}

/// What an event of the account asks for. A private note asks for nothing,
/// whoever wrote it.
pub open spec fn account_event_of(p: AgentBotWebhookPayload) -> AccountEvent {
    if p.conversation is None {
        AccountEvent::NoConversation
    } else if p.event@ == "conversation_created"@ {
        AccountEvent::Created
    } else if p.event@ == "conversation_updated"@ {
        AccountEvent::Updated
    } else if p.event@ == "conversation_status_changed"@ {
        AccountEvent::StatusChanged
    } else if p.event@ == "message_created"@ && p.private != Some(true) && speaker(
        opt_text(p.message_type),
        sender_type(p),
    ) is User {
        AccountEvent::HumanMessage
    } else {
        AccountEvent::Nothing
    }
}

/// What an event of the account asks for.
pub fn account_event(payload: &AgentBotWebhookPayload) -> (r: AccountEvent)
    ensures
        r == account_event_of(*payload),
{
    if payload.conversation.is_none() {
        return AccountEvent::NoConversation;
    }
    let event = payload.event.as_str();
    if text::same(event, "conversation_created") {
        AccountEvent::Created
    } else if text::same(event, "conversation_updated") {
        AccountEvent::Updated
    } else if text::same(event, "conversation_status_changed") {
        AccountEvent::StatusChanged
    } else if text::same(event, "message_created") && !payload.is_private_note() {
        match payload.sender_kind() {
            SenderKind::User => AccountEvent::HumanMessage,
            _ => AccountEvent::Nothing,
        }
    } else {
        AccountEvent::Nothing
    }
}

/// The row of a new conversation.
#[derive(Debug, Clone)]
pub struct NewConversation {
    pub conversation_id: ConversationId,
    pub account_id: i64,
    pub inbox_id: i64,
    pub contact_id: i64,
    pub channel: String,
    pub ai_state: AiState,
    pub chatwoot_status: String,
}

/// The status of a new conversation.
pub open spec fn new_status(conv: ConversationSummary) -> Seq<char> {
    match conv.status {
        Some(s) => s@,
        None => "pending"@,
    }
}

/// The row of a new conversation. One that is pending belongs to the AI, any
/// other waits for an attendant.
pub fn handle_conversation_created(conv: &ConversationSummary, account_id: i64) -> (r:
    NewConversation)
    ensures
        r.conversation_id == conv.id,
        r.account_id == account_id,
        r.inbox_id == (match conv.inbox_id {
            Some(n) => n,
            None => 0,
        }),
        r.contact_id == (match conv.meta {
            Some(m) => match m.sender {
                Some(s) => s.id,
                None => 0,
            },
            None => 0,
        }),
        r.channel@ == (match conv.channel {
            Some(s) => s@,
            None => ""@,
        }),
        r.chatwoot_status@ == new_status(*conv),
        r.ai_state == if new_status(*conv) == "pending"@ {
            AiState::AiActive
        } else {
            AiState::AwaitingHuman
        },
{
    let contact_id = match &conv.meta {
        Some(m) => match &m.sender {
            Some(s) => s.id,
            None => 0,
        },
        None => 0,
    };
    let chatwoot_status = match &conv.status {
        Some(s) => s.clone(),
        None => "pending".to_string(),
    };
    let ai_state = if text::same(chatwoot_status.as_str(), "pending") {
        AiState::AiActive
    } else {
        AiState::AwaitingHuman
    };
    NewConversation {
        conversation_id: conv.id,
        account_id,
        inbox_id: match conv.inbox_id {
            Some(n) => n,
            None => 0,
        },
        contact_id,
        channel: match &conv.channel {
            Some(s) => s.clone(),
            None => "".to_string(),
        },
        ai_state,
        chatwoot_status,
    }
}

/// What changes in the row of a conversation; `None` for what stays.
#[derive(Debug, Clone)]
pub struct ConversationUpdate {
    pub conversation_id: ConversationId,
    pub assignee_id: Option<i64>,
    pub team_id: Option<i64>,
    pub labels: Vec<String>,
    pub ai_state: Option<AiState>,
}

/// What changes in the row of a conversation. An attendant who is assigned
/// takes it from the AI.
pub fn handle_conversation_updated(conv: &ConversationSummary) -> (r: ConversationUpdate)
    ensures
        r.conversation_id == conv.id,
        r.assignee_id == (match conv.meta {
            Some(m) => match m.assignee {
                Some(a) => Some(a.id),
                None => None,
            },
            None => None,
        }),
        r.team_id == (match conv.meta {
            Some(m) => match m.team {
                Some(t) => Some(t.id),
                None => None,
            },
            None => None,
        }),
        texts(r.labels@) == (match conv.labels {
            Some(v) => texts(v@),
            None => Seq::<Seq<char>>::empty(),
        }),
        r.ai_state == if r.assignee_id is Some {
            Some(AiState::HumanHandling)
        } else {
            None
        },
{
    let (assignee_id, team_id): (Option<i64>, Option<i64>) = match &conv.meta {
        Some(m) => (
            match &m.assignee {
                Some(a) => Some(a.id),
                None => None,
            },
            match &m.team {
                Some(t) => Some(t.id),
                None => None,
            },
        ),
        None => (None, None),
    };
    let labels = match &conv.labels {
        Some(v) => text::copy_texts(v),
        None => {
            let none: Vec<String> = Vec::new();
            assert(texts(none@) =~= Seq::<Seq<char>>::empty());
            none
        },
    };
    let ai_state = if assignee_id.is_some() {
        Some(AiState::HumanHandling)
    } else {
        None
    };
    ConversationUpdate { conversation_id: conv.id, assignee_id, team_id, labels, ai_state }
}

/// The state that a stored text names, up to white space around it.
pub open spec fn named_state(s: Seq<char>) -> Option<AiState> {
    let t = trimmed(s);
    if t == "ai_active"@ {
        Some(AiState::AiActive)
    } else if t == "ai_thinking"@ {
        Some(AiState::AiThinking)
    } else if t == "awaiting_human"@ {
        Some(AiState::AwaitingHuman)
    } else if t == "human_handling"@ {
        Some(AiState::HumanHandling)
    } else if t == "ai_paused_manual"@ {
        Some(AiState::AiPausedManual)
    } else if t == "ai_paused_limit"@ {
        Some(AiState::AiPausedLimit)
    } else if t == "closed"@ {
        Some(AiState::Closed)
    } else {
        None
    }
}

/// The state that a stored text names.
pub fn parse_ai_state(s: &str) -> (r: Option<AiState>)
    ensures
        r == named_state(s@),
{
    let t = text::trim(s);
    let w = t.as_str();
    if text::same(w, "ai_active") {
        Some(AiState::AiActive)
    } else if text::same(w, "ai_thinking") {
        Some(AiState::AiThinking)
    } else if text::same(w, "awaiting_human") {
        Some(AiState::AwaitingHuman)
    } else if text::same(w, "human_handling") {
        Some(AiState::HumanHandling)
    } else if text::same(w, "ai_paused_manual") {
        Some(AiState::AiPausedManual)
    } else if text::same(w, "ai_paused_limit") {
        Some(AiState::AiPausedLimit)
    } else if text::same(w, "closed") {
        Some(AiState::Closed)
    } else {
        None
    }
}

/// The state that a status of the help desk means by itself.
pub open spec fn state_of_status(status: Seq<char>) -> AiState {
    if status == "open"@ {
        AiState::AwaitingHuman
    } else if status == "resolved"@ {
        AiState::Closed
    } else if status == "snoozed"@ {
        AiState::AiPausedManual
    } else {
        AiState::AiActive
    }
}

/// The state that a status of the help desk means by itself.
pub fn status_to_ai_state(status: &str) -> (r: AiState)
    ensures
        r == state_of_status(status@),
{
    if text::same(status, "open") {
        AiState::AwaitingHuman
    } else if text::same(status, "resolved") {
        AiState::Closed
    } else if text::same(status, "snoozed") {
        AiState::AiPausedManual
    } else {
        AiState::AiActive
    }
}

/// Whether `e` is the event that a status of the help desk stands for.
pub open spec fn is_event_of_status(e: StateEvent, status: Seq<char>) -> bool {
    if status == "pending"@ {
        e is HumanSetPending
    } else if status == "open"@ {
        e is AiRequestedHandoff
    } else if status == "resolved"@ {
        e is HumanResolved
    } else {
        e matches StateEvent::LabelAdded(l) && l@ == "snoozed"@
    }
}

/// Whether a status of the help desk is one that changes the state.
pub open spec fn known_status(status: Seq<char>) -> bool {
    status == "pending"@ || status == "open"@ || status == "resolved"@ || status == "snoozed"@
}

/// The event that a status of the help desk stands for.
pub fn status_event(status: &str) -> (r: Option<StateEvent>)
    ensures
        r is Some <==> known_status(status@),
        r matches Some(e) ==> is_event_of_status(e, status@),
{
    if text::same(status, "pending") {
        Some(StateEvent::HumanSetPending)
    } else if text::same(status, "open") {
        Some(StateEvent::AiRequestedHandoff)
    } else if text::same(status, "resolved") {
        Some(StateEvent::HumanResolved)
    } else if text::same(status, "snoozed") {
        Some(StateEvent::LabelAdded("snoozed".to_string()))
    } else {
        None
    }
}

/// The state of a conversation after its status changed. Where the stored state
/// is unknown, or refuses the event, the status decides by itself.
pub open spec fn state_on_status(current: Option<Seq<char>>, status: Seq<char>) -> AiState {
    match current {
        Some(c) => match named_state(c) {
            Some(s) => if status == "resolved"@ {
                AiState::Closed
            } else if status == "snoozed"@ {
                s
            } else {
                state_of_status(status)
            },
            None => state_of_status(status),
        },
        None => state_of_status(status),
    }
}

/// The state of a conversation after its status changed; `None` where the
/// status changes nothing. `current` is the stored state.
pub fn handle_status_changed(current: Option<&str>, new_status: Option<&str>) -> (r: Option<AiState>)
    ensures
        match new_status {
            Some(status) => if known_status(status@) {
                r == Some(state_on_status(opt_str(current), status@))
            } else {
                r is None
            },
            None => r is None,
        },
{
    let status = match new_status {
        Some(s) => s,
        None => return None,
    };
    let event = match status_event(status) {
        Some(e) => e,
        None => return None,
    };
    proof {
        reveal_strlit("pending");
        reveal_strlit("open");
        reveal_strlit("resolved");
        reveal_strlit("snoozed");
        assert("pending"@.len() == 7 && "open"@.len() == 4 && "resolved"@.len() == 8
            && "snoozed"@.len() == 7);
        assert("pending"@[0] == 'p' && "snoozed"@[0] == 's');
        lemma_snoozed_blocks_nothing();
    }
    let next = match current {
        Some(c) => match parse_ai_state(c) {
            Some(s) => match s.transition(&event) {
                Ok(n) => n,
                Err(_) => status_to_ai_state(status),
            },
            None => status_to_ai_state(status),
        },
        None => status_to_ai_state(status),
    };
    Some(next)
}

proof fn lemma_snoozed_blocks_nothing()
    ensures
        !crate::block_label("snoozed"@),
{
    reveal_strlit("snoozed");
    reveal_strlit("ia:off");
    reveal_strlit("humano");
    reveal_strlit("juridico");
    assert(text::ascii_lowered("snoozed"@).len() == 7);
    assert(text::ascii_lowered("ia:off"@).len() == 6);
    assert(text::ascii_lowered("humano"@).len() == 6);
    assert(text::ascii_lowered("juridico"@).len() == 8);
}

/// What is written when an attendant speaks: the AI steps back, and the armed
/// timers are cancelled for this reason.
pub fn handle_human_message() -> (r: (AiState, &'static str))
    ensures
        r.0 is HumanHandling,
        r.1@ == "human_replied"@,
{
    (AiState::HumanHandling, "human_replied")
}

// ---------------------------------------------------------------------------
// Laws
// ---------------------------------------------------------------------------

/// A webhook without a valid signature is refused, whatever it says; so is one
/// whose time is off by more than five minutes.
pub proof fn law_unsigned_or_stale_webhooks_are_refused(
    secrets: Seq<SecretString>,
    sig: Seq<char>,
    ts: Seq<char>,
    body: Seq<u8>,
    now: int,
)
    requires
        !fresh(ts, now, 300) || forall|i: int|
            0 <= i < secrets.len() ==> sig != signature::signature(
                encode_utf8((#[trigger] secrets[i])@),
                ts,
                body,
            ),
    ensures
        refusal(secrets, sig, ts, body, now) is Some,
{
}

/// A fresh webhook signed under a configured secret is accepted.
pub proof fn law_signed_and_fresh_webhooks_are_accepted(
    secrets: Seq<SecretString>,
    i: int,
    ts: Seq<char>,
    body: Seq<u8>,
    now: int,
)
    requires
        0 <= i < secrets.len(),
        ts.len() > 0,
        fresh(ts, now, 300),
    ensures
        refusal(
            secrets,
            signature::signature(encode_utf8(secrets[i]@), ts, body),
            ts,
            body,
            now,
        ) is None,
{
    reveal_strlit("sha256=");
    let sig = signature::signature(encode_utf8(secrets[i]@), ts, body);
    assert(sig.len() >= 7);
    assert(sig == signature::signature(encode_utf8(secrets[i]@), ts, body));
}

/// An echo of the AI, a note, and a word of an attendant never reach the buffer.
pub proof fn law_only_contacts_reach_the_buffer(p: AgentBotWebhookPayload)
    requires
        intake_of(p) is Process,
    ensures
        speaker(opt_text(p.message_type), sender_type(p)) is Contact,
        p.private != Some(true),
{
}

/// A message waits no longer than the configured time after the first of its
/// window, and never into the past.
pub proof fn law_debounce_never_passes_the_cap(
    n: i64,
    chars: i64,
    start_ms: int,
    now_ms: int,
    cfg: BufferConfig,
)
    requires
        run_reason(n, chars, start_ms, now_ms, cfg) is None,
    ensures
        now_ms <= now_ms + wait_ms(start_ms, now_ms, cfg) <= start_ms + (cfg.max_wait_ms as i64),
        wait_ms(start_ms, now_ms, cfg) <= if (cfg.debounce_ms as i64) < 0 {
            0
        } else {
            (cfg.debounce_ms as i64) as int
        },
{
}

/// Resolving closes a conversation and reopening it calls for an attendant,
/// whatever state was stored; giving it back makes the AI active.
pub proof fn law_status_decides_the_state(current: Option<Seq<char>>)
    ensures
        state_on_status(current, "resolved"@) is Closed,
        state_on_status(current, "open"@) is AwaitingHuman,
        state_on_status(current, "pending"@) is AiActive,
{
    reveal_strlit("pending");
    reveal_strlit("open");
    reveal_strlit("resolved");
    reveal_strlit("snoozed");
    assert("pending"@.len() == 7 && "open"@.len() == 4 && "resolved"@.len() == 8
        && "snoozed"@.len() == 7);
    assert("pending"@[0] == 'p' && "snoozed"@[0] == 's');
}

/// Reading back the name of a state gives the state.
pub proof fn law_named_state_round_trip(s: AiState)
    ensures
        named_state(state_name(s)) == Some(s),
{
    reveal_strlit("ai_active");
    reveal_strlit("ai_thinking");
    reveal_strlit("awaiting_human");
    reveal_strlit("human_handling");
    reveal_strlit("ai_paused_manual");
    reveal_strlit("ai_paused_limit");
    reveal_strlit("closed");
    let n = state_name(s);
    assert(n.len() > 0 && !text::white(n[0]) && !text::white(n.last()));
    assert(trimmed(n) == n);
    assert("ai_active"@.len() == 9);
    assert("ai_thinking"@.len() == 11);
    assert("awaiting_human"@.len() == 14 && "awaiting_human"@[0] == 'a');
    assert("human_handling"@.len() == 14 && "human_handling"@[0] == 'h');
    assert("ai_paused_manual"@.len() == 16);
    assert("ai_paused_limit"@.len() == 15);
    assert("closed"@.len() == 6);
}

/// The start of a window is read back as it was kept.
pub proof fn law_window_start_is_kept(start_ms: i64, now_ms: int)
    ensures
        window_start(Some(int_text(start_ms as int)), now_ms) == start_ms,
{
    text::law_numbers_read_back(start_ms as int);
}

/// What is taken up is a new message that came in from a contact and is no note,
/// with an id and a conversation; each of these is needed, and together they are
/// enough.
pub proof fn law_words_of_contacts_are_taken_up(p: AgentBotWebhookPayload, r: Intake)
    requires
        call_ensures(intake, (&p,), r),
    ensures
        r is Process <==> {
            &&& p.event@ == "message_created"@
            &&& p.id is Some
            &&& p.conversation is Some
            &&& p.private != Some(true)
            &&& said_by(p, "incoming"@, "contact"@)
        },
        r matches Intake::Process { msg_id, conversation_id, account_id } ==> {
            &&& p.id == Some(msg_id)
            &&& p.conversation->Some_0.id == conversation_id
            &&& p.account matches Some(a) ==> account_id == a.id
        },
{
    reveal_strlit("incoming");
    reveal_strlit("outgoing");
    reveal_strlit("contact");
    reveal_strlit("User");
    reveal_strlit("AgentBot");
    assert("incoming"@[0] == 'i' && "outgoing"@[0] == 'o');
    assert("contact"@.len() == 7 && "User"@.len() == 4 && "AgentBot"@.len() == 8);
}

/// An attendant is heard just where a message went out from a user in a
/// conversation and is no note: then the AI steps back.
pub proof fn law_words_of_attendants_are_heard(
    p: AgentBotWebhookPayload,
    r: AccountEvent,
    back: (AiState, &'static str),
)
    requires
        call_ensures(account_event, (&p,), r),
        call_ensures(handle_human_message, (), back),
    ensures
        r is HumanMessage <==> {
            &&& p.event@ == "message_created"@
            &&& p.conversation is Some
            &&& p.private != Some(true)
            &&& said_by(p, "outgoing"@, "User"@)
        },
        back.0 is HumanHandling,
{
    lemma_events_differ();
    reveal_strlit("incoming");
    reveal_strlit("outgoing");
    reveal_strlit("contact");
    reveal_strlit("User");
    assert("incoming"@[0] == 'i' && "outgoing"@[0] == 'o');
    assert("contact"@.len() == 7 && "User"@.len() == 4);
}

proof fn lemma_events_differ()
    ensures
        "message_created"@ != "conversation_created"@,
        "message_created"@ != "conversation_updated"@,
        "message_created"@ != "conversation_status_changed"@,
        "conversation_created"@ != "conversation_updated"@,
        "conversation_created"@ != "conversation_status_changed"@,
        "conversation_updated"@ != "conversation_status_changed"@,
{
    reveal_strlit("message_created");
    reveal_strlit("conversation_created");
    reveal_strlit("conversation_updated");
    reveal_strlit("conversation_status_changed");
    assert("message_created"@.len() == 15);
    assert("conversation_created"@.len() == 20 && "conversation_created"@[13] == 'c');
    assert("conversation_updated"@.len() == 20 && "conversation_updated"@[13] == 'u');
    assert("conversation_status_changed"@.len() == 27);
}

/// What the account tells of a conversation is taken for what it says: created,
/// updated, its status changed; without a conversation it is taken for nothing.
pub proof fn law_events_of_the_account_are_told_apart(p: AgentBotWebhookPayload, r: AccountEvent)
    requires
        call_ensures(account_event, (&p,), r),
    ensures
        r is NoConversation <==> p.conversation is None,
        r is Created <==> p.conversation is Some && p.event@ == "conversation_created"@,
        r is Updated <==> p.conversation is Some && p.event@ == "conversation_updated"@,
        r is StatusChanged <==> p.conversation is Some && p.event@
            == "conversation_status_changed"@,
{
    lemma_events_differ();
}

/// A new conversation belongs to the AI where it is pending or says nothing of
/// its status, and waits for an attendant else; it keeps its id and its inbox.
pub proof fn law_new_conversations_go_to_whom_they_belong(
    conv: ConversationSummary,
    account_id: i64,
    r: NewConversation,
)
    requires
        call_ensures(handle_conversation_created, (&conv, account_id), r),
    ensures
        r.ai_state is AiActive <==> (conv.status matches Some(s) ==> s@ == "pending"@),
        r.ai_state is AwaitingHuman <==> (conv.status matches Some(s) && s@ != "pending"@),
        r.conversation_id == conv.id && r.account_id == account_id,
        conv.inbox_id matches Some(n) ==> r.inbox_id == n,
        conv.status matches Some(s) ==> r.chatwoot_status@ == s@,
{
}

/// An attendant who is assigned takes the conversation from the AI; without one
/// the state stays as it is.
pub proof fn law_an_assignee_takes_the_conversation(
    conv: ConversationSummary,
    r: ConversationUpdate,
)
    requires
        call_ensures(handle_conversation_updated, (&conv,), r),
    ensures
        (conv.meta matches Some(m) && m.assignee is Some) ==> r.ai_state == Some(
            AiState::HumanHandling,
        ) && r.assignee_id == Some(conv.meta->Some_0.assignee->Some_0.id),
        !(conv.meta matches Some(m) && m.assignee is Some) ==> r.ai_state is None
            && r.assignee_id is None,
        (conv.meta matches Some(m) && m.team is Some) ==> r.team_id == Some(
            conv.meta->Some_0.team->Some_0.id,
        ),
{
}

/// A change of status moves the conversation whatever was stored: resolved closes
/// it, open calls for an attendant, pending gives it to the AI. Snoozing pauses
/// where nothing readable was stored and else leaves the state; any other status
/// changes nothing.
pub proof fn law_a_status_moves_the_conversation(
    current: Option<&str>,
    status: &str,
    r: Option<AiState>,
    none: Option<AiState>,
)
    requires
        call_ensures(handle_status_changed, (current, Some(status)), r),
        call_ensures(handle_status_changed, (current, None), none),
    ensures
        status@ == "resolved"@ ==> r == Some(AiState::Closed),
        status@ == "open"@ ==> r == Some(AiState::AwaitingHuman),
        status@ == "pending"@ ==> r == Some(AiState::AiActive),
        status@ == "snoozed"@ && current is None ==> r == Some(AiState::AiPausedManual),
        status@ == "snoozed"@ ==> forall|s: AiState|
            opt_str(current) == Some(#[trigger] state_name(s)) ==> r == Some(s),
        r is Some <==> status@ == "resolved"@ || status@ == "open"@ || status@ == "pending"@
            || status@ == "snoozed"@,
        none is None,
{
    reveal_strlit("pending");
    reveal_strlit("open");
    reveal_strlit("resolved");
    reveal_strlit("snoozed");
    assert("pending"@.len() == 7 && "open"@.len() == 4 && "resolved"@.len() == 8
        && "snoozed"@.len() == 7);
    assert("pending"@[0] == 'p' && "snoozed"@[0] == 's');
    assert forall|s: AiState| status@ == "snoozed"@ && opt_str(current) == Some(
        #[trigger] state_name(s),
    ) implies r == Some(s) by {
        law_named_state_round_trip(s);
    }
}

/// A buffer is run at once where it holds enough messages or enough bytes, or
/// where its first message has waited long enough; it waits only where none of
/// these is so.
pub proof fn law_a_full_or_old_buffer_runs(
    n: i64,
    chars: i64,
    start_ms: i64,
    first: &str,
    now_ms: i64,
    cfg: BufferConfig,
    r: BufferStep,
)
    requires
        0 <= n <= u32::MAX,
        0 <= chars <= u32::MAX,
        cfg.max_wait_ms <= i64::MAX,
        first@ == int_text(start_ms as int),
        call_ensures(buffer_step, (n, chars, Some(first), now_ms, cfg), r),
    ensures
        r is Run <==> n >= cfg.max_messages || chars >= cfg.max_chars || now_ms - start_ms
            >= cfg.max_wait_ms,
        r matches BufferStep::Run(why) ==> {
            &&& why@ == "max_messages"@ ==> n >= cfg.max_messages
            &&& why@ == "max_chars"@ ==> chars >= cfg.max_chars
            &&& why@ == "max_wait"@ ==> now_ms - start_ms >= cfg.max_wait_ms
            &&& why@ == "max_messages"@ || why@ == "max_chars"@ || why@ == "max_wait"@
        },
{
    text::law_numbers_read_back(start_ms as int);
    reveal_strlit("max_messages");
    reveal_strlit("max_chars");
    reveal_strlit("max_wait");
    assert("max_messages"@.len() == 12 && "max_chars"@.len() == 9 && "max_wait"@.len() == 8);
}

/// A buffer that waits does so for the debounce time after the newest message,
/// and no longer than the longest wait after the first: it comes due at the
/// earlier of the two.
pub proof fn law_a_waiting_buffer_comes_due(
    n: i64,
    chars: i64,
    start_ms: i64,
    first: &str,
    now_ms: i64,
    cfg: BufferConfig,
    r: BufferStep,
)
    requires
        cfg.max_wait_ms <= i64::MAX,
        cfg.debounce_ms <= i64::MAX,
        first@ == int_text(start_ms as int),
        call_ensures(buffer_step, (n, chars, Some(first), now_ms, cfg), r),
    ensures
        r matches BufferStep::Wait { score_ms } ==> {
            &&& now_ms <= score_ms
            &&& score_ms <= now_ms + cfg.debounce_ms
            &&& score_ms <= start_ms + cfg.max_wait_ms
            &&& score_ms == now_ms + cfg.debounce_ms || score_ms == start_ms + cfg.max_wait_ms
        },
{
    text::law_numbers_read_back(start_ms as int);
}

/// The first message of a buffer begins its window.
pub proof fn law_a_window_begins_now(
    n: i64,
    chars: i64,
    now_ms: i64,
    cfg: BufferConfig,
    r: BufferStep,
)
    requires
        0 < cfg.max_wait_ms <= i64::MAX,
        0 <= n < cfg.max_messages,
        0 <= chars < cfg.max_chars,
        cfg.debounce_ms <= cfg.max_wait_ms,
        call_ensures(buffer_step, (n, chars, None, now_ms, cfg), r),
    ensures
        r matches BufferStep::Wait { score_ms } && score_ms == now_ms + cfg.debounce_ms,
{
}

/// A word in the buffer is the word that came: its id, its conversation, its
/// account, its text and its time are read back from it.
pub proof fn law_buffered_words_are_read_back(
    p: AgentBotWebhookPayload,
    msg_id: i64,
    account_id: i64,
    conv: i64,
    r: JsonValue,
)
    requires
        call_ensures(buffered_message, (&p, msg_id, account_id, conv), r),
    ensures
        i64_in(member(r@, "id"@)) == Some(msg_id as int),
        i64_in(member(r@, "account_id"@)) == Some(account_id as int),
        i64_in(member(r@, "conversation_id"@)) == Some(conv as int),
        p.content matches Some(s) ==> string_in(member(r@, "content"@)) == Some(s@),
        p.created_at matches Some(s) ==> string_in(member(r@, "created_at"@)) == Some(s@),
{
    reveal_strlit("id");
    reveal_strlit("account_id");
    reveal_strlit("conversation_id");
    reveal_strlit("content");
    reveal_strlit("created_at");
    assert("id"@.len() == 2 && "account_id"@.len() == 10 && "conversation_id"@.len() == 15);
    assert("content"@.len() == 7 && "created_at"@.len() == 10);
    assert("account_id"@[0] == 'a' && "created_at"@[0] == 'c');
    reveal_with_fuel(crate::json::first_member, 6);
    let m = r@->Object_0;
    let m1 = m.drop_first();
    let m2 = m1.drop_first();
    let m3 = m2.drop_first();
    let m4 = m3.drop_first();
    assert(m1[0] == m[1] && m2[0] == m[2] && m3[0] == m[3] && m4[0] == m[4]);
}

/// Two events of conversations share a mark only where they are of the same
/// conversation: a webhook of one is never taken for a repeat of another's.
pub proof fn law_marks_of_conversations_differ(
    a: int,
    b: int,
    event: Seq<char>,
    created_at: Option<Seq<char>>,
)
    requires
        event_mark(a, event, created_at) == event_mark(b, event, created_at),
    ensures
        a == b,
{
    let x = event_mark(a, event, created_at);
    let y = event_mark(b, event, created_at);
    let head = "seen:conv:"@;
    let tail = ":"@ + event + ":"@ + (match created_at {
        Some(s) => s,
        None => ""@,
    });
    assert(x =~= head + int_text(a) + tail);
    assert(y =~= head + int_text(b) + tail);
    assert(int_text(a).len() == int_text(b).len());
    assert(int_text(a) =~= x.subrange(head.len() as int, (head.len() + int_text(a).len()) as int));
    assert(int_text(b) =~= y.subrange(head.len() as int, (head.len() + int_text(b).len()) as int));
    text::law_numbers_are_told_apart(a, b);
}

/// A message that is not taken up is answered all the same, so that it is not
/// sent again, and the answer says why it was left: an event of another kind by
/// its name, a message without an id or a conversation, a note, or a word that
/// no contact said. One that is taken up gets its answer later.
pub proof fn law_messages_left_out_are_answered(
    p: AgentBotWebhookPayload,
    event: &str,
    x: Intake,
    r: Option<JsonValue>,
    label: Option<&'static str>,
)
    requires
        event@ == p.event@,
        call_ensures(intake, (&p,), x),
        call_ensures(intake_reply, (&x, event), r),
        call_ensures(intake_result, (&x,), label),
    ensures
        r is None <==> x is Process,
        r matches Some(j) ==> member(j@, "ok"@) == Some(Json::Bool(true)),
        p.event@ != "message_created"@ ==> (r matches Some(j) && member(j@, "ignored"@) == Some(
            Json::Str(p.event@),
        )) && opt_str(label) == Some("ignored"@),
        p.event@ == "message_created"@ && p.id is None ==> (r matches Some(j) && member(
            j@,
            "ignored"@,
        ) == Some(Json::Str("no_id"@))) && label is None,
        p.event@ == "message_created"@ && p.id is Some && p.conversation is None ==> (
        r matches Some(j) && member(j@, "ignored"@) == Some(Json::Str("no_conversation"@)))
            && label is None,
        p.event@ == "message_created"@ && p.id is Some && p.conversation is Some && p.private
            == Some(true) ==> (r matches Some(j) && member(j@, "discarded"@) == Some(
            Json::Str("private"@),
        )) && opt_str(label) == Some("discarded"@),
        p.event@ == "message_created"@ && p.id is Some && p.conversation is Some && p.private
            != Some(true) && opt_text(p.message_type) != Some("incoming"@) ==> (r matches Some(j)
            && member(j@, "skipped"@) == Some(Json::Bool(true))) && opt_str(label) == Some(
            "skipped"@,
        ),
        x is Process ==> label is None,
{
    reveal_strlit("ok");
    reveal_strlit("ignored");
    reveal_strlit("discarded");
    reveal_strlit("skipped");
    assert("ok"@.len() == 2 && "ignored"@.len() == 7 && "discarded"@.len() == 9);
    assert("skipped"@.len() == 7 && "skipped"@[0] == 's' && "ignored"@[0] == 'i');
    reveal_with_fuel(crate::json::first_member, 3);
    if r is Some {
        let m = r->Some_0@->Object_0;
        let m1 = m.drop_first();
        assert(m1[0] == m[1]);
    }
}

/// Whatever becomes of a webhook, the answer says that it was received. Only the
/// answer to a repeated one calls it a duplicate, and only that to a body that is
/// no JSON calls it ignored.
pub proof fn law_webhooks_are_answered(done: JsonValue, again: JsonValue, bad: JsonValue)
    requires
        call_ensures(processed_reply, (), done),
        call_ensures(duplicate_reply, (), again),
        call_ensures(invalid_json_reply, (), bad),
    ensures
        member(done@, "ok"@) == Some(Json::Bool(true)),
        member(again@, "ok"@) == Some(Json::Bool(true)),
        member(bad@, "ok"@) == Some(Json::Bool(true)),
        member(done@, "duplicate"@) is None,
        member(done@, "ignored"@) is None,
        member(again@, "duplicate"@) == Some(Json::Bool(true)),
        member(again@, "ignored"@) is None,
        member(bad@, "ignored"@) == Some(Json::Str("invalid_json"@)),
        member(bad@, "duplicate"@) is None,
{
    reveal_strlit("ok");
    reveal_strlit("ignored");
    reveal_strlit("duplicate");
    assert("ok"@.len() == 2 && "ignored"@.len() == 7 && "duplicate"@.len() == 9);
    reveal_with_fuel(crate::json::first_member, 4);
    let a = done@->Object_0;
    let b = again@->Object_0;
    let c = bad@->Object_0;
    assert(a.drop_first().len() == 0);
    assert(b.drop_first()[0] == b[1] && b.drop_first().drop_first().len() == 0);
    assert(c.drop_first()[0] == c[1] && c.drop_first().drop_first().len() == 0);
}

/// A health check is told that all is well, which version runs and for how long.
pub proof fn law_health_is_told(version: &str, uptime_secs: u64, r: JsonValue)
    requires
        call_ensures(health_reply, (version, uptime_secs), r),
    ensures
        string_in(member(r@, "status"@)) == Some("ok"@),
        string_in(member(r@, "version"@)) == Some(version@),
        member(r@, "uptime_secs"@) == Some(Json::Int(uptime_secs as int)),
{
    reveal_strlit("status");
    reveal_strlit("version");
    reveal_strlit("uptime_secs");
    assert("status"@.len() == 6 && "version"@.len() == 7 && "uptime_secs"@.len() == 11);
    reveal_with_fuel(crate::json::first_member, 4);
    let m = r@->Object_0;
    let m1 = m.drop_first();
    let m2 = m1.drop_first();
    assert(m1[0] == m[1] && m2[0] == m[2]);
}

/// A job carries what it was made for: conversation, account, reason and time
/// are read back from it.
pub proof fn law_jobs_carry_their_reason(
    conv_id: ConversationId,
    account_id: i64,
    reason: &str,
    now_ms: i64,
    r: JsonValue,
)
    requires
        call_ensures(run_job, (conv_id, account_id, reason, now_ms), r),
    ensures
        i64_in(member(r@, "conversation_id"@)) == Some(conv_id as int),
        i64_in(member(r@, "account_id"@)) == Some(account_id as int),
        string_in(member(r@, "reason"@)) == Some(reason@),
        i64_in(member(r@, "enqueued_at_ms"@)) == Some(now_ms as int),
{
    reveal_strlit("conversation_id");
    reveal_strlit("account_id");
    reveal_strlit("reason");
    reveal_strlit("enqueued_at_ms");
    assert("conversation_id"@.len() == 15 && "account_id"@.len() == 10);
    assert("reason"@.len() == 6 && "enqueued_at_ms"@.len() == 14);
    reveal_with_fuel(crate::json::first_member, 5);
    let m = r@->Object_0;
    let m1 = m.drop_first();
    let m2 = m1.drop_first();
    let m3 = m2.drop_first();
    assert(m1[0] == m[1] && m2[0] == m[2] && m3[0] == m[3]);
}

/// A message takes its own time where that can be read, and else the time at
/// which it came.
pub proof fn law_unreadable_times_are_now(parsed: Option<i128>, now_nanos: i128, r: i128)
    requires
        call_ensures(time_or_now, (parsed, now_nanos), r),
    ensures
        parsed is None ==> r == now_nanos,
        parsed matches Some(t) ==> r == t,
{
}

/// A webhook is refused for the first thing that is wrong with it: no signature
/// or no time, a time off by more than five minutes, a signature of no secret.
pub proof fn law_webhooks_are_refused_for_cause(
    secrets: Vec<SecretString>,
    sig: &str,
    ts: &str,
    body: &[u8],
    now_secs: i64,
    close: bool,
    r: Result<(), String>,
)
    requires
        call_ensures(verify_request_at, (&secrets, sig, ts, body, now_secs), r),
        call_ensures(signature::is_timestamp_fresh, (ts, now_secs, 300), close),
    ensures
        sig@.len() == 0 || ts@.len() == 0 ==> (r matches Err(e) && e@
            == "missing signature or timestamp"@),
        sig@.len() > 0 && ts@.len() > 0 && !close ==> (r matches Err(e) && e@
            == "timestamp out of tolerance"@),
        sig@.len() > 0 && ts@.len() > 0 && close ==> (r matches Err(e) ==> e@
            == "invalid signature"@),
        r is Ok ==> sig@.len() > 0 && ts@.len() > 0 && close && exists|i: int|
            0 <= i < secrets@.len() && sig@ == signature::signature(
                encode_utf8((#[trigger] secrets@[i])@),
                ts@,
                body@,
            ),
        sig@.len() > 0 && ts@.len() > 0 && close && r is Err ==> forall|i: int|
            0 <= i < secrets@.len() ==> sig@ != signature::signature(
                encode_utf8((#[trigger] secrets@[i])@),
                ts@,
                body@,
            ),
{
}

/// What a status of the help desk means: an open conversation waits for an
/// attendant, a resolved one is closed, a snoozed one is paused, and every other
/// is the AI's. Only the four statuses that the help desk knows are events.
pub proof fn law_what_a_status_means(status: &str, s: AiState, e: Option<StateEvent>)
    requires
        call_ensures(status_to_ai_state, (status,), s),
        call_ensures(status_event, (status,), e),
    ensures
        status@ == "open"@ ==> s is AwaitingHuman && e == Some(StateEvent::AiRequestedHandoff),
        status@ == "resolved"@ ==> s is Closed && e == Some(StateEvent::HumanResolved),
        status@ == "snoozed"@ ==> s is AiPausedManual && (e matches Some(StateEvent::LabelAdded(l))
            && l@ == "snoozed"@),
        status@ == "pending"@ ==> s is AiActive && e == Some(StateEvent::HumanSetPending),
        status@ != "open"@ && status@ != "resolved"@ && status@ != "snoozed"@ ==> s is AiActive,
        status@ != "open"@ && status@ != "resolved"@ && status@ != "snoozed"@ && status@
            != "pending"@ ==> e is None,
{
    reveal_strlit("open");
    reveal_strlit("resolved");
    reveal_strlit("snoozed");
    reveal_strlit("pending");
    assert("open"@.len() == 4 && "resolved"@.len() == 8);
    assert("snoozed"@.len() == 7 && "pending"@.len() == 7);
    assert("snoozed"@[0] == 's' && "pending"@[0] == 'p');
}

/// A word of a contact is logged as what it is: inbound, said by the contact, in
/// public and without a file, under its own id and at its own time.
pub proof fn law_words_are_logged_as_they_came(
    p: AgentBotWebhookPayload,
    msg_id: i64,
    conversation_id: ConversationId,
    now_nanos: i128,
    r: InboundLog,
)
    requires
        call_ensures(inbound_log, (&p, msg_id, conversation_id, now_nanos), r),
    ensures
        r.chatwoot_msg_id == msg_id && r.conversation_id == conversation_id,
        r.direction@ == "inbound"@ && r.sender_kind@ == "contact"@,
        !r.is_private && !r.has_attachment,
        p.created_at is None ==> r.created_at_nanos == now_nanos,
        p.created_at matches Some(t) ==> (rfc3339_nanos(t@) is None ==> r.created_at_nanos
            == now_nanos),
        p.created_at matches Some(t) ==> (rfc3339_nanos(t@) matches Some(n) ==> r.created_at_nanos
            == n),
        p.content matches Some(s) ==> (encode_utf8(s@).len() <= i32::MAX ==> r.content_len
            == encode_utf8(s@).len()),
{
}

/// Two events of conversations that share a key are of the same conversation.
pub proof fn law_keys_of_conversations_differ(
    a: ConversationId,
    b: ConversationId,
    event: &str,
    created_at: Option<&str>,
    x: String,
    y: String,
)
    requires
        call_ensures(conversation_dedup_key, (a, event, created_at), x),
        call_ensures(conversation_dedup_key, (b, event, created_at), y),
    ensures
        x@ == y@ <==> a == b,
        x@.len() >= 10 && x@.take(10) == "seen:conv:"@,
{
    reveal_strlit("seen:conv:");
    if x@ == y@ {
        law_marks_of_conversations_differ(a as int, b as int, event@, opt_str(created_at));
    }
    assert(x@.take(10) =~= "seen:conv:"@);
}

} // verus!
