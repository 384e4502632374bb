//! The rows of the tables. Times are in microseconds since the Unix epoch.
use crate::ids::{AccountId, ContactId, ConversationId, InboxId, RunId};
use crate::json::{lemma_object, members, F64Bits, Json, JsonValue};
use vstd::prelude::*;

verus! {

/// States of an outgoing message.
pub const STATE_PENDING: &'static str = "pending";

pub const STATE_SENT: &'static str = "sent";

pub const STATE_FAILED: &'static str = "failed";

pub const STATE_ABANDONED: &'static str = "abandoned";

/// Kinds of a timer.
pub const KIND_FIRST_RESPONSE: &'static str = "first_response";

pub const KIND_HUMAN_RESPONSE: &'static str = "human_response";

pub const KIND_ASSIGNMENT: &'static str = "assignment";

pub const KIND_RESOLUTION: &'static str = "resolution";

/// States of a timer.
pub const STATUS_ARMED: &'static str = "armed";

pub const STATUS_FIRED: &'static str = "fired";

pub const STATUS_CANCELLED: &'static str = "cancelled";

/// A run of the agent.
#[derive(Debug, Clone)]
pub struct AgentRunRow {
    pub run_id: u128,
    pub conversation_id: ConversationId,
    pub provider: String,
    pub agent_id: Option<String>,
    pub trigger_reason: String,
    pub input_msg_ids: Vec<i64>,
    pub status: String,
    pub error_kind: Option<String>,
    pub input_tokens: Option<i32>,
    pub output_tokens: Option<i32>,
    pub cost_usd: Option<F64Bits>,
    pub latency_ms: Option<i32>,
    pub started_at: i64,
    pub finished_at: Option<i64>,
}

impl AgentRunRow {
    /// A run that begins now.
    pub fn new(
        run_id: RunId,
        conversation_id: ConversationId,
        provider: &str,
        agent_id: Option<String>,
        trigger_reason: &str,
        input_msg_ids: Vec<i64>,
        now: i64,
    ) -> (r: Self)
        ensures
            r.run_id == run_id.0,
            r.conversation_id == conversation_id,
            r.provider@ == provider@,
            r.agent_id == agent_id,
            r.trigger_reason@ == trigger_reason@,
            r.input_msg_ids == input_msg_ids,
            r.status@ == "running"@,
            r.error_kind is None,
            r.input_tokens is None,
            r.output_tokens is None,
            r.cost_usd is None,
            r.latency_ms is None,
            r.started_at == now,
            r.finished_at is None,
    {
        AgentRunRow {
            run_id: run_id.as_uuid(),
            conversation_id,
            provider: provider.to_string(),
            agent_id,
            trigger_reason: trigger_reason.to_string(),
            input_msg_ids,
            status: "running".to_string(),
            error_kind: None,
            input_tokens: None,
            output_tokens: None,
            cost_usd: None,
            latency_ms: None,
            started_at: now,
            finished_at: None,
        }
    }
}

/// An entry of the audit log, without content.
#[derive(Debug, Clone)]
pub struct AuditLogRow {
    pub id: i64,
    pub at: i64,
    pub actor: String,
    pub action: String,
    pub conversation_id: Option<ConversationId>,
    pub run_id: Option<u128>,
    pub payload_hash: Option<String>,
    pub meta: Option<JsonValue>,
}

impl AuditLogRow {
    /// An entry made now; the table gives it its id.
    pub fn new(
        actor: &str,
        action: &str,
        conversation_id: Option<ConversationId>,
        run_id: Option<u128>,
        payload_hash: Option<String>,
        meta: Option<JsonValue>,
        now: i64,
    ) -> (r: Self)
        ensures
            r.id == 0,
            r.at == now,
            r.actor@ == actor@,
            r.action@ == action@,
            r.conversation_id == conversation_id,
            r.run_id == run_id,
            r.payload_hash == payload_hash,
            r.meta == meta,
    {
        AuditLogRow {
            id: 0,
            at: now,
            actor: actor.to_string(),
            action: action.to_string(),
            conversation_id,
            run_id,
            payload_hash,
            meta,
        }
    }
}

/// Which client of the ERP a contact is.
#[derive(Debug, Clone)]
pub struct ContactLinkRow {
    pub contact_id: ContactId,
    pub erp_client_id: Option<String>,
    pub cnpj: Option<String>,
    pub verified: bool,
    pub verified_at: Option<i64>,
    pub expires_at: Option<i64>,
    pub attributes: JsonValue,
}

impl ContactLinkRow {
    /// A contact that nothing is known of.
    pub fn new(contact_id: ContactId) -> (r: Self)
        ensures
            r.contact_id == contact_id,
            r.erp_client_id is None,
            r.cnpj is None,
            !r.verified,
            r.verified_at is None,
            r.expires_at is None,
            r.attributes@ == Json::Object(Seq::empty()),
    {
        let m: Vec<(String, JsonValue)> = Vec::new();
        proof {
            lemma_object(m);
            assert(members(m@) =~= Seq::empty());
        }
        ContactLinkRow {
            contact_id,
            erp_client_id: None,
            cnpj: None,
            verified: false,
            verified_at: None,
            expires_at: None,
            attributes: JsonValue::Object(m),
        }
    }
}

/// Whether a contact is verified and the verification still holds.
pub fn is_verified_and_valid(row: Option<&ContactLinkRow>, now: i64) -> (r: bool)
    ensures
        r == (match row {
            Some(c) => c.verified && (c.expires_at is None || c.expires_at->Some_0 > now),
            None => false,
        }),
{
    match row {
        Some(c) => c.verified && (match c.expires_at {
            Some(t) => t > now,
            None => true,
        }),
        None => false,
    }
}

/// What is known of a conversation.
#[derive(Debug, Clone)]
pub struct ConversationRow {
    pub conversation_id: ConversationId,
    pub account_id: AccountId,
    pub inbox_id: InboxId,
    pub contact_id: ContactId,
    pub channel: String,
    pub ai_state: String,
    pub chatwoot_status: String,
    pub assignee_id: Option<i64>,
    pub team_id: Option<i64>,
    pub labels: Vec<String>,
    pub provider_session_id: Option<String>,
    pub prior_ai_turns_in_row: i16,
    pub last_contact_msg_at: Option<i64>,
    pub last_human_msg_at: Option<i64>,
    pub last_ai_msg_at: Option<i64>,
    pub last_ai_msg_hash: Option<String>,
    pub paused_until: Option<i64>,
    pub pause_reason: Option<String>,
    pub created_at: i64,
    pub updated_at: i64,
}

impl ConversationRow {
    /// A conversation that begins now, with the AI active.
    pub fn new(
        conversation_id: ConversationId,
        account_id: AccountId,
        inbox_id: InboxId,
        contact_id: ContactId,
        channel: String,
        chatwoot_status: String,
        now: i64,
    ) -> (r: Self)
        ensures
            r.conversation_id == conversation_id,
            r.account_id == account_id,
            r.inbox_id == inbox_id,
            r.contact_id == contact_id,
            r.channel == channel,
            r.ai_state@ == "ai_active"@,
            r.chatwoot_status == chatwoot_status,
            r.assignee_id is None,
            r.team_id is None,
            r.labels@.len() == 0,
            r.provider_session_id is None,
            r.prior_ai_turns_in_row == 0,
            r.last_contact_msg_at is None,
            r.last_human_msg_at is None,
            r.last_ai_msg_at is None,
            r.last_ai_msg_hash is None,
            r.paused_until is None,
            r.pause_reason is None,
            r.created_at == now,
            r.updated_at == now,
    {
        ConversationRow {
            conversation_id,
            account_id,
            inbox_id,
            contact_id,
            channel,
            ai_state: "ai_active".to_string(),
            chatwoot_status,
            assignee_id: None,
            team_id: None,
            labels: vec![],
            provider_session_id: None,
            prior_ai_turns_in_row: 0,
            last_contact_msg_at: None,
            last_human_msg_at: None,
            last_ai_msg_at: None,
            last_ai_msg_hash: None,
            paused_until: None,
            pause_reason: None,
            created_at: now,
            updated_at: now,
        }
    }
}

/// Whose last message is stamped.
#[derive(Debug, Clone, Copy, PartialEq, Eq, Structural)]
pub enum MsgAt {
    Contact,
    Human,
    Ai,
}

/// How the time of a last message is written.
#[derive(Debug, Clone, Copy)]
pub struct TouchStatement {
    /// `$1` is the conversation, `$2` the time.
    pub sql: &'static str,
    /// Whether `$3` is the hash of the text: only for the AI's own messages.
    pub binds_hash: bool,
}

/// How the time of a last message is written.
pub fn touch_msg_at(kind: MsgAt) -> (r: TouchStatement)
    ensures
        r.binds_hash == (kind is Ai),
        r.sql@ == (match kind {
            MsgAt::Contact => "UPDATE conversation_state SET last_contact_msg_at=$2, updated_at=now() WHERE conversation_id=$1"@,
            MsgAt::Human => "UPDATE conversation_state SET last_human_msg_at=$2, updated_at=now() WHERE conversation_id=$1"@,
            MsgAt::Ai => "UPDATE conversation_state SET last_ai_msg_at=$2, last_ai_msg_hash=$3, updated_at=now() WHERE conversation_id=$1"@,
        }),
{
    match kind {
        MsgAt::Contact => TouchStatement {
            sql: "UPDATE conversation_state SET last_contact_msg_at=$2, updated_at=now() WHERE conversation_id=$1",
            binds_hash: false,
        },
        MsgAt::Human => TouchStatement {
            sql: "UPDATE conversation_state SET last_human_msg_at=$2, updated_at=now() WHERE conversation_id=$1",
            binds_hash: false,
        },
        MsgAt::Ai => TouchStatement {
            sql: "UPDATE conversation_state SET last_ai_msg_at=$2, last_ai_msg_hash=$3, updated_at=now() WHERE conversation_id=$1",
            binds_hash: true,
        },
    }
}

/// A decision of a gate.
#[derive(Debug, Clone)]
pub struct GateDecisionRow {
    pub id: i64,
    pub conversation_id: ConversationId,
    pub gate: String,
    pub rule: String,
    pub decision: String,
    pub detail: Option<JsonValue>,
    pub created_at: i64,
}

impl GateDecisionRow {
    /// A decision made now; the table gives it its id.
    pub fn new(
        conversation_id: ConversationId,
        gate: &str,
        rule: &str,
        decision: &str,
        detail: Option<JsonValue>,
        now: i64,
    ) -> (r: Self)
        ensures
            r.id == 0,
            r.conversation_id == conversation_id,
            r.gate@ == gate@,
            r.rule@ == rule@,
            r.decision@ == decision@,
            r.detail == detail,
            r.created_at == now,
    {
        GateDecisionRow {
            id: 0,
            conversation_id,
            gate: gate.to_string(),
            rule: rule.to_string(),
            decision: decision.to_string(),
            detail,
            created_at: now,
        }
    }
}

/// A message, its content encrypted.
#[derive(Debug, Clone)]
pub struct MessageLogRow {
    pub id: i64,
    pub chatwoot_msg_id: i64,
    pub conversation_id: ConversationId,
    pub direction: String,
    pub sender_kind: String,
    pub is_private: bool,
    pub content_enc: Option<Vec<u8>>,
    pub content_len: i32,
    pub has_attachment: bool,
    pub created_at: i64,
    pub ingested_at: i64,
}

impl MessageLogRow {
    /// A message that came in now; the table gives it its id.
    pub fn new(
        chatwoot_msg_id: i64,
        conversation_id: ConversationId,
        direction: &str,
        sender_kind: &str,
        is_private: bool,
        content_enc: Option<Vec<u8>>,
        content_len: i32,
        has_attachment: bool,
        created_at: i64,
        now: i64,
    ) -> (r: Self)
        ensures
            r.id == 0,
            r.chatwoot_msg_id == chatwoot_msg_id,
            r.conversation_id == conversation_id,
            r.direction@ == direction@,
            r.sender_kind@ == sender_kind@,
            r.is_private == is_private,
            r.content_enc == content_enc,
            r.content_len == content_len,
            r.has_attachment == has_attachment,
            r.created_at == created_at,
            r.ingested_at == now,
    {
        MessageLogRow {
            id: 0,
            chatwoot_msg_id,
            conversation_id,
            direction: direction.to_string(),
            sender_kind: sender_kind.to_string(),
            is_private,
            content_enc,
            content_len,
            has_attachment,
            created_at,
            ingested_at: now,
        }
    }
}

/// An outgoing message.
#[derive(Debug, Clone)]
pub struct OutboundMessageRow {
    pub id: i64,
    pub idempotency_key: String,
    pub run_id: Option<u128>,
    pub conversation_id: ConversationId,
    pub payload: JsonValue,
    pub state: String,
    pub chatwoot_msg_id: Option<i64>,
    pub attempts: i16,
    pub last_error: Option<String>,
    pub created_at: i64,
    pub sent_at: Option<i64>,
}

impl OutboundMessageRow {
    /// A message that waits to be sent; the table gives it its id.
    pub fn new(
        idempotency_key: &str,
        run_id: Option<RunId>,
        conversation_id: ConversationId,
        payload: JsonValue,
        now: i64,
    ) -> (r: Self)
        ensures
            r.id == 0,
            r.idempotency_key@ == idempotency_key@,
            r.run_id == (match run_id {
                Some(id) => Some(id.0),
                None => None,
            }),
            r.conversation_id == conversation_id,
            r.payload == payload,
            r.state@ == STATE_PENDING@,
            r.chatwoot_msg_id is None,
            r.attempts == 0,
            r.last_error is None,
            r.created_at == now,
            r.sent_at is None,
    {
        OutboundMessageRow {
            id: 0,
            idempotency_key: idempotency_key.to_string(),
            run_id: match run_id {
                Some(id) => Some(id.as_uuid()),
                None => None,
            },
            conversation_id,
            payload,
            state: STATE_PENDING.to_string(),
            chatwoot_msg_id: None,
            attempts: 0,
            last_error: None,
            created_at: now,
            sent_at: None,
        }
    }
}

/// A timer.
#[derive(Debug, Clone)]
pub struct SlaTimerRow {
    pub id: i64,
    pub conversation_id: ConversationId,
    pub kind: String,
    pub due_at: i64,
    pub escalation_level: i16,
    pub status: String,
    pub cancelled_reason: Option<String>,
    pub created_at: i64,
}

impl SlaTimerRow {
    /// An armed timer at the foot of the ladder; the table gives it its id.
    pub fn new(conversation_id: ConversationId, kind: &str, due_at: i64, now: i64) -> (r: Self)
        ensures
            r.id == 0,
            r.conversation_id == conversation_id,
            r.kind@ == kind@,
            r.due_at == due_at,
            r.escalation_level == 0,
            r.status@ == STATUS_ARMED@,
            r.cancelled_reason is None,
            r.created_at == now,
    {
        SlaTimerRow {
            id: 0,
            conversation_id,
            kind: kind.to_string(),
            due_at,
            escalation_level: 0,
            status: STATUS_ARMED.to_string(),
            cancelled_reason: None,
            created_at: now,
        }
    }
}

/// A notification that went out, once per conversation, kind, level and channel.
#[derive(Debug, Clone)]
pub struct NotificationLogRow {
    pub id: i64,
    pub conversation_id: ConversationId,
    pub sla_kind: String,
    pub level: i16,
    pub recipient: String,
    pub channel: String,
    pub state: String,
    pub created_at: i64,
}

// ---------------------------------------------------------------------------
// Laws
// ---------------------------------------------------------------------------

/// A contact counts as verified while the verification holds: from the moment at
/// which it runs out it does not, and one without an end holds for ever.
pub proof fn law_verifications_run_out(row: ContactLinkRow, now: i64, r: bool, none: bool)
    requires
        call_ensures(is_verified_and_valid, (Some(&row), now), r),
        call_ensures(is_verified_and_valid, (None, now), none),
    ensures
        !row.verified ==> !r,
        row.verified && row.expires_at is None ==> r,
        row.expires_at matches Some(t) ==> (now >= t ==> !r) && (now < t && row.verified ==> r),
        !none,
{
}

/// The time of a last message is written into the column of whoever spoke; only
/// the AI's own messages leave a hash.
pub proof fn law_the_speakers_column_is_touched(kind: MsgAt, r: TouchStatement)
    requires
        call_ensures(touch_msg_at, (kind,), r),
    ensures
        kind is Ai <==> r.binds_hash,
        kind is Contact ==> r.sql@
            == "UPDATE conversation_state SET last_contact_msg_at=$2, updated_at=now() WHERE conversation_id=$1"@,
        kind is Human ==> r.sql@
            == "UPDATE conversation_state SET last_human_msg_at=$2, updated_at=now() WHERE conversation_id=$1"@,
        kind is Ai ==> r.sql@
            == "UPDATE conversation_state SET last_ai_msg_at=$2, last_ai_msg_hash=$3, updated_at=now() WHERE conversation_id=$1"@,
{
}

/// New rows begin at the beginning: a run is running, a conversation is the AI's,
/// a message waits and was never tried, a timer is armed at the foot of the
/// ladder, and a contact is not verified.
pub proof fn law_rows_begin_at_the_beginning(
    run_id: RunId,
    conv: ConversationId,
    account: AccountId,
    inbox: InboxId,
    contact: ContactId,
    word: &str,
    other: &str,
    agent: Option<String>,
    ids: Vec<i64>,
    channel: String,
    status: String,
    payload: JsonValue,
    due: i64,
    now: i64,
    a: AgentRunRow,
    b: ConversationRow,
    c: OutboundMessageRow,
    d: SlaTimerRow,
    e: ContactLinkRow,
)
    requires
        call_ensures(AgentRunRow::new, (run_id, conv, word, agent, other, ids, now), a),
        call_ensures(
            ConversationRow::new,
            (conv, account, inbox, contact, channel, status, now),
            b,
        ),
        call_ensures(OutboundMessageRow::new, (word, Some(run_id), conv, payload, now), c),
        call_ensures(SlaTimerRow::new, (conv, word, due, now), d),
        call_ensures(ContactLinkRow::new, (contact,), e),
    ensures
        a.run_id == run_id.0 && a.conversation_id == conv && a.status@ == "running"@,
        a.started_at == now && a.finished_at is None && a.error_kind is None,
        a.provider@ == word@ && a.trigger_reason@ == other@ && a.input_msg_ids == ids,
        a.agent_id == agent && a.input_tokens is None && a.output_tokens is None,
        a.cost_usd is None && a.latency_ms is None,
        b.conversation_id == conv && b.account_id == account && b.inbox_id == inbox,
        b.contact_id == contact && b.ai_state@ == "ai_active"@ && b.chatwoot_status == status,
        b.prior_ai_turns_in_row == 0 && b.assignee_id is None && b.labels@.len() == 0,
        b.created_at == now && b.updated_at == now,
        b.channel == channel && b.team_id is None && b.provider_session_id is None,
        b.last_contact_msg_at is None && b.last_human_msg_at is None && b.last_ai_msg_at is None,
        b.last_ai_msg_hash is None && b.paused_until is None && b.pause_reason is None,
        c.state@ == "pending"@ && c.attempts == 0 && c.idempotency_key@ == word@,
        c.run_id == Some(run_id.0) && c.conversation_id == conv && c.payload == payload,
        c.chatwoot_msg_id is None && c.sent_at is None && c.created_at == now,
        d.conversation_id == conv && d.kind@ == word@ && d.due_at == due,
        d.escalation_level == 0 && d.status@ == "armed"@ && d.cancelled_reason is None,
        e.contact_id == contact && !e.verified && e.cnpj is None && e.expires_at is None,
{
}

/// What is logged is what was said: an entry of the audit log, a decision of a
/// gate and a message keep what they were made with, at the time of now.
pub proof fn law_logs_keep_what_they_were_given(
    conv: ConversationId,
    word: &str,
    other: &str,
    third: &str,
    run: Option<u128>,
    hash: Option<String>,
    detail: Option<JsonValue>,
    msg_id: i64,
    private: bool,
    content: Option<Vec<u8>>,
    len: i32,
    file: bool,
    created: i64,
    now: i64,
    a: AuditLogRow,
    g: GateDecisionRow,
    m: MessageLogRow,
)
    requires
        call_ensures(AuditLogRow::new, (word, other, Some(conv), run, hash, detail, now), a),
        call_ensures(GateDecisionRow::new, (conv, word, other, third, detail, now), g),
        call_ensures(
            MessageLogRow::new,
            (msg_id, conv, word, other, private, content, len, file, created, now),
            m,
        ),
    ensures
        a.id == 0 && a.at == now && a.actor@ == word@ && a.action@ == other@,
        a.conversation_id == Some(conv) && a.run_id == run && a.payload_hash == hash,
        a.meta == detail,
        g.id == 0 && g.conversation_id == conv && g.gate@ == word@ && g.rule@ == other@,
        g.decision@ == third@ && g.detail == detail && g.created_at == now,
        m.id == 0 && m.chatwoot_msg_id == msg_id && m.conversation_id == conv,
        m.direction@ == word@ && m.sender_kind@ == other@ && m.is_private == private,
        m.content_enc == content && m.content_len == len && m.has_attachment == file,
        m.created_at == created && m.ingested_at == now,
{
}

/// The table gives a new row its id, and what has not happened yet is left open.
pub proof fn law_new_rows_have_no_id(
    word: &str,
    conv: ConversationId,
    payload: JsonValue,
    due: i64,
    now: i64,
    contact: ContactId,
    c: OutboundMessageRow,
    d: SlaTimerRow,
    e: ContactLinkRow,
)
    requires
        call_ensures(OutboundMessageRow::new, (word, None, conv, payload, now), c),
        call_ensures(SlaTimerRow::new, (conv, word, due, now), d),
        call_ensures(ContactLinkRow::new, (contact,), e),
    ensures
        c.id == 0 && c.run_id is None && c.last_error is None,
        d.id == 0 && d.created_at == now,
        e.erp_client_id is None && e.verified_at is None,
        e.attributes@ == Json::Object(Seq::empty()),
{
}

} // verus!
