//! What the worker knows of a conversation.
use crate::error::{agent_error_text, AgentError};
use crate::ids::ConversationId;
use crate::state_machine::{state_name, AiState};
use crate::text;
use crate::text::{ascii_lowered, trimmed};
use vstd::prelude::*;

verus! {

/// Errors of the worker. Errors of a store or of the network come as text.
#[derive(Debug)]
pub enum WorkerError {
    Redis(String),
    RedisPool(String),
    Pg(String),
    Serde(String),
    Chatwoot(String),
    Agent(AgentError),
    State(String),
    Blocked { rule: String, reason: String },
    LockContention,
    EmptyTurn,
    Io(String),
}

impl WorkerError {
    /// The display form.
    pub fn to_string(&self) -> (r: String)
        ensures
            r@ == (match *self {
                WorkerError::Redis(m) => "redis: "@ + m@,
                WorkerError::RedisPool(m) => "redis pool: "@ + m@,
                WorkerError::Pg(m) => "postgres: "@ + m@,
                WorkerError::Serde(m) => "serde: "@ + m@,
                WorkerError::Chatwoot(m) => "chatwoot: "@ + m@,
                WorkerError::Agent(e) => "agent: "@ + agent_error_text(e),
                WorkerError::State(m) => "state transition: "@ + m@,
                WorkerError::Blocked { rule, reason } => "gate blocked: "@ + rule@ + " — "@
                    + reason@,
                WorkerError::LockContention => "lock contention"@,
                WorkerError::EmptyTurn => "empty turn"@,
                WorkerError::Io(m) => "io: "@ + m@,
            }),
    {
        match self {
            WorkerError::Redis(m) => "redis: ".to_string().concat(m.as_str()),
            WorkerError::RedisPool(m) => "redis pool: ".to_string().concat(m.as_str()),
            WorkerError::Pg(m) => "postgres: ".to_string().concat(m.as_str()),
            WorkerError::Serde(m) => "serde: ".to_string().concat(m.as_str()),
            WorkerError::Chatwoot(m) => "chatwoot: ".to_string().concat(m.as_str()),
            WorkerError::Agent(e) => "agent: ".to_string().concat(e.to_string().as_str()),
            WorkerError::State(m) => "state transition: ".to_string().concat(m.as_str()),
            WorkerError::Blocked { rule, reason } => {
                let mut r = "gate blocked: ".to_string();
                r.append(rule.as_str());
                r.append(" — ");
                r.append(reason.as_str());
                r
            },
            WorkerError::LockContention => "lock contention".to_string(),
            WorkerError::EmptyTurn => "empty turn".to_string(),
            WorkerError::Io(m) => "io: ".to_string().concat(m.as_str()),
        }
    }
}

/// The part of the table `conversation_state` that the worker reads.
#[derive(Debug, Clone)]
pub struct ConversationState {
    pub conversation_id: ConversationId,
    pub account_id: i64,
    pub inbox_id: i64,
    pub contact_id: i64,
    pub channel: String,
    pub ai_state: AiState,
    pub chatwoot_status: String,
    pub assignee_id: Option<i64>,
    pub team_id: Option<i64>,
    pub labels: Vec<String>,
    pub provider_session_id: Option<String>,
    pub prior_ai_turns_in_row: u16,
    pub last_ai_msg_hash: Option<String>,
    /// Microseconds since the Unix epoch.
    pub paused_until: Option<i64>,
    pub pause_reason: Option<String>,
}

impl Default for ConversationState {
    fn default() -> (r: Self)
        ensures
            r.conversation_id == 0,
            r.account_id == 0,
            r.inbox_id == 0,
            r.contact_id == 0,
            r.channel@ == ""@,
            r.ai_state is AiActive,
            r.chatwoot_status@ == ""@,
            r.assignee_id is None,
            r.team_id is None,
            r.labels@.len() == 0,
            r.provider_session_id is None,
            r.prior_ai_turns_in_row == 0,
            r.last_ai_msg_hash is None,
            r.paused_until is None,
            r.pause_reason is None,
    {
        ConversationState {
            conversation_id: 0,
            account_id: 0,
            inbox_id: 0,
            contact_id: 0,
            channel: "".to_string(),
            ai_state: AiState::AiActive,
            chatwoot_status: "".to_string(),
            assignee_id: None,
            team_id: None,
            labels: Vec::new(),
            provider_session_id: None,
            prior_ai_turns_in_row: 0,
            last_ai_msg_hash: None,
            paused_until: None,
            pause_reason: None,
        }
    }
}

impl ConversationState {
    /// `true` where the AI is paused, by hand or by a limiter.
    pub fn is_ai_paused(&self) -> (r: bool)
        ensures
            r == (self.ai_state is AiPausedManual || self.ai_state is AiPausedLimit),
    {
        self.ai_state.is_paused()
    }
}

/// The columns of a row of `conversation_state`; `None` where a column could
/// not be read.
#[derive(Debug, Clone)]
pub struct StateColumns {
    pub conversation_id: Option<i64>,
    pub account_id: Option<i64>,
    pub inbox_id: Option<i64>,
    pub contact_id: Option<i64>,
    pub channel: Option<String>,
    pub ai_state: Option<String>,
    pub chatwoot_status: Option<String>,
    pub assignee_id: Option<i64>,
    pub team_id: Option<i64>,
    pub labels: Option<Vec<String>>,
    pub provider_session_id: Option<String>,
    pub prior_ai_turns_in_row: Option<i16>,
    pub last_ai_msg_hash: Option<String>,
    pub paused_until: Option<i64>,
    pub pause_reason: Option<String>,
}

/// The state that a stored text stands for: the name of a state up to white
/// space around it and ASCII case; `ai_active` for anything else.
pub open spec fn stored_state(s: Seq<char>) -> AiState {
    let t = ascii_lowered(trimmed(s));
    if t == "ai_thinking"@ {
        AiState::AiThinking
    } else if t == "awaiting_human"@ {
        AiState::AwaitingHuman
    } else if t == "human_handling"@ {
        AiState::HumanHandling
    } else if t == "ai_paused_manual"@ {
        AiState::AiPausedManual
    } else if t == "ai_paused_limit"@ {
        AiState::AiPausedLimit
    } else if t == "closed"@ {
        AiState::Closed
    } else {
        AiState::AiActive
    }
}

/// The state that a stored text stands for.
pub fn parse_ai_state(s: &str) -> (r: AiState)
    ensures
        r == stored_state(s@),
{
    let t = text::lower_ascii(text::trim(s).as_str());
    let w = t.as_str();
    if text::same(w, "ai_thinking") {
        AiState::AiThinking
    } else if text::same(w, "awaiting_human") {
        AiState::AwaitingHuman
    } else if text::same(w, "human_handling") {
        AiState::HumanHandling
    } else if text::same(w, "ai_paused_manual") {
        AiState::AiPausedManual
    } else if text::same(w, "ai_paused_limit") {
        AiState::AiPausedLimit
    } else if text::same(w, "closed") {
        AiState::Closed
    } else {
        AiState::AiActive
    }
}

fn or_zero(o: Option<i64>) -> (r: i64)
    ensures
        r == (match o {
            Some(n) => n,
            None => 0,
        }),
{
    match o {
        Some(n) => n,
        None => 0,
    }
}

fn or_empty(o: Option<String>) -> (r: String)
    ensures
        r@ == (match o {
            Some(s) => s@,
            None => ""@,
        }),
{
    match o {
        Some(s) => s,
        None => "".to_string(),
    }
}

/// Whether a state is the one that the columns of a row say. A column that could
/// not be read takes its neutral value.
pub open spec fn state_of(r: ConversationState, conv_id: ConversationId, c: StateColumns) -> bool {
    &&& r.conversation_id == (match c.conversation_id {
        Some(n) => n,
        None => conv_id,
    })
    &&& r.account_id == (match c.account_id {
        Some(n) => n,
        None => 0,
    })
    &&& r.inbox_id == (match c.inbox_id {
        Some(n) => n,
        None => 0,
    })
    &&& r.contact_id == (match c.contact_id {
        Some(n) => n,
        None => 0,
    })
    &&& r.channel@ == (match c.channel {
        Some(s) => s@,
        None => ""@,
    })
    &&& r.ai_state == (match c.ai_state {
        Some(s) => stored_state(s@),
        None => AiState::AiActive,
    })
    &&& r.chatwoot_status@ == (match c.chatwoot_status {
        Some(s) => s@,
        None => ""@,
    })
    &&& r.assignee_id == c.assignee_id
    &&& r.team_id == c.team_id
    &&& r.labels@ == (match c.labels {
        Some(v) => v@,
        None => Seq::<String>::empty(),
    })
    &&& r.provider_session_id == c.provider_session_id
    &&& r.prior_ai_turns_in_row == (match c.prior_ai_turns_in_row {
        Some(n) => if n < 0 {
            0int
        } else {
            n as int
        },
        None => 0int,
    })
    &&& r.last_ai_msg_hash == c.last_ai_msg_hash
    &&& r.paused_until == c.paused_until
    &&& r.pause_reason == c.pause_reason
}

/// The state of conversation `conv_id` from the columns of its row. A column
/// that could not be read takes its neutral value.
pub fn conversation_state_of(conv_id: ConversationId, c: StateColumns) -> (r: ConversationState)
    ensures
        state_of(r, conv_id, c),
{
    let ai_state = match c.ai_state {
        Some(s) => parse_ai_state(s.as_str()),
        None => AiState::AiActive,
    };
    let prior: u16 = match c.prior_ai_turns_in_row {
        Some(n) => if n < 0 {
            0
        } else {
            n as u16
        },
        None => 0,
    };
    ConversationState {
        conversation_id: match c.conversation_id {
            Some(n) => n,
            None => conv_id,
        },
        account_id: or_zero(c.account_id),
        inbox_id: or_zero(c.inbox_id),
        contact_id: or_zero(c.contact_id),
        channel: or_empty(c.channel),
        ai_state,
        chatwoot_status: or_empty(c.chatwoot_status),
        assignee_id: c.assignee_id,
        team_id: c.team_id,
        labels: match c.labels {
            Some(v) => v,
            None => Vec::new(),
        },
        provider_session_id: c.provider_session_id,
        prior_ai_turns_in_row: prior,
        last_ai_msg_hash: c.last_ai_msg_hash,
        paused_until: c.paused_until,
        pause_reason: c.pause_reason,
    }
}

/// A state that was written under its name is read back as it was.
pub proof fn law_stored_state_round_trip(s: AiState)
    ensures
        stored_state(state_name(s)) == s,
{
    reveal_strlit("ai_active");
    reveal_strlit("ai_thinking");
    reveal_strlit("awaiting_human");
    reveal_strlit("human_handling");
    reveal_strlit("ai_paused_manual");
    reveal_strlit("ai_paused_limit");
    reveal_strlit("closed");
    let n = state_name(s);
    assert(n.len() > 0 && !text::white(n[0]) && !text::white(n.last()));
    assert(trimmed(n) == n);
    assert(forall|i: int| 0 <= i < n.len() ==> text::ascii_lower(#[trigger] n[i]) == n[i]);
    assert(ascii_lowered(n) =~= n);
    assert("ai_thinking"@.len() == 11);
    assert("ai_active"@.len() == 9);
    assert("awaiting_human"@.len() == 14 && "awaiting_human"@[0] == 'a');
    assert("human_handling"@.len() == 14 && "human_handling"@[0] == 'h');
    assert("ai_paused_manual"@.len() == 16);
    assert("ai_paused_limit"@.len() == 15);
    assert("closed"@.len() == 6);
}

/// What stands in the row of a conversation is what the worker knows of it:
/// nothing is taken from another column. A number of turns below zero counts as
/// none.
pub proof fn law_every_column_is_known(
    conv_id: ConversationId,
    c: StateColumns,
    r: ConversationState,
)
    requires
        call_ensures(conversation_state_of, (conv_id, c), r),
    ensures
        c.conversation_id matches Some(n) ==> r.conversation_id == n,
        c.conversation_id is None ==> r.conversation_id == conv_id,
        c.account_id matches Some(n) ==> r.account_id == n,
        c.inbox_id matches Some(n) ==> r.inbox_id == n,
        c.contact_id matches Some(n) ==> r.contact_id == n,
        c.channel matches Some(s) ==> r.channel@ == s@,
        c.chatwoot_status matches Some(s) ==> r.chatwoot_status@ == s@,
        c.labels matches Some(v) ==> r.labels@ == v@,
        c.labels is None ==> r.labels@.len() == 0,
        r.assignee_id == c.assignee_id,
        r.team_id == c.team_id,
        r.provider_session_id == c.provider_session_id,
        r.last_ai_msg_hash == c.last_ai_msg_hash,
        r.paused_until == c.paused_until,
        r.pause_reason == c.pause_reason,
        c.prior_ai_turns_in_row matches Some(n) ==> (n >= 0 ==> r.prior_ai_turns_in_row == n) && (n
            < 0 ==> r.prior_ai_turns_in_row == 0),
        c.ai_state is None ==> r.ai_state is AiActive,
        forall|s: AiState|
            (c.ai_state matches Some(t) && t@ == #[trigger] state_name(s)) ==> r.ai_state == s,
{
    assert forall|s: AiState|
        (c.ai_state matches Some(t) && t@ == #[trigger] state_name(s)) implies r.ai_state == s by {
        law_stored_state_round_trip(s);
    }
}

/// A state is read whatever its case and the white space around it, and a text
/// that names none means that the AI is active.
pub proof fn law_stored_names_are_read(s: &str, r: AiState)
    requires
        call_ensures(parse_ai_state, (s,), r),
    ensures
        !(r is AiActive) ==> ascii_lowered(trimmed(s@)) == state_name(r),
        ascii_lowered(trimmed(s@)) == "closed"@ ==> r is Closed,
        ascii_lowered(trimmed(s@)) == "human_handling"@ ==> r is HumanHandling,
        ascii_lowered(trimmed(s@)) == "awaiting_human"@ ==> r is AwaitingHuman,
        ascii_lowered(trimmed(s@)) == "ai_paused_manual"@ ==> r is AiPausedManual,
        ascii_lowered(trimmed(s@)) == "ai_paused_limit"@ ==> r is AiPausedLimit,
        ascii_lowered(trimmed(s@)) == "ai_thinking"@ ==> r is AiThinking,
{
    reveal_strlit("ai_thinking");
    reveal_strlit("awaiting_human");
    reveal_strlit("human_handling");
    reveal_strlit("ai_paused_manual");
    reveal_strlit("ai_paused_limit");
    reveal_strlit("closed");
    assert("ai_thinking"@.len() == 11);
    assert("awaiting_human"@.len() == 14 && "awaiting_human"@[0] == 'a');
    assert("human_handling"@.len() == 14 && "human_handling"@[0] == 'h');
    assert("ai_paused_manual"@.len() == 16);
    assert("ai_paused_limit"@.len() == 15);
    assert("closed"@.len() == 6);
}

/// Each error of the worker is shown by where it comes from, with its cause.
pub proof fn law_worker_errors_are_shown_by_kind(e: WorkerError, r: String)
    requires
        call_ensures(WorkerError::to_string, (&e,), r),
    ensures
        e matches WorkerError::Redis(m) ==> r@ == "redis: "@ + m@,
        e matches WorkerError::RedisPool(m) ==> r@ == "redis pool: "@ + m@,
        e matches WorkerError::Pg(m) ==> r@ == "postgres: "@ + m@,
        e matches WorkerError::Serde(m) ==> r@ == "serde: "@ + m@,
        e matches WorkerError::Chatwoot(m) ==> r@ == "chatwoot: "@ + m@,
        e matches WorkerError::Agent(a) ==> r@ == "agent: "@ + agent_error_text(a),
        e matches WorkerError::State(m) ==> r@ == "state transition: "@ + m@,
        e matches WorkerError::Blocked { rule, reason } ==> r@ == "gate blocked: "@ + rule@
            + " — "@ + reason@,
        e is LockContention ==> r@ == "lock contention"@,
        e is EmptyTurn ==> r@ == "empty turn"@,
        e matches WorkerError::Io(m) ==> r@ == "io: "@ + m@,
{
}

/// A conversation that nothing is known of belongs to the AI, has no attendant
/// and no labels; the AI counts as paused by hand and by a limit alike.
pub proof fn law_an_unknown_conversation_is_the_ais(
    fresh: ConversationState,
    c: ConversationState,
    paused: bool,
)
    requires
        call_ensures(ConversationState::default, (), fresh),
        call_ensures(ConversationState::is_ai_paused, (&c,), paused),
    ensures
        fresh.ai_state is AiActive && fresh.labels@.len() == 0 && fresh.assignee_id is None,
        fresh.prior_ai_turns_in_row == 0 && fresh.paused_until is None,
        fresh.conversation_id == 0 && fresh.account_id == 0 && fresh.inbox_id == 0,
        fresh.contact_id == 0 && fresh.channel@.len() == 0 && fresh.chatwoot_status@.len() == 0,
        fresh.team_id is None && fresh.provider_session_id is None,
        fresh.last_ai_msg_hash is None && fresh.pause_reason is None,
        paused <==> c.ai_state is AiPausedManual || c.ai_state is AiPausedLimit,
{
    reveal_strlit("");
}

/// A column that could not be read takes its neutral value.
pub proof fn law_unread_columns_are_neutral(
    conv_id: ConversationId,
    c: StateColumns,
    r: ConversationState,
)
    requires
        call_ensures(conversation_state_of, (conv_id, c), r),
    ensures
        c.account_id is None ==> r.account_id == 0,
        c.inbox_id is None ==> r.inbox_id == 0,
        c.contact_id is None ==> r.contact_id == 0,
        c.channel is None ==> r.channel@.len() == 0,
        c.chatwoot_status is None ==> r.chatwoot_status@.len() == 0,
        c.prior_ai_turns_in_row is None ==> r.prior_ai_turns_in_row == 0,
{
    reveal_strlit("");
}

} // verus!
