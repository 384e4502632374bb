//! A bridge between a Chatwoot help desk and AI agents: domain rules, gates,
//! state machine, webhook intake, SLA escalation and the turn pipeline.
//!
//! The library holds the decisions; the program around it does the I/O and
//! hands plain values in and out.
use vstd::prelude::*;

pub mod agent;
pub mod api;
pub mod chatwoot;
pub mod config;
pub mod duration;
pub mod error;
pub mod http;
pub mod ids;
pub mod json;
pub mod metrics;
pub mod model;
pub mod notify;
pub mod pattern;
pub mod ratelimit;
pub mod registry;
pub mod scheduler;
pub mod secrets;
pub mod similarity;
pub mod state_machine;
pub mod store;
pub mod text;
pub mod timestamp;
pub mod weburl;
pub mod worker;

pub use config::{
    AgentConfig, BufferConfig, ChatwootConfig, Config, InfraConfig, NotificationConfig, RawConfig,
};
pub use error::{AgentError, ChatwootError, CoreError, StateError};
pub use ids::{AccountId, ContactId, ConversationId, InboxId, RunId};
pub use model::agent::{
    Action, ActionKind, AgentRequest, AgentResponse, Attachment, HandoffInfo, InboundMessage,
    Reply, Usage,
};
pub use model::context::{
    AgentSummary, BusinessHoursState, ClientSummary, ContactSummary, ConversationContext,
    HistoryItem,
};
pub use ratelimit::RateLimits;
pub use secrets::SecretString;
pub use state_machine::{AiState, StateEvent};

verus! {

/// Labels that take a conversation away from the AI.
pub const AI_BLOCK_LABELS: [&'static str; 3] = ["ia:off", "humano", "juridico"];

pub const AI_SILENT_LABEL: &'static str = "ia:silencio";

pub const AI_LIMITED_LABEL: &'static str = "ia:limitado";

pub const AI_FAILURE_LABEL: &'static str = "ia:falha";

pub const SLA_VIOLATED_LABEL: &'static str = "sla:violado";

pub const DEBOUNCE_ZSET: &'static str = "debounce:zset";

pub const QUEUE_AGENT_RUNS: &'static str = "queue:agent_runs";

/// A label blocks the AI where it is one of the block labels, up to ASCII case.
pub open spec fn block_label(label: Seq<char>) -> bool {
    ||| text::same_ascii_case_folded("ia:off"@, label)
    ||| text::same_ascii_case_folded("humano"@, label)
    ||| text::same_ascii_case_folded("juridico"@, label)
}

/// `true` where the label blocks the AI (ASCII case does not matter).
pub fn is_block_label(label: &str) -> (r: bool)
    ensures
        r == block_label(label@),
{
    text::eq_ignore_case(AI_BLOCK_LABELS[0], label) || text::eq_ignore_case(
        AI_BLOCK_LABELS[1],
        label,
    ) || text::eq_ignore_case(AI_BLOCK_LABELS[2], label)
}

/// Whether a label is in the list, up to ASCII case.
pub open spec fn same_label_in(labels: Seq<Seq<char>>, label: Seq<char>) -> bool {
    exists|i: int| 0 <= i < labels.len() && text::same_ascii_case_folded(#[trigger] labels[i], label)
}

/// Whether a label is in the list (ASCII case does not matter).
pub fn has_label(labels: &Vec<String>, label: &str) -> (r: bool)
    ensures
        r == same_label_in(text::texts(labels@), label@),
{
    let mut i: usize = 0;
    while i < labels.len()
        invariant
            i <= labels@.len(),
            forall|k: int|
                0 <= k < i ==> !text::same_ascii_case_folded(
                    #[trigger] text::texts(labels@)[k],
                    label@,
                ),
        decreases labels@.len() - i,
    {
        assert(text::texts(labels@)[i as int] == labels@[i as int]@);
        if text::eq_ignore_case(labels[i].as_str(), label) {
            return true;
        }
        i += 1;
    }
    false
}

/// `cw:{account}:{conversation}`.
pub open spec fn session_text(account: int, conversation: int) -> Seq<char> {
    "cw:"@ + text::int_text(account) + ":"@ + text::int_text(conversation)
}

/// `lock:conv:{conversation}`.
pub open spec fn lock_text(conversation: int) -> Seq<char> {
    "lock:conv:"@ + text::int_text(conversation)
}

/// `seen:msg:{account}:{msg_id}`.
pub open spec fn dedup_text(account: int, msg_id: int) -> Seq<char> {
    "seen:msg:"@ + text::int_text(account) + ":"@ + text::int_text(msg_id)
}

/// `buf:{conversation}`.
pub open spec fn buffer_text(conversation: int) -> Seq<char> {
    "buf:"@ + text::int_text(conversation)
}

/// Key of the agent session of a conversation: `cw:{account}:{conversation}`.
pub fn session_key(account: AccountId, conversation: ConversationId) -> (r: String)
    ensures
        r@ == session_text(account as int, conversation as int),
{
    let mut r = "cw:".to_string();
    r.append(text::i64_text(account).as_str());
    r.append(":");
    r.append(text::i64_text(conversation).as_str());
    r
}

/// Key of the lock of a conversation: `lock:conv:{conversation}`.
pub fn lock_key(conversation: ConversationId) -> (r: String)
    ensures
        r@ == lock_text(conversation as int),
{
    let mut r = "lock:conv:".to_string();
    r.append(text::i64_text(conversation).as_str());
    r
}

/// Key under which a message is remembered: `seen:msg:{account}:{msg_id}`.
pub fn dedup_key(account: AccountId, msg_id: i64) -> (r: String)
    ensures
        r@ == dedup_text(account as int, msg_id as int),
{
    let mut r = "seen:msg:".to_string();
    r.append(text::i64_text(account).as_str());
    r.append(":");
    r.append(text::i64_text(msg_id).as_str());
    r
}

/// Key of the message buffer of a conversation: `buf:{conversation}`.
pub fn buffer_key(conversation: ConversationId) -> (r: String)
    ensures
        r@ == buffer_text(conversation as int),
{
    let mut r = "buf:".to_string();
    r.append(text::i64_text(conversation).as_str());
    r
}

/// Two conversations share no lock, no buffer and no session, and two messages
/// share no mark.
pub proof fn law_keys_are_told_apart(a: int, b: int, c: int, d: int)
    ensures
        lock_text(a) == lock_text(c) ==> a == c,
        buffer_text(a) == buffer_text(c) ==> a == c,
        session_text(a, b) == session_text(c, d) ==> a == c && b == d,
        dedup_text(a, b) == dedup_text(c, d) ==> a == c && b == d,
{
    reveal_strlit(":");
    assert(":"@ =~= seq![':']);
    if lock_text(a) == lock_text(c) {
        lemma_same_tail("lock:conv:"@, text::int_text(a), text::int_text(c));
        text::law_numbers_are_told_apart(a, c);
    }
    if buffer_text(a) == buffer_text(c) {
        lemma_same_tail("buf:"@, text::int_text(a), text::int_text(c));
        text::law_numbers_are_told_apart(a, c);
    }
    let x = text::int_text(a) + ":"@ + text::int_text(b);
    let y = text::int_text(c) + ":"@ + text::int_text(d);
    if session_text(a, b) == session_text(c, d) {
        assert("cw:"@ + x =~= session_text(a, b));
        assert("cw:"@ + y =~= session_text(c, d));
        lemma_same_tail("cw:"@, x, y);
        text::lemma_pairs_are_told_apart(a, b, c, d);
    }
    if dedup_text(a, b) == dedup_text(c, d) {
        assert("seen:msg:"@ + x =~= dedup_text(a, b));
        assert("seen:msg:"@ + y =~= dedup_text(c, d));
        lemma_same_tail("seen:msg:"@, x, y);
        text::lemma_pairs_are_told_apart(a, b, c, d);
    }
}

proof fn lemma_same_tail(head: Seq<char>, a: Seq<char>, b: Seq<char>)
    requires
        head + a == head + b,
    ensures
        a == b,
{
    assert(a =~= (head + a).skip(head.len() as int));
    assert(b =~= (head + b).skip(head.len() as int));
}

/// A lock, a buffer, a session and a mark never share a key.
pub proof fn law_keys_of_different_uses_differ(a: int, b: int, c: int, d: int)
    ensures
        lock_text(a) != buffer_text(b),
        lock_text(a) != session_text(c, d),
        lock_text(a) != dedup_text(c, d),
        buffer_text(a) != session_text(c, d),
        buffer_text(a) != dedup_text(c, d),
        session_text(a, b) != dedup_text(c, d),
{
    reveal_strlit("lock:conv:");
    reveal_strlit("buf:");
    reveal_strlit("cw:");
    reveal_strlit("seen:msg:");
    assert(lock_text(a)[0] == 'l');
    assert(buffer_text(a)[0] == 'b' && buffer_text(b)[0] == 'b');
    assert(session_text(a, b)[0] == 'c' && session_text(c, d)[0] == 'c');
    assert(dedup_text(c, d)[0] == 's');
}

/// Three labels take a conversation away from the AI, whatever the case of their
/// letters, and no other label does.
pub proof fn law_which_labels_block(label: &str, r: bool)
    requires
        call_ensures(is_block_label, (label,), r),
    ensures
        r <==> (text::ascii_lowered(label@) == "ia:off"@ || text::ascii_lowered(label@)
            == "humano"@ || text::ascii_lowered(label@) == "juridico"@),
{
    reveal_strlit("ia:off");
    reveal_strlit("humano");
    reveal_strlit("juridico");
    assert(text::ascii_lowered("ia:off"@) =~= "ia:off"@);
    assert(text::ascii_lowered("humano"@) =~= "humano"@);
    assert(text::ascii_lowered("juridico"@) =~= "juridico"@);
}

/// A label is found wherever it stands in the list, whatever the case of its
/// letters, and only there.
pub proof fn law_labels_are_found(labels: Vec<String>, label: &str, r: bool)
    requires
        call_ensures(has_label, (&labels, label), r),
    ensures
        r <==> exists|i: int|
            0 <= i < labels@.len() && text::ascii_lowered((#[trigger] labels@[i])@)
                == text::ascii_lowered(label@),
{
    let v = text::texts(labels@);
    if r {
        let i = choose|i: int|
            0 <= i < v.len() && text::same_ascii_case_folded(#[trigger] v[i], label@);
        assert(labels@[i]@ == v[i]);
    }
    if exists|i: int|
        0 <= i < labels@.len() && text::ascii_lowered((#[trigger] labels@[i])@)
            == text::ascii_lowered(label@) {
        let i = choose|i: int|
            0 <= i < labels@.len() && text::ascii_lowered((#[trigger] labels@[i])@)
                == text::ascii_lowered(label@);
        assert(v[i] == labels@[i]@);
        assert(text::same_ascii_case_folded(v[i], label@));
    }
}

/// The keys in their written form.
pub proof fn law_keys_as_written(
    account: AccountId,
    conversation: ConversationId,
    msg_id: i64,
    session: String,
    lock: String,
    mark: String,
    buffer: String,
)
    requires
        call_ensures(session_key, (account, conversation), session),
        call_ensures(lock_key, (conversation,), lock),
        call_ensures(dedup_key, (account, msg_id), mark),
        call_ensures(buffer_key, (conversation,), buffer),
    ensures
        session@ == "cw:"@ + text::int_text(account as int) + ":"@ + text::int_text(
            conversation as int,
        ),
        lock@ == "lock:conv:"@ + text::int_text(conversation as int),
        mark@ == "seen:msg:"@ + text::int_text(account as int) + ":"@ + text::int_text(
            msg_id as int,
        ),
        buffer@ == "buf:"@ + text::int_text(conversation as int),
{
}

} // verus!
