//! Payloads of the agent bot's webhook.
use crate::json::JsonValue;
use crate::text;
use crate::text::opt_text;
use vstd::prelude::*;

verus! {

/// Who speaks.
#[derive(Debug, Clone, Copy, PartialEq, Eq, Structural)]
pub enum SenderKind {
    /// A contact: the message is taken up.
    Contact,
    /// An attendant: the AI pauses.
    User,
    /// The AI itself: an echo, dropped.
    AgentBot,
    /// Anything else.
    System,
}

impl SenderKind {
    /// `true` only for a message that goes into the buffer.
    pub fn is_contact(self) -> (r: bool)
        ensures
            r == (self is Contact),
    {
        matches!(self, SenderKind::Contact)
    }

    /// `true` for an echo of the AI.
    pub fn is_agent_bot(self) -> (r: bool)
        ensures
            r == (self is AgentBot),
    {
        matches!(self, SenderKind::AgentBot)
    }
}

#[derive(Debug, Clone)]
pub struct SenderInfo {
    pub id: i64,
    pub name: Option<String>,
    /// The field `type` of the payload.
    pub kind: Option<String>,
}

impl Default for SenderInfo {
    fn default() -> (r: Self)
        ensures
            r.id == 0,
            r.name is None,
            r.kind is None,
    {
        SenderInfo { id: 0, name: None, kind: None }
    }
}

#[derive(Debug, Clone)]
pub struct AgentInfo {
    pub id: i64,
    pub name: Option<String>,
    pub email: Option<String>,
}

impl Default for AgentInfo {
    fn default() -> (r: Self)
        ensures
            r.id == 0,
            r.name is None,
            r.email is None,
    {
        AgentInfo { id: 0, name: None, email: None }
    }
}

#[derive(Debug, Clone)]
pub struct TeamInfo {
    pub id: i64,
    pub name: Option<String>,
}

impl Default for TeamInfo {
    fn default() -> (r: Self)
        ensures
            r.id == 0,
            r.name is None,
    {
        TeamInfo { id: 0, name: None }
    }
}

#[derive(Debug, Clone)]
pub struct AccountInfo {
    pub id: i64,
    pub name: Option<String>,
}

impl Default for AccountInfo {
    fn default() -> (r: Self)
        ensures
            r.id == 0,
            r.name is None,
    {
        AccountInfo { id: 0, name: None }
    }
}

#[derive(Debug, Clone)]
pub struct InboxInfo {
    pub id: i64,
    pub name: Option<String>,
}

impl Default for InboxInfo {
    fn default() -> (r: Self)
        ensures
            r.id == 0,
            r.name is None,
    {
        InboxInfo { id: 0, name: None }
    }
}

#[derive(Debug, Clone)]
pub struct ConversationMeta {
    pub assignee: Option<AgentInfo>,
    pub team: Option<TeamInfo>,
    pub sender: Option<SenderInfo>,
}

impl Default for ConversationMeta {
    fn default() -> (r: Self)
        ensures
            r.assignee is None,
            r.team is None,
            r.sender is None,
    {
        ConversationMeta { assignee: None, team: None, sender: None }
    }
}

#[derive(Debug, Clone)]
pub struct ConversationSummary {
    pub id: i64,
    pub status: Option<String>,
    pub inbox_id: Option<i64>,
    pub channel: Option<String>,
    pub labels: Option<Vec<String>>,
    pub meta: Option<ConversationMeta>,
    pub custom_attributes: Option<JsonValue>,
}

impl Default for ConversationSummary {
    fn default() -> (r: Self)
        ensures
            r.id == 0,
            r.status is None,
            r.inbox_id is None,
            r.channel is None,
            r.labels is None,
            r.meta is None,
            r.custom_attributes is None,
    {
        ConversationSummary {
            id: 0,
            status: None,
            inbox_id: None,
            channel: None,
            labels: None,
            meta: None,
            custom_attributes: None,
        }
    }
}

/// What the agent bot's webhook sends. Every field may be absent.
#[derive(Debug, Clone)]
pub struct AgentBotWebhookPayload {
    pub event: String,
    pub id: Option<i64>,
    pub content: Option<String>,
    pub message_type: Option<String>,
    pub private: Option<bool>,
    pub conversation: Option<ConversationSummary>,
    pub sender: Option<SenderInfo>,
    pub account: Option<AccountInfo>,
    pub inbox: Option<InboxInfo>,
    pub created_at: Option<String>,
}

impl Default for AgentBotWebhookPayload {
    fn default() -> (r: Self)
        ensures
            r.event@ == ""@,
            r.id is None,
            r.content is None,
            r.message_type is None,
            r.private is None,
            r.conversation is None,
            r.sender is None,
            r.account is None,
            r.inbox is None,
            r.created_at is None,
    {
        AgentBotWebhookPayload {
            event: "".to_string(),
            id: None,
            content: None,
            message_type: None,
            private: None,
            conversation: None,
            sender: None,
            account: None,
            inbox: None,
            created_at: None,
        }
    }
}

/// Who speaks, by the direction of the message and the type of its sender.
pub open spec fn speaker(message_type: Option<Seq<char>>, sender_type: Option<Seq<char>>) -> SenderKind {
    if message_type == Some("incoming"@) && sender_type == Some("contact"@) {
        SenderKind::Contact
    } else if message_type == Some("outgoing"@) && sender_type == Some("User"@) {
        SenderKind::User
    } else if message_type == Some("outgoing"@) && sender_type == Some("AgentBot"@) {
        SenderKind::AgentBot
    } else {
        SenderKind::System
    }
}

/// The type of the sender of a payload.
pub open spec fn sender_type(p: AgentBotWebhookPayload) -> Option<Seq<char>> {
    match p.sender {
        Some(s) => opt_text(s.kind),
        None => None,
    }
}

fn is_text(o: &Option<String>, s: &str) -> (r: bool)
    ensures
        r == (opt_text(*o) == Some(s@)),
{
    match o {
        Some(t) => text::same(t.as_str(), s),
        None => false,
    }
}

impl AgentBotWebhookPayload {
    /// Who speaks. Whether the message is private is another question.
    pub fn sender_kind(&self) -> (r: SenderKind)
        ensures
            r == speaker(opt_text(self.message_type), sender_type(*self)),
    {
        let incoming = is_text(&self.message_type, "incoming");
        let outgoing = is_text(&self.message_type, "outgoing");
        match &self.sender {
            Some(s) => if incoming && is_text(&s.kind, "contact") {
                SenderKind::Contact
            } else if outgoing && is_text(&s.kind, "User") {
                SenderKind::User
            } else if outgoing && is_text(&s.kind, "AgentBot") {
                SenderKind::AgentBot
            } else {
                SenderKind::System
            },
            None => SenderKind::System,
        }
    }

    /// `true` for an internal note.
    pub fn is_private_note(&self) -> (r: bool)
        ensures
            r == (self.private == Some(true)),
    {
        match self.private {
            Some(b) => b,
            None => false,
        }
    }
}

/// An entry of a list to choose from.
#[derive(Debug, Clone)]
pub struct SelectItem {
    pub title: String,
    pub value: String,
}

/// Whether a payload has this direction and this type of sender.
pub open spec fn said_by(p: AgentBotWebhookPayload, direction: Seq<char>, kind: Seq<char>) -> bool {
    &&& p.message_type matches Some(t) && t@ == direction
    &&& p.sender matches Some(s) && (s.kind matches Some(k) && k@ == kind)
}

/// Who speaks follows from direction and sender together: what comes in from a
/// contact is the contact's word, what goes out from a user an attendant's, what
/// goes out from a bot the AI's own; nothing else is anybody's word.
pub proof fn law_who_speaks(p: AgentBotWebhookPayload, r: SenderKind)
    requires
        call_ensures(AgentBotWebhookPayload::sender_kind, (&p,), r),
    ensures
        r is Contact <==> said_by(p, "incoming"@, "contact"@),
        r is User <==> said_by(p, "outgoing"@, "User"@),
        r is AgentBot <==> said_by(p, "outgoing"@, "AgentBot"@),
        p.sender is None ==> r is System,
{
    reveal_strlit("incoming");
    reveal_strlit("outgoing");
    reveal_strlit("contact");
    reveal_strlit("User");
    reveal_strlit("AgentBot");
    assert("incoming"@[0] == 'i' && "outgoing"@[0] == 'o');
    assert("contact"@.len() == 7 && "User"@.len() == 4 && "AgentBot"@.len() == 8);
}

/// What a payload leaves out is not made up: nothing is known of a sender, an
/// attendant, a team, an account, an inbox, a conversation or a message that says
/// nothing.
pub proof fn law_what_is_left_out_is_unknown(
    sender: SenderInfo,
    agent: AgentInfo,
    team: TeamInfo,
    account: AccountInfo,
    inbox: InboxInfo,
    meta: ConversationMeta,
    conv: ConversationSummary,
    p: AgentBotWebhookPayload,
)
    requires
        call_ensures(SenderInfo::default, (), sender),
        call_ensures(AgentInfo::default, (), agent),
        call_ensures(TeamInfo::default, (), team),
        call_ensures(AccountInfo::default, (), account),
        call_ensures(InboxInfo::default, (), inbox),
        call_ensures(ConversationMeta::default, (), meta),
        call_ensures(ConversationSummary::default, (), conv),
        call_ensures(AgentBotWebhookPayload::default, (), p),
    ensures
        sender.id == 0 && sender.name is None && sender.kind is None,
        agent.id == 0 && agent.name is None && agent.email is None,
        team.id == 0 && team.name is None,
        account.id == 0 && account.name is None,
        inbox.id == 0 && inbox.name is None,
        meta.assignee is None && meta.team is None && meta.sender is None,
        conv.id == 0 && conv.status is None && conv.inbox_id is None && conv.channel is None,
        conv.labels is None && conv.meta is None && conv.custom_attributes is None,
        p.event@.len() == 0 && p.id is None && p.content is None && p.message_type is None,
        p.private is None && p.conversation is None && p.sender is None && p.account is None,
        p.inbox is None && p.created_at is None,
{
    reveal_strlit("");
}

/// Contacts and the bot are told apart, and a note is what the payload marks as
/// one.
pub proof fn law_kinds_are_told_apart(
    k: SenderKind,
    p: AgentBotWebhookPayload,
    contact: bool,
    bot: bool,
    note: bool,
)
    requires
        call_ensures(SenderKind::is_contact, (k,), contact),
        call_ensures(SenderKind::is_agent_bot, (k,), bot),
        call_ensures(AgentBotWebhookPayload::is_private_note, (&p,), note),
    ensures
        contact <==> k is Contact,
        bot <==> k is AgentBot,
        !(contact && bot),
        note <==> p.private == Some(true),
{
}

} // verus!
