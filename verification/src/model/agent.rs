//! Requests to an agent and the structured answer it gives.
use crate::duration::milliseconds;
use crate::ids::{nibble, RunId};
use crate::json::{F64Bits, Json, JsonValue};
use crate::model::context::ConversationContext;
use crate::text;
use crate::text::{opt_text, texts};
use std::time::Duration;
use vstd::prelude::*;

verus! {

/// The closed set of actions that the AI can ask for.
#[derive(Debug, Clone, Copy, PartialEq, Eq, Hash, Structural)]
pub enum ActionKind {
    SendMessage,
    SendPrivateNote,
    AddLabels,
    RemoveLabels,
    SetCustomAttributes,
    AssignTeam,
    AssignAgent,
    SetPriority,
    SetStatus,
    Snooze,
    CallTool,
    CallAgent,
    RequestHandoff,
}

/// The name of an action.
pub open spec fn kind_name(k: ActionKind) -> Seq<char> {
    match k {
        ActionKind::SendMessage => "send_message"@,
        ActionKind::SendPrivateNote => "send_private_note"@,
        ActionKind::AddLabels => "add_labels"@,
        ActionKind::RemoveLabels => "remove_labels"@,
        ActionKind::SetCustomAttributes => "set_custom_attributes"@,
        ActionKind::AssignTeam => "assign_team"@,
        ActionKind::AssignAgent => "assign_agent"@,
        ActionKind::SetPriority => "set_priority"@,
        ActionKind::SetStatus => "set_status"@,
        ActionKind::Snooze => "snooze"@,
        ActionKind::CallTool => "call_tool"@,
        ActionKind::CallAgent => "call_agent"@,
        ActionKind::RequestHandoff => "request_handoff"@,
    }
}

impl ActionKind {
    pub fn as_str(&self) -> (r: &'static str)
        ensures
            r@ == kind_name(*self),
    {
        match self {
            ActionKind::SendMessage => "send_message",
            ActionKind::SendPrivateNote => "send_private_note",
            ActionKind::AddLabels => "add_labels",
            ActionKind::RemoveLabels => "remove_labels",
            ActionKind::SetCustomAttributes => "set_custom_attributes",
            ActionKind::AssignTeam => "assign_team",
            ActionKind::AssignAgent => "assign_agent",
            ActionKind::SetPriority => "set_priority",
            ActionKind::SetStatus => "set_status",
            ActionKind::Snooze => "snooze",
            ActionKind::CallTool => "call_tool",
            ActionKind::CallAgent => "call_agent",
            ActionKind::RequestHandoff => "request_handoff",
        }
    }

    /// The actions that a specialist agent may ask for.
    pub fn allowed_for_specialist(&self) -> (r: bool)
        ensures
            r == (self is AddLabels || self is RemoveLabels || self is SetCustomAttributes
                || self is CallTool),
    {
        matches!(
            self,
            ActionKind::AddLabels | ActionKind::RemoveLabels | ActionKind::SetCustomAttributes
                | ActionKind::CallTool
        )
    }

    /// The display form: the name.
    pub fn to_string(&self) -> (r: String)
        ensures
            r@ == kind_name(*self),
    {
        self.as_str().to_string()
    }

    /// The action that `s` names.
    pub fn parse(s: &str) -> (r: Result<ActionKind, String>)
        ensures
            match r {
                Ok(k) => kind_name(k) == s@,
                Err(e) => (forall|kind: ActionKind| #[trigger] kind_name(kind) != s@) && e@
                    == "unknown ActionKind: "@ + s@,
            },
    {
        if text::same(s, "send_message") {
            Ok(ActionKind::SendMessage)
        } else if text::same(s, "send_private_note") {
            Ok(ActionKind::SendPrivateNote)
        } else if text::same(s, "add_labels") {
            Ok(ActionKind::AddLabels)
        } else if text::same(s, "remove_labels") {
            Ok(ActionKind::RemoveLabels)
        } else if text::same(s, "set_custom_attributes") {
            Ok(ActionKind::SetCustomAttributes)
        } else if text::same(s, "assign_team") {
            Ok(ActionKind::AssignTeam)
        } else if text::same(s, "assign_agent") {
            Ok(ActionKind::AssignAgent)
        } else if text::same(s, "set_priority") {
            Ok(ActionKind::SetPriority)
        } else if text::same(s, "set_status") {
            Ok(ActionKind::SetStatus)
        } else if text::same(s, "snooze") {
            Ok(ActionKind::Snooze)
        } else if text::same(s, "call_tool") {
            Ok(ActionKind::CallTool)
        } else if text::same(s, "call_agent") {
            Ok(ActionKind::CallAgent)
        } else if text::same(s, "request_handoff") {
            Ok(ActionKind::RequestHandoff)
        } else {
            Err("unknown ActionKind: ".to_string().concat(s))
        }
    }
}

impl std::str::FromStr for ActionKind {
    type Err = String;

    fn from_str(s: &str) -> (r: Result<ActionKind, String>)
        ensures
            match r {
                Ok(k) => kind_name(k) == s@,
                Err(e) => (forall|kind: ActionKind| #[trigger] kind_name(kind) != s@) && e@
                    == "unknown ActionKind: "@ + s@,
            },
    {
        ActionKind::parse(s)
    }
}

/// No two actions share a name, so reading a name back gives the action.
pub proof fn law_action_names_are_distinct(a: ActionKind, b: ActionKind)
    requires
        kind_name(a) == kind_name(b),
    ensures
        a == b,
{
    reveal_strlit("send_message");
    reveal_strlit("send_private_note");
    reveal_strlit("add_labels");
    reveal_strlit("remove_labels");
    reveal_strlit("set_custom_attributes");
    reveal_strlit("assign_team");
    reveal_strlit("assign_agent");
    reveal_strlit("set_priority");
    reveal_strlit("set_status");
    reveal_strlit("snooze");
    reveal_strlit("call_tool");
    reveal_strlit("call_agent");
    reveal_strlit("request_handoff");
    assert("send_message"@.len() == 12 && "assign_agent"@.len() == 12 && "set_priority"@.len()
        == 12);
    assert("send_message"@[2] == 'n' && "assign_agent"@[2] == 's' && "set_priority"@[2] == 't');
    assert("add_labels"@.len() == 10 && "set_status"@.len() == 10 && "call_agent"@.len() == 10);
    assert("add_labels"@[0] == 'a' && "set_status"@[0] == 's' && "call_agent"@[0] == 'c');
    assert("send_private_note"@.len() == 17 && "remove_labels"@.len() == 13
        && "set_custom_attributes"@.len() == 21 && "assign_team"@.len() == 11 && "snooze"@.len()
        == 6 && "call_tool"@.len() == 9 && "request_handoff"@.len() == 15);
}

/// An action: each kind uses the fields that belong to it.
#[derive(Debug, Clone)]
pub struct Action {
    pub kind: ActionKind,
    pub labels: Vec<String>,
    pub attributes: JsonValue,
    pub team_id: Option<i64>,
    pub agent_id: Option<String>,
    pub priority: Option<String>,
    pub status: Option<String>,
    pub snoozed_until: Option<i64>,
    pub tool: Option<String>,
    pub arguments: JsonValue,
    pub target: Option<String>,
    pub task: Option<String>,
    pub payload: JsonValue,
    pub reason: Option<String>,
    pub depth: u8,
}

/// What an action says, field by field.
pub struct ActionV {
    pub kind: ActionKind,
    pub labels: Seq<Seq<char>>,
    pub attributes: Json,
    pub team_id: Option<i64>,
    pub agent_id: Option<Seq<char>>,
    pub priority: Option<Seq<char>>,
    pub status: Option<Seq<char>>,
    pub snoozed_until: Option<i64>,
    pub tool: Option<Seq<char>>,
    pub arguments: Json,
    pub target: Option<Seq<char>>,
    pub task: Option<Seq<char>>,
    pub payload: Json,
    pub reason: Option<Seq<char>>,
    pub depth: u8,
}

impl View for Action {
    type V = ActionV;

    open spec fn view(&self) -> ActionV {
        ActionV {
            kind: self.kind,
            labels: texts(self.labels@),
            attributes: self.attributes@,
            team_id: self.team_id,
            agent_id: opt_text(self.agent_id),
            priority: opt_text(self.priority),
            status: opt_text(self.status),
            snoozed_until: self.snoozed_until,
            tool: opt_text(self.tool),
            arguments: self.arguments@,
            target: opt_text(self.target),
            task: opt_text(self.task),
            payload: self.payload@,
            reason: opt_text(self.reason),
            depth: self.depth,
        }
    }
}

impl Action {
    /// A copy of the action.
    pub fn copy(&self) -> (r: Action)
        ensures
            r@ == self@,
    {
        Action {
            kind: self.kind,
            labels: text::copy_texts(&self.labels),
            attributes: self.attributes.copy(),
            team_id: self.team_id,
            agent_id: text::copy_opt(&self.agent_id),
            priority: text::copy_opt(&self.priority),
            status: text::copy_opt(&self.status),
            snoozed_until: self.snoozed_until,
            tool: text::copy_opt(&self.tool),
            arguments: self.arguments.copy(),
            target: text::copy_opt(&self.target),
            task: text::copy_opt(&self.task),
            payload: self.payload.copy(),
            reason: text::copy_opt(&self.reason),
            depth: self.depth,
        }
    }
}

/// What the actions of a list say.
pub open spec fn actions_of(v: Seq<Action>) -> Seq<ActionV> {
    v.map_values(|a: Action| a@)
}

impl Default for Action {
    fn default() -> (r: Self)
        ensures
            r.kind is SendMessage,
            r.labels@.len() == 0,
            r.attributes is Null,
            r.team_id is None,
            r.agent_id is None,
            r.priority is None,
            r.status is None,
            r.snoozed_until is None,
            r.tool is None,
            r.arguments is Null,
            r.target is None,
            r.task is None,
            r.payload is Null,
            r.reason is None,
            r.depth == 0,
    {
        Action {
            kind: ActionKind::SendMessage,
            labels: Vec::new(),
            attributes: JsonValue::Null,
            team_id: None,
            agent_id: None,
            priority: None,
            status: None,
            snoozed_until: None,
            tool: None,
            arguments: JsonValue::Null,
            target: None,
            task: None,
            payload: JsonValue::Null,
            reason: None,
            depth: 0,
        }
    }
}

/// The one message that goes to the contact.
#[derive(Debug, Clone)]
pub struct Reply {
    pub text: String,
    pub content_type: Option<String>,
}

/// What a reply says.
pub struct ReplyV {
    pub text: Seq<char>,
    pub content_type: Option<Seq<char>>,
}

impl View for Reply {
    type V = ReplyV;

    open spec fn view(&self) -> ReplyV {
        ReplyV { text: self.text@, content_type: opt_text(self.content_type) }
    }
}

/// What an optional reply says.
pub open spec fn reply_of(o: Option<Reply>) -> Option<ReplyV> {
    match o {
        Some(r) => Some(r@),
        None => None,
    }
}

impl Default for Reply {
    fn default() -> (r: Self)
        ensures
            r.text@ == ""@,
            r.content_type is None,
    {
        Reply { text: "".to_string(), content_type: None }
    }
}

/// Whether the agent wants an attendant, why and whom.
#[derive(Debug, Clone)]
pub struct HandoffInfo {
    pub required: bool,
    pub reason: Option<String>,
    pub target: Option<String>,
}

impl Default for HandoffInfo {
    fn default() -> (r: Self)
        ensures
            !r.required,
            r.reason is None,
            r.target is None,
    {
        HandoffInfo { required: false, reason: None, target: None }
    }
}

/// Tokens and cost of a run.
#[derive(Debug, Clone, Copy)]
pub struct Usage {
    pub input_tokens: u32,
    pub output_tokens: u32,
    pub cost_usd: F64Bits,
}

impl Default for Usage {
    fn default() -> (r: Self)
        ensures
            r.input_tokens == 0,
            r.output_tokens == 0,
            r.cost_usd.bits == 0,
    {
        Usage { input_tokens: 0, output_tokens: 0, cost_usd: F64Bits { bits: 0 } }
    }
}

/// The double `1.0`.
pub const ONE_BITS: u64 = 0x3FF0000000000000;

/// The structured answer of an agent.
#[derive(Debug, Clone)]
pub struct AgentResponse {
    pub run_id: Option<String>,
    pub reply: Option<Reply>,
    pub actions: Vec<Action>,
    pub handoff: HandoffInfo,
    pub confidence: F64Bits,
    pub usage: Option<Usage>,
    pub provider_session_id: Option<String>,
    pub result: Option<JsonValue>,
    pub summary_for_supervisor: Option<String>,
}

impl Default for AgentResponse {
    fn default() -> (r: Self)
        ensures
            r.run_id is None,
            r.reply is None,
            r.actions@.len() == 0,
            !r.handoff.required,
            r.handoff.reason is None,
            r.handoff.target is None,
            r.confidence.bits == ONE_BITS,
            r.usage is None,
            r.provider_session_id is None,
            r.result is None,
            r.summary_for_supervisor is None,
    {
        AgentResponse {
            run_id: None,
            reply: None,
            actions: Vec::new(),
            handoff: HandoffInfo { required: false, reason: None, target: None },
            confidence: F64Bits { bits: ONE_BITS },
            usage: None,
            provider_session_id: None,
            result: None,
            summary_for_supervisor: None,
        }
    }
}

/// A file that came with a message.
#[derive(Debug, Clone)]
pub struct Attachment {
    pub url: String,
    pub mime: String,
    pub name: String,
}

impl Default for Attachment {
    fn default() -> (r: Self)
        ensures
            r.url@ == ""@,
            r.mime@ == ""@,
            r.name@ == ""@,
    {
        Attachment { url: "".to_string(), mime: "".to_string(), name: "".to_string() }
    }
}

/// A message of the contact, as the buffer holds it.
#[derive(Debug, Clone)]
pub struct InboundMessage {
    pub id: i64,
    pub content: String,
    pub sender_kind: String,
    pub created_at: String,
    pub has_attachment: bool,
    pub attachments: Vec<Attachment>,
}

/// What an attachment says.
pub struct AttachmentV {
    pub url: Seq<char>,
    pub mime: Seq<char>,
    pub name: Seq<char>,
}

impl View for Attachment {
    type V = AttachmentV;

    open spec fn view(&self) -> AttachmentV {
        AttachmentV { url: self.url@, mime: self.mime@, name: self.name@ }
    }
}

/// What a message says.
pub struct InboundV {
    pub id: i64,
    pub content: Seq<char>,
    pub sender_kind: Seq<char>,
    pub created_at: Seq<char>,
    pub has_attachment: bool,
    pub attachments: Seq<AttachmentV>,
}

impl View for InboundMessage {
    type V = InboundV;

    open spec fn view(&self) -> InboundV {
        InboundV {
            id: self.id,
            content: self.content@,
            sender_kind: self.sender_kind@,
            created_at: self.created_at@,
            has_attachment: self.has_attachment,
            attachments: self.attachments@.map_values(|a: Attachment| a@),
        }
    }
}

/// What the messages of a list say.
pub open spec fn messages_of(v: Seq<InboundMessage>) -> Seq<InboundV> {
    v.map_values(|m: InboundMessage| m@)
}

impl InboundMessage {
    /// A copy of the message.
    pub fn copy(&self) -> (r: InboundMessage)
        ensures
            r@ == self@,
    {
        let mut attachments: Vec<Attachment> = Vec::new();
        let mut i: usize = 0;
        while i < self.attachments.len()
            invariant
                i <= self.attachments@.len(),
                attachments@.len() == i,
                forall|k: int| 0 <= k < i ==> (#[trigger] attachments@[k])@ == self.attachments@[k]@,
            decreases self.attachments@.len() - i,
        {
            let a = &self.attachments[i];
            attachments.push(
                Attachment { url: a.url.clone(), mime: a.mime.clone(), name: a.name.clone() },
            );
            i += 1;
        }
        assert(attachments@.map_values(|a: Attachment| a@) =~= self.attachments@.map_values(
            |a: Attachment| a@,
        ));
        InboundMessage {
            id: self.id,
            content: self.content.clone(),
            sender_kind: self.sender_kind.clone(),
            created_at: self.created_at.clone(),
            has_attachment: self.has_attachment,
            attachments,
        }
    }
}

/// Copies of the messages of a list.
pub fn copy_messages(v: &Vec<InboundMessage>) -> (r: Vec<InboundMessage>)
    ensures
        messages_of(r@) == messages_of(v@),
{
    let mut r: Vec<InboundMessage> = Vec::new();
    let mut i: usize = 0;
    while i < v.len()
        invariant
            i <= v@.len(),
            r@.len() == i,
            forall|k: int| 0 <= k < i ==> (#[trigger] r@[k])@ == v@[k]@,
        decreases v@.len() - i,
    {
        r.push(v[i].copy());
        i += 1;
    }
    assert(messages_of(r@) =~= messages_of(v@));
    r
}

impl Default for InboundMessage {
    fn default() -> (r: Self)
        ensures
            r.id == 0,
            r.content@ == ""@,
            r.sender_kind@ == ""@,
            r.created_at@ == ""@,
            !r.has_attachment,
            r.attachments@.len() == 0,
    {
        InboundMessage {
            id: 0,
            content: "".to_string(),
            sender_kind: "".to_string(),
            created_at: "".to_string(),
            has_attachment: false,
            attachments: Vec::new(),
        }
    }
}

/// What a provider is asked to do.
#[derive(Debug, Clone)]
pub struct AgentRequest {
    pub run_id: RunId,
    pub session_key: String,
    pub agent_id: Option<String>,
    pub turn: Vec<InboundMessage>,
    pub context: ConversationContext,
    pub allowed_actions: Vec<ActionKind>,
    pub deadline_ms: u64,
    pub max_output_chars: usize,
    pub locale: String,
}

impl AgentRequest {
    /// The time the agent has.
    pub fn deadline(&self) -> (r: Duration)
        ensures
            r == milliseconds(self.deadline_ms),
    {
        Duration::from_millis(self.deadline_ms)
    }
}

impl Default for AgentRequest {
    fn default() -> (r: Self)
        ensures
            nibble(r.run_id.0 as int, 19) == 4,
            r.session_key@ == ""@,
            r.agent_id is None,
            r.turn@.len() == 0,
            r.context.conversation_id == 0,
            r.allowed_actions@.len() == 0,
            r.deadline_ms == 30000,
            r.max_output_chars == 1200,
            r.locale@ == "pt-BR"@,
    {
        AgentRequest {
            run_id: RunId::default(),
            session_key: "".to_string(),
            agent_id: None,
            turn: Vec::new(),
            context: ConversationContext::default(),
            allowed_actions: Vec::new(),
            deadline_ms: 30000,
            max_output_chars: 1200,
            locale: "pt-BR".to_string(),
        }
    }
}

/// The names by which agents ask for actions, and by which they are read.
pub proof fn law_actions_go_by_their_names(
    k: ActionKind,
    name: &'static str,
    s: &str,
    r: Result<ActionKind, String>,
)
    requires
        call_ensures(ActionKind::as_str, (&k,), name),
        call_ensures(ActionKind::parse, (s,), r),
    ensures
        k is SendMessage ==> name@ == "send_message"@,
        k is SendPrivateNote ==> name@ == "send_private_note"@,
        k is AddLabels ==> name@ == "add_labels"@,
        k is RemoveLabels ==> name@ == "remove_labels"@,
        k is SetCustomAttributes ==> name@ == "set_custom_attributes"@,
        k is AssignTeam ==> name@ == "assign_team"@,
        k is AssignAgent ==> name@ == "assign_agent"@,
        k is SetPriority ==> name@ == "set_priority"@,
        k is SetStatus ==> name@ == "set_status"@,
        k is Snooze ==> name@ == "snooze"@,
        k is CallTool ==> name@ == "call_tool"@,
        k is CallAgent ==> name@ == "call_agent"@,
        k is RequestHandoff ==> name@ == "request_handoff"@,
        s@ == name@ ==> r == Ok::<ActionKind, String>(k),
        r matches Ok(x) ==> s@ == kind_name(x),
        r matches Err(e) ==> e@ == "unknown ActionKind: "@ + s@,
{
    if s@ == name@ {
        match r {
            Ok(x) => law_action_names_are_distinct(x, k),
            Err(e) => assert(kind_name(k) == s@),
        }
    }
}

/// A specialist works on labels, attributes and tools; it neither speaks with the
/// contact nor moves the conversation.
pub proof fn law_specialists_do_not_speak(k: ActionKind, r: bool)
    requires
        call_ensures(ActionKind::allowed_for_specialist, (&k,), r),
    ensures
        k is AddLabels || k is RemoveLabels || k is SetCustomAttributes || k is CallTool ==> r,
        k is SendMessage || k is SendPrivateNote || k is AssignTeam || k is AssignAgent ==> !r,
        k is SetPriority || k is SetStatus || k is Snooze || k is CallAgent ==> !r,
        k is RequestHandoff ==> !r,
{
}

/// An answer that says nothing of itself is trusted and asks for nothing, and a
/// request has half a minute and twelve hundred characters unless it says
/// otherwise.
pub proof fn law_what_is_unsaid(
    response: AgentResponse,
    request: AgentRequest,
    action: Action,
)
    requires
        call_ensures(AgentResponse::default, (), response),
        call_ensures(AgentRequest::default, (), request),
        call_ensures(Action::default, (), action),
    ensures
        response.confidence.bits == 0x3FF0000000000000,
        response.reply is None && response.actions@.len() == 0 && !response.handoff.required,
        request.deadline_ms == 30000,
        request.max_output_chars == 1200,
        request.locale@ == "pt-BR"@,
        request.turn@.len() == 0 && request.allowed_actions@.len() == 0,
        action.kind is SendMessage && action.labels@.len() == 0 && action.team_id is None,
{
}

/// An attachment, a message, a reply and a hand-off that nothing is said of are
/// empty.
pub proof fn law_what_is_empty(
    m: InboundMessage,
    a: Attachment,
    r: Reply,
    h: HandoffInfo,
    u: Usage,
    action: Action,
)
    requires
        call_ensures(InboundMessage::default, (), m),
        call_ensures(Attachment::default, (), a),
        call_ensures(Reply::default, (), r),
        call_ensures(HandoffInfo::default, (), h),
        call_ensures(Usage::default, (), u),
        call_ensures(Action::default, (), action),
    ensures
        m.id == 0 && m.content@.len() == 0 && m.sender_kind@.len() == 0,
        m.created_at@.len() == 0 && !m.has_attachment && m.attachments@.len() == 0,
        a.url@.len() == 0 && a.mime@.len() == 0 && a.name@.len() == 0,
        r.text@.len() == 0 && r.content_type is None,
        !h.required && h.reason is None && h.target is None,
        u.input_tokens == 0 && u.output_tokens == 0 && u.cost_usd.bits == 0,
        action.agent_id is None && action.priority is None && action.status is None,
        action.snoozed_until is None && action.tool is None && action.depth == 0,
        action.attributes is Null && action.arguments is Null && action.payload is Null,
{
    reveal_strlit("");
}

/// A copy of a message or an action says what the original says.
pub proof fn law_copies_say_the_same(
    m: InboundMessage,
    a: Action,
    n: InboundMessage,
    b: Action,
    i: int,
)
    requires
        call_ensures(InboundMessage::copy, (&m,), n),
        call_ensures(Action::copy, (&a,), b),
        0 <= i < m.attachments@.len(),
    ensures
        n.id == m.id && n.content@ == m.content@ && n.sender_kind@ == m.sender_kind@,
        n.created_at@ == m.created_at@ && n.has_attachment == m.has_attachment,
        n.attachments@.len() == m.attachments@.len(),
        n.attachments@[i].url@ == m.attachments@[i].url@,
        n.attachments@[i].mime@ == m.attachments@[i].mime@,
        n.attachments@[i].name@ == m.attachments@[i].name@,
        b.kind == a.kind && texts(b.labels@) == texts(a.labels@) && b.team_id == a.team_id,
        b.attributes@ == a.attributes@ && opt_text(b.agent_id) == opt_text(a.agent_id),
        opt_text(b.priority) == opt_text(a.priority) && opt_text(b.status) == opt_text(a.status),
        b.snoozed_until == a.snoozed_until && opt_text(b.tool) == opt_text(a.tool),
        b.arguments@ == a.arguments@ && opt_text(b.target) == opt_text(a.target),
        opt_text(b.task) == opt_text(a.task) && b.payload@ == a.payload@,
        opt_text(b.reason) == opt_text(a.reason) && b.depth == a.depth,
{
    assert(n@.id == m@.id && n@.content == m@.content);
    assert(n@.attachments.len() == n.attachments@.len());
    assert(m@.attachments.len() == m.attachments@.len());
    assert(n@.attachments[i] == n.attachments@[i]@);
    assert(m@.attachments[i] == m.attachments@[i]@);
    assert(b@.kind == a@.kind && b@.labels == a@.labels);
}

/// A request is to be answered within its own time.
pub proof fn law_requests_have_their_time(q: AgentRequest, r: Duration)
    requires
        call_ensures(AgentRequest::deadline, (&q,), r),
    ensures
        r == milliseconds(q.deadline_ms),
{
}

} // verus!
