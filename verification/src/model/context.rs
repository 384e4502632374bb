//! What an agent is told about a conversation.
use crate::ids::ContactId;
use crate::text;
use vstd::prelude::*;

verus! {

#[derive(Debug, Clone)]
pub struct ContactSummary {
    pub id: ContactId,
    pub name: String,
    pub phone_masked: String,
    pub email_masked: String,
}

impl Default for ContactSummary {
    fn default() -> (r: Self)
        ensures
            r.id == 0,
            r.name@ == ""@,
            r.phone_masked@ == ""@,
            r.email_masked@ == ""@,
    {
        ContactSummary {
            id: 0,
            name: "".to_string(),
            phone_masked: "".to_string(),
            email_masked: "".to_string(),
        }
    }
}

#[derive(Debug, Clone)]
pub struct ClientSummary {
    pub razao_social: String,
    pub cnpj: String,
    pub regime: String,
    pub ultimo_atendimento: Option<String>,
    pub pendencias: Vec<String>,
}

impl Default for ClientSummary {
    fn default() -> (r: Self)
        ensures
            r.razao_social@ == ""@,
            r.cnpj@ == ""@,
            r.regime@ == ""@,
            r.ultimo_atendimento is None,
            r.pendencias@.len() == 0,
    {
        ClientSummary {
            razao_social: "".to_string(),
            cnpj: "".to_string(),
            regime: "".to_string(),
            ultimo_atendimento: None,
            pendencias: Vec::new(),
        }
    }
}

/// One entry of the recent history.
#[derive(Debug, Clone)]
pub struct HistoryItem {
    pub role: String,
    pub content: String,
    pub at: String,
}

impl Default for HistoryItem {
    fn default() -> (r: Self)
        ensures
            r.role@ == ""@,
            r.content@ == ""@,
            r.at@ == ""@,
    {
        HistoryItem { role: "".to_string(), content: "".to_string(), at: "".to_string() }
    }
}

/// Business hours at the time of a turn.
#[derive(Debug, Clone, Copy, PartialEq, Eq, Structural)]
pub enum BusinessHoursState {
    /// Within business hours.
    Within,
    /// Outside business hours.
    Outside,
    /// A holiday: the SLA clock stands still.
    Holiday,
}

/// The name of a business-hours state.
pub open spec fn hours_name(b: BusinessHoursState) -> Seq<char> {
    match b {
        BusinessHoursState::Within => "within"@,
        BusinessHoursState::Outside => "outside"@,
        BusinessHoursState::Holiday => "holiday"@,
    }
}

/// The state that a text names; `fora` is another word for `outside`.
pub open spec fn hours_named(s: Seq<char>) -> Option<BusinessHoursState> {
    if s == "within"@ {
        Some(BusinessHoursState::Within)
    } else if s == "outside"@ || s == "fora"@ {
        Some(BusinessHoursState::Outside)
    } else if s == "holiday"@ {
        Some(BusinessHoursState::Holiday)
    } else {
        None
    }
}

impl BusinessHoursState {
    pub fn as_str(&self) -> (r: &'static str)
        ensures
            r@ == hours_name(*self),
    {
        match self {
            BusinessHoursState::Within => "within",
            BusinessHoursState::Outside => "outside",
            BusinessHoursState::Holiday => "holiday",
        }
    }

    /// The display form: the name.
    pub fn to_string(&self) -> (r: String)
        ensures
            r@ == hours_name(*self),
    {
        self.as_str().to_string()
    }

    /// The state that `s` names.
    pub fn parse(s: &str) -> (r: Result<BusinessHoursState, String>)
        ensures
            match r {
                Ok(b) => hours_named(s@) == Some(b),
                Err(e) => hours_named(s@) is None && e@ == "unknown BusinessHoursState: "@ + s@,
            },
    {
        if text::same(s, "within") {
            Ok(BusinessHoursState::Within)
        } else if text::same(s, "outside") || text::same(s, "fora") {
            Ok(BusinessHoursState::Outside)
        } else if text::same(s, "holiday") {
            Ok(BusinessHoursState::Holiday)
        } else {
            Err("unknown BusinessHoursState: ".to_string().concat(s))
        }
    }
}

impl std::str::FromStr for BusinessHoursState {
    type Err = String;

    fn from_str(s: &str) -> (r: Result<BusinessHoursState, String>)
        ensures
            match r {
                Ok(b) => hours_named(s@) == Some(b),
                Err(e) => hours_named(s@) is None && e@ == "unknown BusinessHoursState: "@ + s@,
            },
    {
        BusinessHoursState::parse(s)
    }
}

impl Default for BusinessHoursState {
    fn default() -> (r: Self)
        ensures
            r is Within,
    {
        BusinessHoursState::Within
    }
}

/// Reading back the name of a state gives the state.
pub proof fn law_hours_round_trip(b: BusinessHoursState)
    ensures
        hours_named(hours_name(b)) == Some(b),
{
    reveal_strlit("within");
    reveal_strlit("outside");
    reveal_strlit("fora");
    reveal_strlit("holiday");
    assert("within"@.len() == 6 && "outside"@.len() == 7 && "fora"@.len() == 4 && "holiday"@.len()
        == 7);
    assert("outside"@[0] == 'o' && "holiday"@[0] == 'h');
}

/// Everything the agent is told about a conversation.
#[derive(Debug, Clone)]
pub struct ConversationContext {
    pub conversation_id: i64,
    pub inbox_channel: String,
    pub contact: Option<ContactSummary>,
    pub client: Option<ClientSummary>,
    pub labels: Vec<String>,
    pub assignee: Option<AgentSummary>,
    pub business_hours: BusinessHoursState,
    pub history_digest: Vec<HistoryItem>,
    pub prior_ai_turns_in_row: u8,
}

impl Default for ConversationContext {
    fn default() -> (r: Self)
        ensures
            r.conversation_id == 0,
            r.inbox_channel@ == ""@,
            r.contact is None,
            r.client is None,
            r.labels@.len() == 0,
            r.assignee is None,
            r.business_hours is Within,
            r.history_digest@.len() == 0,
            r.prior_ai_turns_in_row == 0,
    {
        ConversationContext {
            conversation_id: 0,
            inbox_channel: "".to_string(),
            contact: None,
            client: None,
            labels: Vec::new(),
            assignee: None,
            business_hours: BusinessHoursState::Within,
            history_digest: Vec::new(),
            prior_ai_turns_in_row: 0,
        }
    }
}

/// An attendant in short.
#[derive(Debug, Clone)]
pub struct AgentSummary {
    pub id: i64,
    pub name: String,
    pub email: String,
}

impl Default for AgentSummary {
    fn default() -> (r: Self)
        ensures
            r.id == 0,
            r.name@ == ""@,
            r.email@ == ""@,
    {
        AgentSummary { id: 0, name: "".to_string(), email: "".to_string() }
    }
}

/// The names of the business hours; `fora` is read as `outside`, and any other
/// word is refused.
pub proof fn law_hours_go_by_their_names(
    b: BusinessHoursState,
    name: &'static str,
    s: &str,
    r: Result<BusinessHoursState, String>,
)
    requires
        call_ensures(BusinessHoursState::as_str, (&b,), name),
        call_ensures(BusinessHoursState::parse, (s,), r),
    ensures
        b is Within ==> name@ == "within"@,
        b is Outside ==> name@ == "outside"@,
        b is Holiday ==> name@ == "holiday"@,
        s@ == name@ ==> r == Ok::<BusinessHoursState, String>(b),
        s@ == "fora"@ ==> r == Ok::<BusinessHoursState, String>(BusinessHoursState::Outside),
        r is Ok <==> s@ == "within"@ || s@ == "outside"@ || s@ == "fora"@ || s@ == "holiday"@,
        r matches Err(e) ==> e@ == "unknown BusinessHoursState: "@ + s@,
{
    law_hours_round_trip(b);
    reveal_strlit("within");
    reveal_strlit("fora");
    assert("within"@.len() == 6 && "fora"@.len() == 4);
}

/// A context that nothing is said of is empty, and the office is open in it.
pub proof fn law_an_empty_context(
    c: ConversationContext,
    contact: ContactSummary,
    client: ClientSummary,
    h: HistoryItem,
    a: AgentSummary,
    b: BusinessHoursState,
)
    requires
        call_ensures(ConversationContext::default, (), c),
        call_ensures(ContactSummary::default, (), contact),
        call_ensures(ClientSummary::default, (), client),
        call_ensures(HistoryItem::default, (), h),
        call_ensures(AgentSummary::default, (), a),
        call_ensures(BusinessHoursState::default, (), b),
    ensures
        c.conversation_id == 0 && c.inbox_channel@.len() == 0 && c.contact is None,
        c.client is None && c.labels@.len() == 0 && c.assignee is None,
        c.business_hours is Within && c.history_digest@.len() == 0,
        c.prior_ai_turns_in_row == 0 && b is Within,
        contact.id == 0 && contact.name@.len() == 0 && contact.phone_masked@.len() == 0,
        contact.email_masked@.len() == 0,
        client.razao_social@.len() == 0 && client.cnpj@.len() == 0 && client.regime@.len() == 0,
        client.ultimo_atendimento is None && client.pendencias@.len() == 0,
        h.role@.len() == 0 && h.content@.len() == 0 && h.at@.len() == 0,
        a.id == 0 && a.name@.len() == 0 && a.email@.len() == 0,
{
    reveal_strlit("");
}

} // verus!
