//! Errors of the domain.
use crate::state_machine::{event_name, state_name, AiState, StateEvent};
use vstd::prelude::*;

verus! {

/// Errors of the core rules.
#[derive(Debug)]
pub enum CoreError {
    InvalidTransition { from: AiState, event: StateEvent },
    Config(String),
    InvalidActionKind(String),
    Serde(String),
}

/// The display form of a core error.
pub open spec fn core_error_text(e: CoreError) -> Seq<char> {
    match e {
        CoreError::InvalidTransition { from, event } => "invalid state transition: "@ + state_name(
            from,
        ) + " + "@ + event_name(event),
        CoreError::Config(m) => "config error: "@ + m@,
        CoreError::InvalidActionKind(m) => "invalid action kind: "@ + m@,
        CoreError::Serde(m) => "serde error: "@ + m@,
    }
}

impl CoreError {
    /// The display form.
    pub fn to_string(&self) -> (r: String)
        ensures
            r@ == core_error_text(*self),
    {
        match self {
            CoreError::InvalidTransition { from, event } => {
                let mut r = "invalid state transition: ".to_string();
                r.append(from.as_str());
                r.append(" + ");
                r.append(event.to_string().as_str());
                r
            },
            CoreError::Config(m) => "config error: ".to_string().concat(m.as_str()),
            CoreError::InvalidActionKind(m) => "invalid action kind: ".to_string().concat(
                m.as_str(),
            ),
            CoreError::Serde(m) => "serde error: ".to_string().concat(m.as_str()),
        }
    }
}

/// An event that is not valid in a state.
#[derive(Debug, Clone)]
pub struct StateError {
    pub from: AiState,
    pub event: StateEvent,
}

impl StateError {
    pub fn invalid_transition(from: AiState, event: StateEvent) -> (r: Self)
        ensures
            r.from == from,
            r.event == event,
    {
        StateError { from, event }
    }

    /// The display form.
    pub fn to_string(&self) -> (r: String)
        ensures
            r@ == "invalid state transition from "@ + state_name(self.from) + " on event "@
                + event_name(self.event),
    {
        let mut r = "invalid state transition from ".to_string();
        r.append(self.from.as_str());
        r.append(" on event ");
        r.append(self.event.to_string().as_str());
        r
    }
}

impl From<(AiState, StateEvent)> for StateError {
    fn from(pair: (AiState, StateEvent)) -> (r: Self) {
        StateError { from: pair.0, event: pair.1 }
    }
}

impl vstd::std_specs::convert::FromSpecImpl<(AiState, StateEvent)> for StateError {
    open spec fn obeys_from_spec() -> bool {
        true
    }

    open spec fn from_spec(pair: (AiState, StateEvent)) -> StateError {
        StateError { from: pair.0, event: pair.1 }
    }
}

/// Errors of an agent provider.
#[derive(Debug)]
pub enum AgentError {
    Timeout,
    RateLimited,
    ProviderError(String),
    InvalidResponse(String),
    AuthError,
    BudgetExceeded,
}

/// The display form of an agent error.
pub open spec fn agent_error_text(e: AgentError) -> Seq<char> {
    match e {
        AgentError::Timeout => "agent timeout"@,
        AgentError::RateLimited => "rate limited"@,
        AgentError::ProviderError(m) => "provider error: "@ + m@,
        AgentError::InvalidResponse(m) => "invalid response: "@ + m@,
        AgentError::AuthError => "auth error"@,
        AgentError::BudgetExceeded => "budget exceeded"@,
    }
}

impl AgentError {
    /// The display form.
    pub fn to_string(&self) -> (r: String)
        ensures
            r@ == agent_error_text(*self),
    {
        match self {
            AgentError::Timeout => "agent timeout".to_string(),
            AgentError::RateLimited => "rate limited".to_string(),
            AgentError::ProviderError(m) => "provider error: ".to_string().concat(m.as_str()),
            AgentError::InvalidResponse(m) => "invalid response: ".to_string().concat(m.as_str()),
            AgentError::AuthError => "auth error".to_string(),
            AgentError::BudgetExceeded => "budget exceeded".to_string(),
        }
    }
}

/// Errors of the help desk as the core sees them.
#[derive(Debug)]
pub enum ChatwootError {
    ApiError(String),
    NotFound,
    AuthError,
    RateLimited,
    Timeout,
}

impl ChatwootError {
    /// The display form.
    pub fn to_string(&self) -> (r: String)
        ensures
            r@ == (match *self {
                ChatwootError::ApiError(m) => "api error: "@ + m@,
                ChatwootError::NotFound => "not found"@,
                ChatwootError::AuthError => "auth error"@,
                ChatwootError::RateLimited => "rate limited"@,
                ChatwootError::Timeout => "timeout"@,
            }),
    {
        match self {
            ChatwootError::ApiError(m) => "api error: ".to_string().concat(m.as_str()),
            ChatwootError::NotFound => "not found".to_string(),
            ChatwootError::AuthError => "auth error".to_string(),
            ChatwootError::RateLimited => "rate limited".to_string(),
            ChatwootError::Timeout => "timeout".to_string(),
        }
    }
}

/// Each error is shown by its kind, with its cause where it has one.
pub proof fn law_errors_are_shown_by_kind(
    a: AgentError,
    c: ChatwootError,
    e: CoreError,
    x: String,
    y: String,
    z: String,
)
    requires
        call_ensures(AgentError::to_string, (&a,), x),
        call_ensures(ChatwootError::to_string, (&c,), y),
        call_ensures(CoreError::to_string, (&e,), z),
    ensures
        a is Timeout ==> x@ == "agent timeout"@,
        a is RateLimited ==> x@ == "rate limited"@,
        a is AuthError ==> x@ == "auth error"@,
        a is BudgetExceeded ==> x@ == "budget exceeded"@,
        a matches AgentError::ProviderError(m) ==> x@ == "provider error: "@ + m@,
        a matches AgentError::InvalidResponse(m) ==> x@ == "invalid response: "@ + m@,
        c is NotFound ==> y@ == "not found"@,
        c is AuthError ==> y@ == "auth error"@,
        c is RateLimited ==> y@ == "rate limited"@,
        c is Timeout ==> y@ == "timeout"@,
        c matches ChatwootError::ApiError(m) ==> y@ == "api error: "@ + m@,
        e matches CoreError::Config(m) ==> z@ == "config error: "@ + m@,
        e matches CoreError::InvalidActionKind(m) ==> z@ == "invalid action kind: "@ + m@,
        e matches CoreError::Serde(m) ==> z@ == "serde error: "@ + m@,
{
}

/// A refused event is shown with the state it was refused in.
pub proof fn law_refused_events_are_shown(
    s: AiState,
    event: StateEvent,
    e: StateError,
    state: &'static str,
    name: String,
    shown: String,
    core: String,
)
    requires
        call_ensures(StateError::invalid_transition, (s, event), e),
        call_ensures(AiState::as_str, (&s,), state),
        call_ensures(StateEvent::to_string, (&event,), name),
        call_ensures(StateError::to_string, (&e,), shown),
        call_ensures(
            CoreError::to_string,
            (&CoreError::InvalidTransition { from: s, event },),
            core,
        ),
    ensures
        shown@ == "invalid state transition from "@ + state@ + " on event "@ + name@,
        core@ == "invalid state transition: "@ + state@ + " + "@ + name@,
{
}

} // verus!
