//! Who answers a conversation: states, events and transitions.
use crate::block_label;
use crate::error::StateError;
use crate::is_block_label;
use vstd::prelude::*;

verus! {

/// State of a conversation, as kept in the database.
#[derive(Debug, Clone, Copy, PartialEq, Eq, Structural)]
pub enum AiState {
    /// The AI answers.
    AiActive,
    /// A run is under way; messages gather in the buffer.
    AiThinking,
    /// A hand-off was asked for and nobody took over yet.
    AwaitingHuman,
    /// An attendant is in charge.
    HumanHandling,
    /// Paused by a block label or a command.
    AiPausedManual,
    /// Paused by a rate limiter.
    AiPausedLimit,
    /// The conversation is resolved.
    Closed,
}

/// What moves the state machine.
#[derive(Debug, PartialEq, Eq)]
pub enum StateEvent {
    /// The contact sent a message.
    ContactMessage,
    /// The buffer was flushed and a run began.
    AiStarted,
    /// The run ended well.
    AiResponded,
    /// The run failed or timed out.
    AiFailed,
    /// The AI asked for a hand-off.
    AiRequestedHandoff,
    /// A label was added.
    LabelAdded(String),
    /// A limiter was exceeded.
    LimitExceeded,
    /// An attendant sent a message.
    HumanMessage,
    /// An attendant took the conversation.
    HumanAssigned,
    /// An attendant resolved the conversation.
    HumanResolved,
    /// An attendant gave the conversation back to the AI.
    HumanSetPending,
    /// The window of the limiter ran out.
    LimitWindowExpired,
    /// A label was removed.
    LabelRemoved(String),
    /// The contact answered, which reopens a closed conversation.
    ContactReplied,
}

impl Clone for StateEvent {
    fn clone(&self) -> (r: Self)
        ensures
            r == *self,
    {
        match self {
            StateEvent::ContactMessage => StateEvent::ContactMessage,
            StateEvent::AiStarted => StateEvent::AiStarted,
            StateEvent::AiResponded => StateEvent::AiResponded,
            StateEvent::AiFailed => StateEvent::AiFailed,
            StateEvent::AiRequestedHandoff => StateEvent::AiRequestedHandoff,
            StateEvent::LabelAdded(l) => StateEvent::LabelAdded(l.clone()),
            StateEvent::LimitExceeded => StateEvent::LimitExceeded,
            StateEvent::HumanMessage => StateEvent::HumanMessage,
            StateEvent::HumanAssigned => StateEvent::HumanAssigned,
            StateEvent::HumanResolved => StateEvent::HumanResolved,
            StateEvent::HumanSetPending => StateEvent::HumanSetPending,
            StateEvent::LimitWindowExpired => StateEvent::LimitWindowExpired,
            StateEvent::LabelRemoved(l) => StateEvent::LabelRemoved(l.clone()),
            StateEvent::ContactReplied => StateEvent::ContactReplied,
        }
    }
}

/// The name under which a state is kept.
pub open spec fn state_name(s: AiState) -> Seq<char> {
    match s {
        AiState::AiActive => "ai_active"@,
        AiState::AiThinking => "ai_thinking"@,
        AiState::AwaitingHuman => "awaiting_human"@,
        AiState::HumanHandling => "human_handling"@,
        AiState::AiPausedManual => "ai_paused_manual"@,
        AiState::AiPausedLimit => "ai_paused_limit"@,
        AiState::Closed => "closed"@,
    }
}

/// The display form of an event.
pub open spec fn event_name(e: StateEvent) -> Seq<char> {
    match e {
        StateEvent::ContactMessage => "contact_message"@,
        StateEvent::AiStarted => "ai_started"@,
        StateEvent::AiResponded => "ai_responded"@,
        StateEvent::AiFailed => "ai_failed"@,
        StateEvent::AiRequestedHandoff => "ai_requested_handoff"@,
        StateEvent::LabelAdded(l) => "label_added:"@ + l@,
        StateEvent::LimitExceeded => "limit_exceeded"@,
        StateEvent::HumanMessage => "human_message"@,
        StateEvent::HumanAssigned => "human_assigned"@,
        StateEvent::HumanResolved => "human_resolved"@,
        StateEvent::HumanSetPending => "human_set_pending"@,
        StateEvent::LimitWindowExpired => "limit_window_expired"@,
        StateEvent::LabelRemoved(l) => "label_removed:"@ + l@,
        StateEvent::ContactReplied => "contact_replied"@,
    }
}

/// The AI holds the conversation, whether or not a run is under way.
pub open spec fn ai_in_charge(s: AiState) -> bool {
    s is AiActive || s is AiThinking
}

/// The state after `e`, or `None` where `e` is not valid in `s`. Stated event
/// by event.
pub open spec fn next_state(s: AiState, e: StateEvent) -> Option<AiState> {
    match e {
        StateEvent::ContactMessage => if ai_in_charge(s) {
            Some(AiState::AiThinking)
        } else if s is HumanHandling {
            Some(AiState::HumanHandling)
        } else if s is Closed {
            Some(AiState::AiActive)
        } else {
            None
        },
        StateEvent::ContactReplied => if s is HumanHandling {
            Some(AiState::HumanHandling)
        } else if s is Closed {
            Some(AiState::AiActive)
        } else {
            None
        },
        StateEvent::AiStarted => if ai_in_charge(s) {
            Some(AiState::AiThinking)
        } else {
            None
        },
        StateEvent::AiResponded => if ai_in_charge(s) {
            Some(AiState::AiActive)
        } else {
            None
        },
        StateEvent::AiFailed | StateEvent::AiRequestedHandoff => if ai_in_charge(s) {
            Some(AiState::AwaitingHuman)
        } else {
            None
        },
        StateEvent::LimitExceeded => if ai_in_charge(s) {
            Some(AiState::AiPausedLimit)
        } else {
            None
        },
        StateEvent::LimitWindowExpired => if s is AiPausedLimit {
            Some(AiState::AiActive)
        } else if s is AwaitingHuman {
            Some(AiState::AwaitingHuman)
        } else {
            None
        },
        StateEvent::HumanMessage => if s is Closed {
            None
        } else {
            Some(AiState::HumanHandling)
        },
        StateEvent::HumanAssigned => if s is Closed || s is HumanHandling {
            None
        } else {
            Some(AiState::HumanHandling)
        },
        StateEvent::HumanResolved => Some(AiState::Closed),
        StateEvent::HumanSetPending => if s is AwaitingHuman || s is HumanHandling {
            Some(AiState::AiActive)
        } else {
            None
        },
        StateEvent::LabelAdded(l) => if ai_in_charge(s) && block_label(l@) {
            Some(AiState::AiPausedManual)
        } else {
            Some(s)
        },
        StateEvent::LabelRemoved(l) => if s is AiPausedManual && block_label(l@) {
            Some(AiState::AiActive)
        } else {
            Some(s)
        },
    }
}

impl AiState {
    /// `true` only in `ai_active`, the one state in which the AI answers.
    pub fn can_ai_respond(&self) -> (r: bool)
        ensures
            r == (self is AiActive),
    {
        matches!(self, AiState::AiActive)
    }

    /// `true` where the AI is paused, by hand or by a limiter.
    pub fn is_paused(&self) -> (r: bool)
        ensures
            r == (self is AiPausedManual || self is AiPausedLimit),
    {
        matches!(self, AiState::AiPausedManual | AiState::AiPausedLimit)
    }

    /// The name in snake case, as kept in the database.
    pub fn as_str(&self) -> (r: &'static str)
        ensures
            r@ == state_name(*self),
    {
        match self {
            AiState::AiActive => "ai_active",
            AiState::AiThinking => "ai_thinking",
            AiState::AwaitingHuman => "awaiting_human",
            AiState::HumanHandling => "human_handling",
            AiState::AiPausedManual => "ai_paused_manual",
            AiState::AiPausedLimit => "ai_paused_limit",
            AiState::Closed => "closed",
        }
    }

    /// The display form: the name.
    pub fn to_string(&self) -> (r: String)
        ensures
            r@ == state_name(*self),
    {
        self.as_str().to_string()
    }

    /// The state after `event`; an error where the event is not valid here.
    pub fn transition(self, event: &StateEvent) -> (r: Result<AiState, StateError>)
        ensures
            match next_state(self, *event) {
                Some(s) => r == Ok::<AiState, StateError>(s),
                None => r == Err::<AiState, StateError>(
                    (StateError { from: self, event: *event }),
                ),
            },
    {
        let next: Option<AiState> = match (self, event) {
            (AiState::AiActive, StateEvent::ContactMessage) => Some(AiState::AiThinking),
            (AiState::AiActive, StateEvent::AiStarted) => Some(AiState::AiThinking),
            (AiState::AiActive, StateEvent::AiResponded) => Some(AiState::AiActive),
            (AiState::AiActive, StateEvent::AiFailed) => Some(AiState::AwaitingHuman),
            (AiState::AiActive, StateEvent::AiRequestedHandoff) => Some(AiState::AwaitingHuman),
            (AiState::AiActive, StateEvent::LimitExceeded) => Some(AiState::AiPausedLimit),
            (AiState::AiActive, StateEvent::HumanMessage) => Some(AiState::HumanHandling),
            (AiState::AiActive, StateEvent::HumanAssigned) => Some(AiState::HumanHandling),
            (AiState::AiActive, StateEvent::HumanResolved) => Some(AiState::Closed),
            (AiState::AiActive, StateEvent::LabelAdded(l)) => if is_block_label(l.as_str()) {
                Some(AiState::AiPausedManual)
            } else {
                Some(AiState::AiActive)
            },
            (AiState::AiActive, StateEvent::LabelRemoved(_)) => Some(AiState::AiActive),
            (AiState::AiActive, _) => None,
            (AiState::AiThinking, StateEvent::AiResponded) => Some(AiState::AiActive),
            (AiState::AiThinking, StateEvent::AiFailed) => Some(AiState::AwaitingHuman),
            (AiState::AiThinking, StateEvent::AiRequestedHandoff) => Some(AiState::AwaitingHuman),
            (AiState::AiThinking, StateEvent::LimitExceeded) => Some(AiState::AiPausedLimit),
            (AiState::AiThinking, StateEvent::HumanMessage) => Some(AiState::HumanHandling),
            (AiState::AiThinking, StateEvent::HumanAssigned) => Some(AiState::HumanHandling),
            (AiState::AiThinking, StateEvent::HumanResolved) => Some(AiState::Closed),
            (AiState::AiThinking, StateEvent::LabelAdded(l)) => if is_block_label(l.as_str()) {
                Some(AiState::AiPausedManual)
            } else {
                Some(AiState::AiThinking)
            },
            (AiState::AiThinking, StateEvent::LabelRemoved(_)) => Some(AiState::AiThinking),
            (AiState::AiThinking, StateEvent::ContactMessage) => Some(AiState::AiThinking),
            (AiState::AiThinking, StateEvent::AiStarted) => Some(AiState::AiThinking),
            (AiState::AiThinking, _) => None,
            (AiState::AwaitingHuman, StateEvent::HumanAssigned) => Some(AiState::HumanHandling),
            (AiState::AwaitingHuman, StateEvent::HumanMessage) => Some(AiState::HumanHandling),
            (AiState::AwaitingHuman, StateEvent::HumanResolved) => Some(AiState::Closed),
            (AiState::AwaitingHuman, StateEvent::HumanSetPending) => Some(AiState::AiActive),
            (AiState::AwaitingHuman, StateEvent::LimitWindowExpired) => Some(
                AiState::AwaitingHuman,
            ),
            (AiState::AwaitingHuman, StateEvent::LabelAdded(_)) => Some(AiState::AwaitingHuman),
            (AiState::AwaitingHuman, StateEvent::LabelRemoved(_)) => Some(AiState::AwaitingHuman),
            (AiState::AwaitingHuman, _) => None,
            (AiState::HumanHandling, StateEvent::HumanResolved) => Some(AiState::Closed),
            (AiState::HumanHandling, StateEvent::HumanSetPending) => Some(AiState::AiActive),
            (AiState::HumanHandling, StateEvent::HumanMessage) => Some(AiState::HumanHandling),
            (AiState::HumanHandling, StateEvent::ContactReplied) => Some(AiState::HumanHandling),
            (AiState::HumanHandling, StateEvent::ContactMessage) => Some(AiState::HumanHandling),
            (AiState::HumanHandling, StateEvent::LabelAdded(_)) => Some(AiState::HumanHandling),
            (AiState::HumanHandling, StateEvent::LabelRemoved(_)) => Some(AiState::HumanHandling),
            (AiState::HumanHandling, _) => None,
            (AiState::AiPausedLimit, StateEvent::LimitWindowExpired) => Some(AiState::AiActive),
            (AiState::AiPausedLimit, StateEvent::HumanAssigned) => Some(AiState::HumanHandling),
            (AiState::AiPausedLimit, StateEvent::HumanMessage) => Some(AiState::HumanHandling),
            (AiState::AiPausedLimit, StateEvent::HumanResolved) => Some(AiState::Closed),
            (AiState::AiPausedLimit, StateEvent::LabelAdded(_)) => Some(AiState::AiPausedLimit),
            (AiState::AiPausedLimit, StateEvent::LabelRemoved(_)) => Some(AiState::AiPausedLimit),
            (AiState::AiPausedLimit, _) => None,
            (AiState::AiPausedManual, StateEvent::LabelRemoved(l)) => if is_block_label(
                l.as_str(),
            ) {
                Some(AiState::AiActive)
            } else {
                Some(AiState::AiPausedManual)
            },
            (AiState::AiPausedManual, StateEvent::LabelAdded(_)) => Some(AiState::AiPausedManual),
            (AiState::AiPausedManual, StateEvent::HumanAssigned) => Some(AiState::HumanHandling),
            (AiState::AiPausedManual, StateEvent::HumanMessage) => Some(AiState::HumanHandling),
            (AiState::AiPausedManual, StateEvent::HumanResolved) => Some(AiState::Closed),
            (AiState::AiPausedManual, _) => None,
            (AiState::Closed, StateEvent::ContactReplied) => Some(AiState::AiActive),
            (AiState::Closed, StateEvent::ContactMessage) => Some(AiState::AiActive),
            (AiState::Closed, StateEvent::HumanResolved) => Some(AiState::Closed),
            (AiState::Closed, StateEvent::LabelAdded(_)) => Some(AiState::Closed),
            (AiState::Closed, StateEvent::LabelRemoved(_)) => Some(AiState::Closed),
            (AiState::Closed, _) => None,
        };
        match next {
            Some(s) => Ok(s),
            None => Err(StateError { from: self, event: event.clone() }),
        }
    }
}

impl Default for AiState {
    fn default() -> (r: Self)
        ensures
            r is AiActive,
    {
        AiState::AiActive
    }
}

impl StateEvent {
    /// The display form.
    pub fn to_string(&self) -> (r: String)
        ensures
            r@ == event_name(*self),
    {
        match self {
            StateEvent::ContactMessage => "contact_message".to_string(),
            StateEvent::AiStarted => "ai_started".to_string(),
            StateEvent::AiResponded => "ai_responded".to_string(),
            StateEvent::AiFailed => "ai_failed".to_string(),
            StateEvent::AiRequestedHandoff => "ai_requested_handoff".to_string(),
            StateEvent::LabelAdded(l) => "label_added:".to_string().concat(l.as_str()),
            StateEvent::LimitExceeded => "limit_exceeded".to_string(),
            StateEvent::HumanMessage => "human_message".to_string(),
            StateEvent::HumanAssigned => "human_assigned".to_string(),
            StateEvent::HumanResolved => "human_resolved".to_string(),
            StateEvent::HumanSetPending => "human_set_pending".to_string(),
            StateEvent::LimitWindowExpired => "limit_window_expired".to_string(),
            StateEvent::LabelRemoved(l) => "label_removed:".to_string().concat(l.as_str()),
            StateEvent::ContactReplied => "contact_replied".to_string(),
        }
    }
}

// ---------------------------------------------------------------------------
// Laws
// ---------------------------------------------------------------------------

/// Resolving closes the conversation from every state, and is never refused.
pub proof fn law_resolving_always_closes(s: AiState)
    ensures
        next_state(s, StateEvent::HumanResolved) == Some(AiState::Closed),
{
}

/// A message of an attendant takes every open conversation from the AI: while
/// an attendant is at work the AI does not answer.
pub proof fn law_human_takes_over(s: AiState)
    requires
        !(s is Closed),
    ensures
        next_state(s, StateEvent::HumanMessage) == Some(AiState::HumanHandling),
        next_state(AiState::HumanHandling, StateEvent::AiStarted) is None,
        next_state(AiState::HumanHandling, StateEvent::AiResponded) is None,
        next_state(AiState::HumanHandling, StateEvent::ContactMessage) == Some(
            AiState::HumanHandling,
        ),
{
}

/// A block label pauses an AI that is in charge, and removing a block label
/// gives the conversation back to it.
pub proof fn law_block_label_pauses_and_resumes(s: AiState, added: String, removed: String)
    requires
        ai_in_charge(s),
        block_label(added@),
        block_label(removed@),
    ensures
        next_state(s, StateEvent::LabelAdded(added)) == Some(AiState::AiPausedManual),
        next_state(AiState::AiPausedManual, StateEvent::LabelRemoved(removed)) == Some(
            AiState::AiActive,
        ),
{
}

/// A label that blocks nothing changes no state, added or removed.
pub proof fn law_neutral_labels_change_nothing(s: AiState, l: String)
    requires
        !block_label(l@),
    ensures
        next_state(s, StateEvent::LabelAdded(l)) == Some(s),
        next_state(s, StateEvent::LabelRemoved(l)) == Some(s),
{
}

/// An exceeded limit pauses an AI in charge until the window runs out.
pub proof fn law_limit_pauses_until_window_ends(s: AiState)
    requires
        ai_in_charge(s),
    ensures
        next_state(s, StateEvent::LimitExceeded) == Some(AiState::AiPausedLimit),
        next_state(AiState::AiPausedLimit, StateEvent::LimitWindowExpired) == Some(
            AiState::AiActive,
        ),
{
}

/// The AI never leaves a conversation unanswered by failing: a failed run or a
/// requested hand-off leads to an attendant.
pub proof fn law_failure_asks_for_a_human(s: AiState)
    requires
        ai_in_charge(s),
    ensures
        next_state(s, StateEvent::AiFailed) == Some(AiState::AwaitingHuman),
        next_state(s, StateEvent::AiRequestedHandoff) == Some(AiState::AwaitingHuman),
        next_state(AiState::AwaitingHuman, StateEvent::HumanAssigned) == Some(
            AiState::HumanHandling,
        ),
{
}

/// A closed conversation is reopened by the contact and by nobody else.
pub proof fn law_only_the_contact_reopens(e: StateEvent)
    ensures
        (next_state(AiState::Closed, e) matches Some(s) && !(s is Closed)) <==> (
        e is ContactMessage || e is ContactReplied),
{
}

/// No two states share a name.
pub proof fn law_state_names_are_distinct(a: AiState, b: AiState)
    requires
        state_name(a) == state_name(b),
    ensures
        a == b,
{
    reveal_strlit("ai_active");
    reveal_strlit("ai_thinking");
    reveal_strlit("awaiting_human");
    reveal_strlit("human_handling");
    reveal_strlit("ai_paused_manual");
    reveal_strlit("ai_paused_limit");
    reveal_strlit("closed");
    assert("ai_thinking"@[3] == 't');
    assert("ai_active"@.len() == 9);
    assert("ai_thinking"@.len() == 11);
    assert("awaiting_human"@.len() == 14);
    assert("human_handling"@.len() == 14);
    assert("awaiting_human"@[0] == 'a');
    assert("human_handling"@[0] == 'h');
    assert("ai_paused_manual"@.len() == 16);
    assert("ai_paused_limit"@.len() == 15);
    assert("closed"@.len() == 6);
}

/// Assigning an attendant takes every open conversation from the AI: whoever
/// held it, the attendant holds it now.
pub proof fn law_an_assigned_attendant_takes_over(s: AiState, r: Result<AiState, StateError>)
    requires
        !(s is Closed),
        !(s is HumanHandling),
        call_ensures(AiState::transition, (s, &StateEvent::HumanAssigned), r),
    ensures
        next_state(s, StateEvent::HumanAssigned) == Some(AiState::HumanHandling),
        r == Ok::<AiState, StateError>(AiState::HumanHandling),
{
}

/// Each state is reached in these ways and no other. The AI comes back by its own
/// answer, from an attendant who gives the conversation back, when what paused it
/// is gone, and by a contact who reopens; it thinks where the contact speaks or a
/// run begins; an attendant is called where a run fails or asks for one; an
/// attendant who speaks or is assigned takes every open conversation; labels and
/// limits pause an AI that holds the conversation; and resolving closes.
pub proof fn law_how_each_state_is_reached(
    s: AiState,
    e: StateEvent,
    n: AiState,
    r: Result<AiState, StateError>,
)
    requires
        s != n,
        call_ensures(AiState::transition, (s, &e), r),
    ensures
        r == Ok::<AiState, StateError>(n) <==> (match n {
            AiState::AiActive => match s {
                AiState::AiThinking => e is AiResponded,
                AiState::AwaitingHuman | AiState::HumanHandling => e is HumanSetPending,
                AiState::AiPausedLimit => e is LimitWindowExpired,
                AiState::AiPausedManual => e is LabelRemoved && block_label(e->LabelRemoved_0@),
                _ => e is ContactMessage || e is ContactReplied,
            },
            AiState::AiThinking => s is AiActive && (e is ContactMessage || e is AiStarted),
            AiState::AwaitingHuman => (s is AiActive || s is AiThinking) && (e is AiFailed
                || e is AiRequestedHandoff),
            AiState::HumanHandling => !(s is Closed) && (e is HumanMessage || e is HumanAssigned),
            AiState::AiPausedManual => (s is AiActive || s is AiThinking) && e is LabelAdded
                && block_label(e->LabelAdded_0@),
            AiState::AiPausedLimit => (s is AiActive || s is AiThinking) && e is LimitExceeded,
            AiState::Closed => e is HumanResolved,
        }),
{
}

/// What leaves a state as it is: labels that neither pause nor give back, an
/// answer while the AI is active, words and starts while it thinks, a window that
/// ends while an attendant is awaited, words while an attendant is at work, and
/// resolving what is resolved.
pub proof fn law_what_changes_no_state(s: AiState, e: StateEvent, r: Result<AiState, StateError>)
    requires
        call_ensures(AiState::transition, (s, &e), r),
    ensures
        r == Ok::<AiState, StateError>(s) <==> (match e {
            StateEvent::LabelAdded(l) => !(block_label(l@) && (s is AiActive || s is AiThinking)),
            StateEvent::LabelRemoved(l) => !(block_label(l@) && s is AiPausedManual),
            StateEvent::AiResponded => s is AiActive,
            StateEvent::AiStarted => s is AiThinking,
            StateEvent::ContactMessage => s is AiThinking || s is HumanHandling,
            StateEvent::ContactReplied => s is HumanHandling,
            StateEvent::HumanMessage => s is HumanHandling,
            StateEvent::LimitWindowExpired => s is AwaitingHuman,
            StateEvent::HumanResolved => s is Closed,
            _ => false,
        }),
{
}

/// A refused event is named with the state that refused it.
pub proof fn law_refusals_name_state_and_event(
    s: AiState,
    e: StateEvent,
    r: Result<AiState, StateError>,
)
    requires
        call_ensures(AiState::transition, (s, &e), r),
    ensures
        r matches Err(x) ==> x.from == s && x.event == e,
        r is Err <==> next_state(s, e) is None,
{
}

/// The AI answers only while it is active: not while a run is under way, not
/// while an attendant is called or at work, not while it is paused.
pub proof fn law_the_ai_answers_only_while_active(s: AiState, can: bool, paused: bool)
    requires
        call_ensures(AiState::can_ai_respond, (&s,), can),
        call_ensures(AiState::is_paused, (&s,), paused),
    ensures
        can ==> !paused,
        can <==> !(s is AiThinking || s is AwaitingHuman || s is HumanHandling || s is Closed
            || paused),
        paused <==> (next_state(s, StateEvent::HumanAssigned) == Some(AiState::HumanHandling) && !(
        s is AiActive || s is AiThinking || s is AwaitingHuman)),
{
}

/// The names under which states are kept.
pub proof fn law_states_are_kept_by_name(s: AiState, r: &'static str)
    requires
        call_ensures(AiState::as_str, (&s,), r),
    ensures
        s is AiActive ==> r@ == "ai_active"@,
        s is AiThinking ==> r@ == "ai_thinking"@,
        s is AwaitingHuman ==> r@ == "awaiting_human"@,
        s is HumanHandling ==> r@ == "human_handling"@,
        s is AiPausedManual ==> r@ == "ai_paused_manual"@,
        s is AiPausedLimit ==> r@ == "ai_paused_limit"@,
        s is Closed ==> r@ == "closed"@,
{
}

/// The names by which events are shown; a label is shown with the event that it
/// came with.
pub proof fn law_events_are_shown_by_name(e: StateEvent, r: String)
    requires
        call_ensures(StateEvent::to_string, (&e,), r),
    ensures
        e is ContactMessage ==> r@ == "contact_message"@,
        e is AiStarted ==> r@ == "ai_started"@,
        e is AiResponded ==> r@ == "ai_responded"@,
        e is AiFailed ==> r@ == "ai_failed"@,
        e is AiRequestedHandoff ==> r@ == "ai_requested_handoff"@,
        e is LimitExceeded ==> r@ == "limit_exceeded"@,
        e is HumanMessage ==> r@ == "human_message"@,
        e is HumanAssigned ==> r@ == "human_assigned"@,
        e is HumanResolved ==> r@ == "human_resolved"@,
        e is HumanSetPending ==> r@ == "human_set_pending"@,
        e is LimitWindowExpired ==> r@ == "limit_window_expired"@,
        e is ContactReplied ==> r@ == "contact_replied"@,
        e matches StateEvent::LabelAdded(l) ==> r@ == "label_added:"@ + l@,
        e matches StateEvent::LabelRemoved(l) ==> r@ == "label_removed:"@ + l@,
{
}

/// A conversation begins with the AI active.
pub proof fn law_conversations_begin_active(s: AiState)
    requires
        call_ensures(AiState::default, (), s),
    ensures
        s is AiActive,
{
}

} // verus!
