//! Building the request for the agent.
use crate::config::Config;
use crate::ids::{ConversationId, RunId};
use crate::model::agent::{
    copy_messages, messages_of, AgentRequest, InboundMessage, InboundV,
};
use crate::model::context::{
    AgentSummary, BusinessHoursState, ContactSummary, ConversationContext,
};
use crate::ratelimit::RateLimits;
use crate::text;
use crate::text::{ascii_lowered, cut_on, int_text, texts};
use crate::worker::collect_turn::{apply_input_limit, limited, CollectedTurn};
use crate::worker::inbound_gate::{allowed_actions_for_turn, turn_actions};
use crate::worker::state::ConversationState;
use vstd::prelude::*;

verus! {

/// The channel that a word stands for, where it is a known one.
pub open spec fn known_channel(w: Seq<char>) -> Option<Seq<char>> {
    if w == "whatsapp"@ || w == "api"@ || w == ""@ {
        Some("whatsapp"@)
    } else if w == "instagram"@ {
        Some("instagram"@)
    } else if w == "email"@ {
        Some("email"@)
    } else if w == "webwidget"@ || w == "widget"@ {
        Some("widget"@)
    } else {
        None
    }
}

/// The last known channel among the words.
pub open spec fn last_known(parts: Seq<Seq<char>>) -> Option<Seq<char>>
    decreases parts.len(),
{
    if parts.len() == 0 {
        None
    } else if known_channel(parts.last()) is Some {
        known_channel(parts.last())
    } else {
        last_known(parts.drop_last())
    }
}

/// The short name of a channel of the help desk, such as `Channel::Whatsapp`:
/// the last part that is a known channel, else the last part.
pub open spec fn channel_name(raw: Seq<char>) -> Seq<char> {
    let parts = cut_on(ascii_lowered(raw), "::"@);
    match last_known(parts) {
        Some(c) => c,
        None => parts.last(),
    }
}

fn known(w: &str) -> (r: Option<&'static str>)
    ensures
        text::opt_str(r) == known_channel(w@),
{
    if text::same(w, "whatsapp") || text::same(w, "api") || text::same(w, "") {
        Some("whatsapp")
    } else if text::same(w, "instagram") {
        Some("instagram")
    } else if text::same(w, "email") {
        Some("email")
    } else if text::same(w, "webwidget") || text::same(w, "widget") {
        Some("widget")
    } else {
        None
    }
}

/// The short name of a channel of the help desk.
pub fn normalize_channel(raw: &str) -> (r: String)
    ensures
        r@ == channel_name(raw@),
{
    let lower = text::lower_ascii(raw);
    proof {
        reveal_strlit("::");
    }
    let parts = text::split_text(lower.as_str(), "::");
    let ghost all = texts(parts@);
    let mut k: usize = parts.len();
    assert(all.take(all.len() as int) =~= all);
    while k > 0
        invariant
            k <= parts@.len(),
            all == texts(parts@),
            all == cut_on(ascii_lowered(raw@), "::"@),
            last_known(all.take(k as int)) == last_known(all),
        decreases k,
    {
        assert(all.take(k as int).last() == parts@[k - 1]@);
        assert(all.take(k as int).drop_last() =~= all.take(k as int - 1));
        if let Some(c) = known(parts[k - 1].as_str()) {
            return c.to_string();
        }
        k -= 1;
    }
    assert(all.last() == parts@.last()@);
    parts[parts.len() - 1].clone()
}

/// Business hours at this moment: always within, until they are consulted.
pub fn current_business_hours() -> (r: BusinessHoursState)
    ensures
        r is Within,
{
    BusinessHoursState::Within
}

/// What the agent is told about the conversation.
pub open spec fn context_of(
    c: ConversationContext,
    conv_id: ConversationId,
    state: ConversationState,
) -> bool {
    &&& c.conversation_id == conv_id
    &&& c.inbox_channel@ == channel_name(state.channel@)
    &&& c.contact matches Some(x) && x.id == state.contact_id && x.name@ == ""@ && x.phone_masked@
        == ""@ && x.email_masked@ == ""@
    &&& c.client is None
    &&& texts(c.labels@) == texts(state.labels@)
    &&& match state.assignee_id {
        Some(id) => c.assignee matches Some(a) && a.id == id && a.name@ == ""@ && a.email@ == ""@,
        None => c.assignee is None,
    }
    &&& c.business_hours is Within
    &&& c.history_digest@.len() == 0
    &&& c.prior_ai_turns_in_row == state.prior_ai_turns_in_row as u8
}

fn build_context(conv_id: ConversationId, state: &ConversationState) -> (r: ConversationContext)
    ensures
        context_of(r, conv_id, *state),
{
    ConversationContext {
        conversation_id: conv_id,
        inbox_channel: normalize_channel(state.channel.as_str()),
        contact: Some(
            ContactSummary {
                id: state.contact_id,
                name: "".to_string(),
                phone_masked: "".to_string(),
                email_masked: "".to_string(),
            },
        ),
        client: None,
        labels: text::copy_texts(&state.labels),
        assignee: match state.assignee_id {
            Some(id) => Some(
                AgentSummary { id, name: "".to_string(), email: "".to_string() },
            ),
            None => None,
        },
        business_hours: current_business_hours(),
        history_digest: Vec::new(),
        prior_ai_turns_in_row: #[verifier::truncate]
        (state.prior_ai_turns_in_row as u8),
    }
}

/// What a message says once it is cut to the longest message that an agent gets.
pub open spec fn cut_message(m: InboundV) -> InboundV {
    InboundV { content: limited(m.content, RateLimits::MAX_INPUT_CHARS as int), ..m }
}

/// What the messages of a turn say to the agent.
pub open spec fn turn_for_agent(messages: Seq<InboundMessage>) -> Seq<InboundV> {
    messages_of(messages).map_values(|m: InboundV| cut_message(m))
}

/// The request for the agent. Messages that are too long are cut.
pub fn build_agent_request(
    config: &Config,
    run_id: RunId,
    conv_id: ConversationId,
    state: &ConversationState,
    turn: &CollectedTurn,
    trigger_reason: Option<&str>,
) -> (r: AgentRequest)
    ensures
        r.run_id == run_id,
        r.session_key@ == "cw:"@ + int_text(state.account_id as int) + ":"@ + int_text(
            conv_id as int,
        ),
        r.agent_id matches Some(a) && a@ == config.agent.openclaw_agent_id@,
        messages_of(r.turn@) == turn_for_agent(turn.messages@),
        context_of(r.context, conv_id, *state),
        r.allowed_actions@ == turn_actions(),
        r.deadline_ms == config.agent.timeout_ms,
        r.max_output_chars == config.agent.max_output_chars,
        r.locale@ == "pt-BR"@,
{
    let mut cut = CollectedTurn { messages: copy_messages(&turn.messages) };
    let ghost whole = cut.messages@;
    truncate_turn(&mut cut, RateLimits::MAX_INPUT_CHARS);
    proof {
        assert(messages_of(whole) == messages_of(turn.messages@));
        assert forall|i: int| 0 <= i < whole.len() implies (#[trigger] cut.messages@[i])@
            == cut_message(turn.messages@[i]@) by {
            assert(messages_of(whole)[i] == messages_of(turn.messages@)[i]);
        }
        assert(messages_of(cut.messages@) =~= turn_for_agent(turn.messages@));
    }
    AgentRequest {
        run_id,
        session_key: crate::session_key(state.account_id, conv_id),
        agent_id: Some(config.agent.openclaw_agent_id.clone()),
        turn: cut.messages,
        context: build_context(conv_id, state),
        allowed_actions: allowed_actions_for_turn(config),
        deadline_ms: config.agent.timeout_ms,
        max_output_chars: config.agent.max_output_chars,
        locale: "pt-BR".to_string(),
    }
}

/// Cuts every message of a turn to `max_chars` characters.
pub fn truncate_turn(turn: &mut CollectedTurn, max_chars: usize)
    ensures
        final(turn).messages@.len() == old(turn).messages@.len(),
        forall|i: int|
            0 <= i < old(turn).messages@.len() ==> {
                let m = old(turn).messages@[i];
                let n = #[trigger] final(turn).messages@[i];
                &&& n.content@ == limited(m.content@, max_chars as int)
                &&& n.id == m.id
                &&& n.sender_kind == m.sender_kind
                &&& n.created_at == m.created_at
                &&& n.has_attachment == m.has_attachment
                &&& n.attachments == m.attachments
            },
{
    apply_input_limit(&mut turn.messages, max_chars);
}

/// A turn made of the given messages.
pub fn turn_from(messages: Vec<InboundMessage>) -> (r: CollectedTurn)
    ensures
        r.messages == messages,
{
    CollectedTurn { messages }
}

/// No message to the agent is longer than the limit and the mark, and a turn in
/// which none is too long reaches the agent whole.
pub proof fn law_agents_get_bounded_messages(messages: Seq<InboundMessage>)
    ensures
        turn_for_agent(messages).len() == messages.len(),
        forall|i: int|
            0 <= i < messages.len() ==> (#[trigger] turn_for_agent(messages)[i]).content.len()
                <= RateLimits::MAX_INPUT_CHARS + 5,
        (forall|i: int|
            0 <= i < messages.len() ==> (#[trigger] messages[i]).content@.len()
                <= RateLimits::MAX_INPUT_CHARS) ==> turn_for_agent(messages) == messages_of(
            messages,
        ),
{
    reveal_strlit("[...]");
    if forall|i: int|
        0 <= i < messages.len() ==> (#[trigger] messages[i]).content@.len()
            <= RateLimits::MAX_INPUT_CHARS {
        assert forall|i: int| 0 <= i < messages.len() implies turn_for_agent(messages)[i]
            == messages_of(messages)[i] by {
            assert(messages[i].content@.len() <= RateLimits::MAX_INPUT_CHARS);
        }
        assert(turn_for_agent(messages) =~= messages_of(messages));
    }
}

/// Whether a word is one by which the help desk knows a channel.
pub open spec fn names_channel(w: Seq<char>) -> bool {
    ||| w == "whatsapp"@
    ||| w == "api"@
    ||| w == ""@
    ||| w == "instagram"@
    ||| w == "email"@
    ||| w == "webwidget"@
    ||| w == "widget"@
}

proof fn lemma_last_known(parts: Seq<Seq<char>>)
    ensures
        last_known(parts) is None <==> forall|i: int|
            0 <= i < parts.len() ==> !names_channel(#[trigger] parts[i]),
    decreases parts.len(),
{
    if parts.len() > 0 {
        let rest = parts.drop_last();
        lemma_last_known(rest);
        assert(forall|i: int| 0 <= i < rest.len() ==> #[trigger] rest[i] == parts[i]);
        assert(forall|i: int| 0 <= i < rest.len() ==> rest[i] == #[trigger] parts[i]);
        assert(parts[parts.len() - 1] == parts.last());
    }
}

/// A channel is known by the last part of its name, whatever its case: WhatsApp
/// also as the channel of the API or without a name, the widget under two names.
/// A name of which no part is known is kept as it is, by its last part.
pub proof fn law_channels_are_known_by_name(raw: &str, r: String)
    requires
        call_ensures(normalize_channel, (raw,), r),
    ensures
        ({
            let parts = cut_on(ascii_lowered(raw@), "::"@);
            let w = parts.last();
            &&& w == "whatsapp"@ || w == "api"@ || w == ""@ ==> r@ == "whatsapp"@
            &&& w == "instagram"@ ==> r@ == "instagram"@
            &&& w == "email"@ ==> r@ == "email"@
            &&& w == "webwidget"@ || w == "widget"@ ==> r@ == "widget"@
            &&& (forall|i: int| 0 <= i < parts.len() ==> !names_channel(#[trigger] parts[i]))
                ==> r@ == w
        }),
{
    reveal_strlit("whatsapp");
    reveal_strlit("api");
    reveal_strlit("");
    reveal_strlit("instagram");
    reveal_strlit("email");
    reveal_strlit("webwidget");
    reveal_strlit("widget");
    assert("whatsapp"@.len() == 8 && "api"@.len() == 3 && ""@.len() == 0);
    assert("instagram"@.len() == 9 && "instagram"@[0] == 'i');
    assert("webwidget"@.len() == 9 && "webwidget"@[0] == 'w');
    assert("email"@.len() == 5 && "widget"@.len() == 6);
    let parts = cut_on(ascii_lowered(raw@), "::"@);
    text::lemma_cut_nonempty(ascii_lowered(raw@), "::"@);
    lemma_last_known(parts);
}

/// The agent gets the whole turn, message by message and in order, each of them
/// cut to four thousand characters where it is longer.
pub proof fn law_the_agent_gets_the_turn(
    config: Config,
    run_id: RunId,
    conv_id: ConversationId,
    state: ConversationState,
    turn: CollectedTurn,
    why: Option<&str>,
    r: AgentRequest,
    i: int,
)
    requires
        call_ensures(
            build_agent_request,
            (&config, run_id, conv_id, &state, &turn, why),
            r,
        ),
        0 <= i < turn.messages@.len(),
    ensures
        r.turn@.len() == turn.messages@.len(),
        r.turn@[i].id == turn.messages@[i].id,
        r.turn@[i].sender_kind@ == turn.messages@[i].sender_kind@,
        r.turn@[i].created_at@ == turn.messages@[i].created_at@,
        r.turn@[i].has_attachment == turn.messages@[i].has_attachment,
        r.turn@[i].attachments@.len() == turn.messages@[i].attachments@.len(),
        turn.messages@[i].content@.len() <= 4000 ==> r.turn@[i].content@
            == turn.messages@[i].content@,
        turn.messages@[i].content@.len() > 4000 ==> r.turn@[i].content@
            == turn.messages@[i].content@.take(4000) + "[...]"@,
{
    let a = messages_of(r.turn@);
    let b = turn_for_agent(turn.messages@);
    assert(a.len() == r.turn@.len() && b.len() == turn.messages@.len());
    assert(a[i] == r.turn@[i]@);
    assert(b[i] == cut_message(turn.messages@[i]@));
    assert(r.turn@[i]@.attachments.len() == r.turn@[i].attachments@.len());
    assert(turn.messages@[i]@.attachments.len() == turn.messages@[i].attachments@.len());
}

/// A request speaks of its own conversation: its session, its contact, its
/// labels, its attendant, and how many turns the AI had.
pub proof fn law_requests_speak_of_their_conversation(
    config: Config,
    run_id: RunId,
    conv_id: ConversationId,
    state: ConversationState,
    turn: CollectedTurn,
    why: Option<&str>,
    r: AgentRequest,
    session: String,
    raw: &str,
    channel: String,
)
    requires
        call_ensures(
            build_agent_request,
            (&config, run_id, conv_id, &state, &turn, why),
            r,
        ),
        call_ensures(crate::session_key, (state.account_id, conv_id), session),
        call_ensures(normalize_channel, (raw,), channel),
        raw@ == state.channel@,
    ensures
        r.run_id == run_id,
        r.session_key@ == session@,
        r.agent_id matches Some(a) && a@ == config.agent.openclaw_agent_id@,
        r.context.conversation_id == conv_id,
        r.context.inbox_channel@ == channel@,
        r.context.contact matches Some(c) && c.id == state.contact_id,
        r.context.client is None,
        texts(r.context.labels@) == texts(state.labels@),
        r.context.assignee is Some <==> state.assignee_id is Some,
        r.context.assignee matches Some(a) ==> state.assignee_id == Some(a.id),
        r.context.business_hours is Within,
        state.prior_ai_turns_in_row < 256 ==> r.context.prior_ai_turns_in_row
            == state.prior_ai_turns_in_row,
        r.deadline_ms == config.agent.timeout_ms,
        r.max_output_chars == config.agent.max_output_chars,
        r.locale@ == "pt-BR"@,
{
}

/// Nothing personal is told of contact and attendant: they are known by their
/// numbers alone.
pub proof fn law_nothing_personal_is_told(
    config: Config,
    run_id: RunId,
    conv_id: ConversationId,
    state: ConversationState,
    turn: CollectedTurn,
    why: Option<&str>,
    r: AgentRequest,
)
    requires
        call_ensures(
            build_agent_request,
            (&config, run_id, conv_id, &state, &turn, why),
            r,
        ),
    ensures
        r.context.contact matches Some(c) ==> c.name@.len() == 0 && c.phone_masked@.len() == 0
            && c.email_masked@.len() == 0,
        r.context.assignee matches Some(a) ==> a.name@.len() == 0 && a.email@.len() == 0,
        r.context.history_digest@.len() == 0,
{
    reveal_strlit("");
}

/// A turn is shortened message by message: none is lost, and only their words
/// are cut.
pub proof fn law_turns_are_shortened_by_words(turn: &mut CollectedTurn, max_chars: usize, i: int)
    requires
        call_ensures(truncate_turn, (turn, max_chars), ()),
        0 <= i < old(turn).messages@.len(),
    ensures
        final(turn).messages@.len() == old(turn).messages@.len(),
        final(turn).messages@[i].id == old(turn).messages@[i].id,
        final(turn).messages@[i].sender_kind == old(turn).messages@[i].sender_kind,
        final(turn).messages@[i].has_attachment == old(turn).messages@[i].has_attachment,
        final(turn).messages@[i].attachments == old(turn).messages@[i].attachments,
        final(turn).messages@[i].created_at == old(turn).messages@[i].created_at,
        final(turn).messages@[i].content@ == limited(
            old(turn).messages@[i].content@,
            max_chars as int,
        ),
{
}

} // verus!
