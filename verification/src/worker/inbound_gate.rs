//! The inbound gate: whether the AI may answer a turn at all.
//!
//! Rules are tried in order; the first that blocks ends the evaluation.
use crate::config::Config;
use crate::model::agent::{ActionKind, InboundMessage};
use crate::state_machine::state_name;
use crate::text;
use crate::text::{int_text, same_ascii_case_folded, stands_at, texts, trimmed};
use crate::worker::state::{ConversationState, WorkerError};
use crate::{block_label, has_label, is_block_label, same_label_in};
use vstd::prelude::*;

verus! {

/// What was decided of a turn, with the rule and the reason of a block.
#[derive(Debug, Clone)]
pub enum GateDecision {
    Allow,
    Block { rule: String, reason: String },
}

impl GateDecision {
    pub fn is_allowed(&self) -> (r: bool)
        ensures
            r == (self is Allow),
    {
        matches!(self, GateDecision::Allow)
    }

    fn block(rule: &str, reason: String) -> (r: Self)
        ensures
            decided(r) == Some((rule@, reason@)),
    {
        GateDecision::Block { rule: rule.to_string(), reason }
    }
}

/// The rule and the reason of a block; `None` where the turn is allowed.
pub open spec fn decided(d: GateDecision) -> Option<(Seq<char>, Seq<char>)> {
    match d {
        GateDecision::Allow => None,
        GateDecision::Block { rule, reason } => Some((rule@, reason@)),
    }
}

/// Whether a label blocks the AI, by the fixed list or by the configured one.
pub open spec fn blocks(label: Seq<char>, configured: Seq<Seq<char>>) -> bool {
    block_label(label) || same_label_in(configured, label)
}

/// The first label that blocks the AI.
pub open spec fn first_blocking(labels: Seq<Seq<char>>, configured: Seq<Seq<char>>) -> Option<
    Seq<char>,
>
    decreases labels.len(),
{
    if labels.len() == 0 {
        None
    } else if blocks(labels[0], configured) {
        Some(labels[0])
    } else {
        first_blocking(labels.drop_first(), configured)
    }
}

/// What the rules on the first message say.
pub open spec fn message_block(m: InboundMessage) -> Option<(Seq<char>, Seq<char>)> {
    if same_ascii_case_folded(m.sender_kind@, "private"@) || stands_at(m.content@, "/private"@, 0) {
        Some(("G1"@, "private_note"@))
    } else if same_ascii_case_folded(m.sender_kind@, "AgentBot"@) {
        Some(("G2"@, "own_echo"@))
    } else if m.sender_kind@.len() > 0 && !same_ascii_case_folded(m.sender_kind@, "contact"@) {
        Some(("G3"@, "not_incoming"@))
    } else if trimmed(m.content@).len() == 0 && !m.has_attachment && m.attachments@.len() == 0 {
        Some(("G4"@, "empty"@))
    } else {
        None
    }
}

/// What the rules on the conversation and the configuration say.
pub open spec fn conversation_block(state: ConversationState, config: Config) -> Option<
    (Seq<char>, Seq<char>),
> {
    if !(state.ai_state is AiActive) {
        Some(("G5"@, "state:"@ + state_name(state.ai_state)))
    } else if let Some(l) = first_blocking(
        texts(state.labels@),
        texts(config.agent.ai_block_labels@),
    ) {
        Some(("G6"@, "label:"@ + l))
    } else if config.chatwoot.ai_enabled_inboxes@.len() > 0
        && !config.chatwoot.ai_enabled_inboxes@.contains(state.inbox_id) {
        Some(("G7"@, "inbox_not_enabled:"@ + int_text(state.inbox_id as int)))
    } else if state.prior_ai_turns_in_row >= config.rate_limits.max_consecutive_ai_turns {
        Some(("G8"@, "loop_guard:handoff_required"@))
    } else if !config.agent.ai_enabled {
        Some(("G11"@, "kill_switch"@))
    } else {
        None
    }
}

/// What inbound rules say of a turn: the first rule that blocks.
pub open spec fn turn_block(
    state: ConversationState,
    config: Config,
    turn: Seq<InboundMessage>,
) -> Option<(Seq<char>, Seq<char>)> {
    if turn.len() > 0 && message_block(turn[0]) is Some {
        message_block(turn[0])
    } else {
        conversation_block(state, config)
    }
}

/// What the rules on the first message decide; `None` where none blocks.
pub fn message_rules(m: &InboundMessage) -> (r: Option<GateDecision>)
    ensures
        match r {
            Some(d) => decided(d) == message_block(*m) && d is Block,
            None => message_block(*m) is None,
        },
{
    let kind = m.sender_kind.as_str();
    if text::eq_ignore_case(kind, "private") || text::starts_with(m.content.as_str(), "/private") {
        return Some(GateDecision::block("G1", "private_note".to_string()));
    }
    if text::eq_ignore_case(kind, "AgentBot") {
        return Some(GateDecision::block("G2", "own_echo".to_string()));
    }
    if !kind.is_empty() && !text::eq_ignore_case(kind, "contact") {
        return Some(GateDecision::block("G3", "not_incoming".to_string()));
    }
    let empty_text = text::is_blank(m.content.as_str());
    let no_attachment = !m.has_attachment && m.attachments.len() == 0;
    if empty_text && no_attachment {
        return Some(GateDecision::block("G4", "empty".to_string()));
    }
    None
}

fn blocking_label(labels: &Vec<String>, configured: &Vec<String>) -> (r: Option<String>)
    ensures
        text::opt_text(r) == first_blocking(texts(labels@), texts(configured@)),
{
    let ghost all = texts(labels@);
    let mut i: usize = 0;
    assert(all.skip(0) =~= all);
    while i < labels.len()
        invariant
            i <= labels@.len(),
            all == texts(labels@),
            first_blocking(all.skip(i as int), texts(configured@)) == first_blocking(
                all,
                texts(configured@),
            ),
        decreases labels@.len() - i,
    {
        let ghost rest = all.skip(i as int);
        assert(rest[0] == labels@[i as int]@);
        assert(rest.drop_first() =~= all.skip(i as int + 1));
        if is_block_label(labels[i].as_str()) || has_label(configured, labels[i].as_str()) {
            return Some(labels[i].clone());
        }
        i += 1;
    }
    assert(all.skip(i as int).len() == 0);
    None
}

/// Business hours are not consulted yet: every time counts as within them.
pub fn is_within_business_hours() -> (r: bool)
    ensures
        r,
{
    true
}

fn inbox_listed(inboxes: &Vec<i64>, inbox: i64) -> (r: bool)
    ensures
        r == inboxes@.contains(inbox),
{
    let mut i: usize = 0;
    while i < inboxes.len()
        invariant
            i <= inboxes@.len(),
            forall|k: int| 0 <= k < i ==> inboxes@[k] != inbox,
        decreases inboxes@.len() - i,
    {
        if inboxes[i] == inbox {
            return true;
        }
        i += 1;
    }
    false
}

/// Decides whether the AI may answer a turn.
pub fn evaluate(state: &ConversationState, config: &Config, turn: &Vec<InboundMessage>) -> (r: Result<
    GateDecision,
    WorkerError,
>)
    ensures
        r is Ok,
        decided(r->Ok_0) == turn_block(*state, *config, turn@),
{
    if turn.len() > 0 {
        if let Some(d) = message_rules(&turn[0]) {
            return Ok(d);
        }
    }
    if !state.ai_state.can_ai_respond() {
        let reason = "state:".to_string().concat(state.ai_state.as_str());
        return Ok(GateDecision::block("G5", reason));
    }
    if let Some(label) = blocking_label(&state.labels, &config.agent.ai_block_labels) {
        let reason = "label:".to_string().concat(label.as_str());
        return Ok(GateDecision::block("G6", reason));
    }
    if config.chatwoot.ai_enabled_inboxes.len() > 0 && !inbox_listed(
        &config.chatwoot.ai_enabled_inboxes,
        state.inbox_id,
    ) {
        let n = text::i64_text(state.inbox_id);
        let reason = "inbox_not_enabled:".to_string().concat(n.as_str());
        return Ok(GateDecision::block("G7", reason));
    }
    if state.prior_ai_turns_in_row >= config.rate_limits.max_consecutive_ai_turns as u16 {
        return Ok(GateDecision::block("G8", "loop_guard:handoff_required".to_string()));
    }
    if text::same(config.agent.after_hours_mode.as_str(), "static") && !is_within_business_hours() {
        return Ok(GateDecision::block("G10", "after_hours:static".to_string()));
    }
    if !config.agent.ai_enabled {
        return Ok(GateDecision::block("G11", "kill_switch".to_string()));
    }
    Ok(GateDecision::Allow)
}

/// The kinds of action that an agent may ask for in a turn.
pub open spec fn turn_actions() -> Seq<ActionKind> {
    seq![
        ActionKind::SendMessage,
        ActionKind::SendPrivateNote,
        ActionKind::AddLabels,
        ActionKind::RemoveLabels,
        ActionKind::SetCustomAttributes,
        ActionKind::AssignTeam,
        ActionKind::AssignAgent,
        ActionKind::SetPriority,
        ActionKind::SetStatus,
        ActionKind::Snooze,
        ActionKind::RequestHandoff,
    ]
}

/// The kinds of action that an agent may ask for in a turn.
pub fn allowed_actions_for_turn(config: &Config) -> (r: Vec<ActionKind>)
    ensures
        r@ == turn_actions(),
{
    let r = vec![
        ActionKind::SendMessage,
        ActionKind::SendPrivateNote,
        ActionKind::AddLabels,
        ActionKind::RemoveLabels,
        ActionKind::SetCustomAttributes,
        ActionKind::AssignTeam,
        ActionKind::AssignAgent,
        ActionKind::SetPriority,
        ActionKind::SetStatus,
        ActionKind::Snooze,
        ActionKind::RequestHandoff,
    ];
    assert(r@ =~= turn_actions());
    r
}

// ---------------------------------------------------------------------------
// Laws
// ---------------------------------------------------------------------------

/// A turn that is allowed comes from a contact who said something, while the AI
/// is active, unblocked, enabled and below its limit of turns.
pub proof fn law_allowed_turns_pass_every_rule(
    state: ConversationState,
    config: Config,
    turn: Seq<InboundMessage>,
)
    requires
        turn_block(state, config, turn) is None,
    ensures
        state.ai_state is AiActive,
        config.agent.ai_enabled,
        state.prior_ai_turns_in_row < config.rate_limits.max_consecutive_ai_turns,
        config.chatwoot.ai_enabled_inboxes@.len() == 0
            || config.chatwoot.ai_enabled_inboxes@.contains(state.inbox_id),
        forall|i: int|
            0 <= i < state.labels@.len() ==> !block_label((#[trigger] state.labels@[i])@),
        turn.len() > 0 ==> message_block(turn[0]) is None,
{
    let labels = texts(state.labels@);
    let configured = texts(config.agent.ai_block_labels@);
    lemma_none_blocking(labels, configured);
    assert forall|i: int| 0 <= i < state.labels@.len() implies !block_label(
        (#[trigger] state.labels@[i])@,
    ) by {
        assert(labels[i] == state.labels@[i]@);
    }
}

proof fn lemma_none_blocking(labels: Seq<Seq<char>>, configured: Seq<Seq<char>>)
    requires
        first_blocking(labels, configured) is None,
    ensures
        forall|i: int| 0 <= i < labels.len() ==> !blocks(#[trigger] labels[i], configured),
    decreases labels.len(),
{
    if labels.len() > 0 {
        let rest = labels.drop_first();
        lemma_none_blocking(rest, configured);
        assert forall|i: int| 0 <= i < labels.len() implies !blocks(
            #[trigger] labels[i],
            configured,
        ) by {
            if i > 0 {
                assert(labels[i] == rest[i - 1]);
            }
        }
    }
}

/// With the global switch off no turn is allowed.
pub proof fn law_kill_switch_blocks_every_turn(
    state: ConversationState,
    config: Config,
    turn: Seq<InboundMessage>,
)
    requires
        !config.agent.ai_enabled,
    ensures
        turn_block(state, config, turn) is Some,
{
}

/// The first rule that blocks decides: what later rules would say changes
/// nothing.
pub proof fn law_first_block_wins(
    state: ConversationState,
    a: Config,
    b: Config,
    turn: Seq<InboundMessage>,
)
    requires
        !(state.ai_state is AiActive),
    ensures
        turn_block(state, a, turn) == turn_block(state, b, turn),
        turn_block(state, a, turn) is Some,
{
}

/// No agent is told that it may run a tool or call another agent.
pub proof fn law_no_tools_in_a_turn()
    ensures
        !turn_actions().contains(ActionKind::CallTool),
        !turn_actions().contains(ActionKind::CallAgent),
{
}

/// Whether a message comes from a contact: it says so, or says nothing of its
/// sender.
pub open spec fn of_contact(m: InboundMessage) -> bool {
    m.sender_kind@.len() == 0 || same_ascii_case_folded(m.sender_kind@, "contact"@)
}

proof fn lemma_sender_kinds(s: Seq<char>)
    requires
        s.len() == 0 || same_ascii_case_folded(s, "contact"@),
    ensures
        !same_ascii_case_folded(s, "private"@),
        !same_ascii_case_folded(s, "AgentBot"@),
{
    reveal_strlit("contact");
    reveal_strlit("private");
    reveal_strlit("AgentBot");
    assert(text::ascii_lowered("contact"@).len() == 7 && text::ascii_lowered("contact"@)[0]
        == 'c');
    assert(text::ascii_lowered("private"@).len() == 7 && text::ascii_lowered("private"@)[0]
        == 'p');
    assert(text::ascii_lowered("AgentBot"@).len() == 8);
    assert(text::ascii_lowered(s).len() == s.len());
}

/// A file needs no words: a message of a contact that carries an attachment, and
/// is no private note, is blocked by no rule on the message, caption or not.
pub proof fn law_attachments_need_no_words(m: InboundMessage, r: Option<GateDecision>)
    requires
        of_contact(m),
        m.has_attachment || m.attachments@.len() > 0,
        !stands_at(m.content@, "/private"@, 0),
        call_ensures(message_rules, (&m,), r),
    ensures
        message_block(m) is None,
        r is None,
{
    lemma_sender_kinds(m.sender_kind@);
}

/// Words need no file: a message of a contact with a character in it that is not
/// white space, and that is no private note, is blocked by no rule on the message.
pub proof fn law_words_need_no_attachment(m: InboundMessage, i: int, r: Option<GateDecision>)
    requires
        of_contact(m),
        0 <= i < m.content@.len(),
        !text::white(m.content@[i]),
        !stands_at(m.content@, "/private"@, 0),
        call_ensures(message_rules, (&m,), r),
    ensures
        message_block(m) is None,
        r is None,
{
    lemma_sender_kinds(m.sender_kind@);
    text::law_blank_means_white_only(m.content@);
}

/// What passes the rules on the message is a word or a file of a contact and no
/// private note; whatever else comes is blocked, under the name of its rule.
pub proof fn law_only_words_and_files_of_contacts_pass(m: InboundMessage, r: Option<GateDecision>)
    requires
        call_ensures(message_rules, (&m,), r),
    ensures
        message_block(m) is None <==> r is None,
        r is None ==> {
            &&& of_contact(m)
            &&& !stands_at(m.content@, "/private"@, 0)
            &&& m.has_attachment || m.attachments@.len() > 0 || exists|i: int|
                0 <= i < m.content@.len() && !text::white(#[trigger] m.content@[i])
        },
        r matches Some(d) ==> d is Block && (d->rule@ == "G1"@ || d->rule@ == "G2"@ || d->rule@
            == "G3"@ || d->rule@ == "G4"@),
        stands_at(m.content@, "/private"@, 0) ==> (r matches Some(d) && d->rule@ == "G1"@
            && d->reason@ == "private_note"@),
        !of_contact(m) ==> (r matches Some(d) && d->rule@ != "G4"@),
{
    reveal_strlit("G1");
    reveal_strlit("G2");
    reveal_strlit("G3");
    reveal_strlit("G4");
    assert("G1"@[1] == '1' && "G2"@[1] == '2' && "G3"@[1] == '3' && "G4"@[1] == '4');
    text::law_blank_means_white_only(m.content@);
    lemma_other_senders(m);
}

proof fn lemma_other_senders(m: InboundMessage)
    ensures
        same_ascii_case_folded(m.sender_kind@, "private"@) ==> !of_contact(m),
        same_ascii_case_folded(m.sender_kind@, "AgentBot"@) ==> !of_contact(m),
{
    if of_contact(m) {
        lemma_sender_kinds(m.sender_kind@);
    }
}

proof fn lemma_no_blocking(labels: Seq<Seq<char>>, configured: Seq<Seq<char>>)
    requires
        forall|i: int| 0 <= i < labels.len() ==> !blocks(#[trigger] labels[i], configured),
    ensures
        first_blocking(labels, configured) is None,
    decreases labels.len(),
{
    if labels.len() > 0 {
        let rest = labels.drop_first();
        assert forall|i: int| 0 <= i < rest.len() implies !blocks(
            #[trigger] rest[i],
            configured,
        ) by {
            assert(rest[i] == labels[i + 1]);
        }
        lemma_no_blocking(rest, configured);
    }
}

/// Whether nothing about a conversation keeps the AI from answering it: it is
/// active, carries no label of the fixed or the configured list, its inbox is
/// enabled, it is below its limit of turns, and the AI is on.
pub open spec fn answerable(state: ConversationState, config: Config) -> bool {
    &&& state.ai_state is AiActive
    &&& forall|i: int|
        #![trigger state.labels@[i]]
        0 <= i < state.labels@.len() ==> !block_label(state.labels@[i]@) && forall|k: int|
            0 <= k < config.agent.ai_block_labels@.len() ==> !same_ascii_case_folded(
                (#[trigger] config.agent.ai_block_labels@[k])@,
                state.labels@[i]@,
            )
    &&& config.chatwoot.ai_enabled_inboxes@.len() == 0
        || config.chatwoot.ai_enabled_inboxes@.contains(state.inbox_id)
    &&& state.prior_ai_turns_in_row < config.rate_limits.max_consecutive_ai_turns
    &&& config.agent.ai_enabled
}

/// In a conversation that nothing keeps from the AI, a turn that begins with a
/// word or a file of the contact is allowed.
pub proof fn law_turns_of_contacts_are_allowed(
    state: ConversationState,
    config: Config,
    turn: Vec<InboundMessage>,
    r: Result<GateDecision, WorkerError>,
)
    requires
        answerable(state, config),
        turn@.len() > 0 ==> {
            &&& of_contact(turn@[0])
            &&& !stands_at(turn@[0].content@, "/private"@, 0)
            &&& turn@[0].has_attachment || turn@[0].attachments@.len() > 0 || exists|i: int|
                0 <= i < turn@[0].content@.len() && !text::white(#[trigger] turn@[0].content@[i])
        },
        call_ensures(evaluate, (&state, &config, &turn), r),
    ensures
        turn_block(state, config, turn@) is None,
        r matches Ok(d) && d is Allow,
{
    let labels = texts(state.labels@);
    let configured = texts(config.agent.ai_block_labels@);
    assert forall|i: int| 0 <= i < labels.len() implies !blocks(#[trigger] labels[i], configured) by {
        assert(labels[i] == state.labels@[i]@);
        if same_label_in(configured, labels[i]) {
            let k = choose|k: int|
                0 <= k < configured.len() && same_ascii_case_folded(
                    #[trigger] configured[k],
                    labels[i],
                );
            assert(configured[k] == config.agent.ai_block_labels@[k]@);
        }
    }
    lemma_no_blocking(labels, configured);
    if turn@.len() > 0 {
        lemma_sender_kinds(turn@[0].sender_kind@);
        text::law_blank_means_white_only(turn@[0].content@);
    }
}

/// A turn is allowed in no other conversation, whoever speaks.
pub proof fn law_nothing_is_allowed_elsewhere(
    state: ConversationState,
    config: Config,
    turn: Vec<InboundMessage>,
    r: Result<GateDecision, WorkerError>,
)
    requires
        !answerable(state, config),
        call_ensures(evaluate, (&state, &config, &turn), r),
    ensures
        r matches Ok(d) && d is Block,
{
    if turn_block(state, config, turn@) is None {
        let labels = texts(state.labels@);
        let configured = texts(config.agent.ai_block_labels@);
        lemma_none_blocking(labels, configured);
        assert forall|i: int|
            #![trigger state.labels@[i]]
            0 <= i < state.labels@.len() implies !block_label(state.labels@[i]@) && forall|k: int|
            0 <= k < config.agent.ai_block_labels@.len() ==> !same_ascii_case_folded(
                (#[trigger] config.agent.ai_block_labels@[k])@,
                state.labels@[i]@,
            ) by {
            assert(labels[i] == state.labels@[i]@);
            assert(!blocks(labels[i], configured));
            assert forall|k: int|
                0 <= k < config.agent.ai_block_labels@.len() implies !same_ascii_case_folded(
                (#[trigger] config.agent.ai_block_labels@[k])@,
                state.labels@[i]@,
            ) by {
                assert(configured[k] == config.agent.ai_block_labels@[k]@);
            }
        }
    }
}

/// A block tells the truth: each rule is named only where what it stands against
/// is the case, with the state, the label or the inbox that it is about.
pub proof fn law_blocks_tell_the_truth(
    state: ConversationState,
    config: Config,
    turn: Seq<InboundMessage>,
    rule: Seq<char>,
    reason: Seq<char>,
)
    requires
        turn_block(state, config, turn) == Some((rule, reason)),
    ensures
        rule == "G5"@ ==> !(state.ai_state is AiActive) && reason == "state:"@ + state_name(
            state.ai_state,
        ),
        rule == "G6"@ ==> exists|i: int|
            0 <= i < state.labels@.len() && reason == "label:"@ + (#[trigger] state.labels@[i])@
                && blocks(state.labels@[i]@, texts(config.agent.ai_block_labels@)),
        rule == "G7"@ ==> config.chatwoot.ai_enabled_inboxes@.len() > 0
            && !config.chatwoot.ai_enabled_inboxes@.contains(state.inbox_id) && reason
            == "inbox_not_enabled:"@ + int_text(state.inbox_id as int),
        rule == "G8"@ ==> state.prior_ai_turns_in_row
            >= config.rate_limits.max_consecutive_ai_turns,
        rule == "G11"@ ==> !config.agent.ai_enabled,
        rule == "G1"@ || rule == "G2"@ || rule == "G3"@ || rule == "G4"@ || rule == "G5"@ || rule
            == "G6"@ || rule == "G7"@ || rule == "G8"@ || rule == "G11"@,
{
    reveal_strlit("G1");
    reveal_strlit("G2");
    reveal_strlit("G3");
    reveal_strlit("G4");
    reveal_strlit("G5");
    reveal_strlit("G6");
    reveal_strlit("G7");
    reveal_strlit("G8");
    reveal_strlit("G11");
    assert("G1"@[1] == '1' && "G2"@[1] == '2' && "G3"@[1] == '3' && "G4"@[1] == '4');
    assert("G5"@[1] == '5' && "G6"@[1] == '6' && "G7"@[1] == '7' && "G8"@[1] == '8');
    assert("G1"@.len() == 2 && "G11"@.len() == 3 && "G11"@[1] == '1');
    assert("G2"@.len() == 2 && "G3"@.len() == 2 && "G4"@.len() == 2 && "G5"@.len() == 2);
    assert("G6"@.len() == 2 && "G7"@.len() == 2 && "G8"@.len() == 2);
    let labels = texts(state.labels@);
    let configured = texts(config.agent.ai_block_labels@);
    if let Some(l) = first_blocking(labels, configured) {
        lemma_first_blocking(labels, configured);
        let i = choose|i: int|
            0 <= i < labels.len() && #[trigger] labels[i] == l && blocks(labels[i], configured);
        assert(labels[i] == state.labels@[i]@);
    }
}

proof fn lemma_first_blocking(labels: Seq<Seq<char>>, configured: Seq<Seq<char>>)
    requires
        first_blocking(labels, configured) is Some,
    ensures
        exists|i: int|
            0 <= i < labels.len() && #[trigger] labels[i] == first_blocking(
                labels,
                configured,
            )->Some_0 && blocks(labels[i], configured),
    decreases labels.len(),
{
    if blocks(labels[0], configured) {
        assert(labels[0] == first_blocking(labels, configured)->Some_0);
    } else {
        let rest = labels.drop_first();
        lemma_first_blocking(rest, configured);
        let i = choose|i: int|
            0 <= i < rest.len() && #[trigger] rest[i] == first_blocking(rest, configured)->Some_0
                && blocks(rest[i], configured);
        assert(labels[i + 1] == rest[i]);
    }
}

/// An agent may ask for every kind of action but the two that run something: a
/// tool and another agent.
pub proof fn law_all_other_actions_may_be_asked_for(
    config: Config,
    k: ActionKind,
    r: Vec<ActionKind>,
)
    requires
        call_ensures(allowed_actions_for_turn, (&config,), r),
    ensures
        r@.contains(k) <==> !(k is CallTool || k is CallAgent),
{
    let v = turn_actions();
    assert(v[0] is SendMessage && v[1] is SendPrivateNote && v[2] is AddLabels);
    assert(v[3] is RemoveLabels && v[4] is SetCustomAttributes && v[5] is AssignTeam);
    assert(v[6] is AssignAgent && v[7] is SetPriority && v[8] is SetStatus);
    assert(v[9] is Snooze && v[10] is RequestHandoff);
}

} // verus!
