//! From the reviewed answer to calls on the help desk.
//!
//! Labels are always read before they are written, so that a write never loses
//! one. A conversation is never resolved from here. At most one message goes to
//! the contact: the reply.
use crate::ids::{hyphenated, RunId};
use crate::json::{Json, JsonValue};
use crate::model::agent::{actions_of, kind_name, Action, ActionV};
use crate::text;
use crate::text::{
    ascii_lowered, int_text, opt_str, opt_text, parsed_int, same_ascii_case_folded, texts, trimmed,
    within,
};
use crate::worker::outbound_gate::ReviewedResponse;
use crate::worker::script::{must_succeed, reads_first, steps_of, DeskStep, DeskStepV};
use crate::{has_label, same_label_in};
use vstd::prelude::*;

verus! {

/// A call on the help desk.
#[derive(Debug, Clone)]
pub enum DeskCall {
    SendMessage(String),
    SendPrivateNote(String),
    SetLabels(Vec<String>),
    UpdateCustomAttributes(JsonValue),
    AssignTeam(i64),
    AssignAgent(i64),
    SetPriority(String),
    ToggleStatus(String),
}

/// What a call says.
pub enum DeskCallV {
    SendMessage(Seq<char>),
    SendPrivateNote(Seq<char>),
    SetLabels(Seq<Seq<char>>),
    UpdateCustomAttributes(Json),
    AssignTeam(i64),
    AssignAgent(i64),
    SetPriority(Seq<char>),
    ToggleStatus(Seq<char>),
}

impl View for DeskCall {
    type V = DeskCallV;

    open spec fn view(&self) -> DeskCallV {
        match self {
            DeskCall::SendMessage(s) => DeskCallV::SendMessage(s@),
            DeskCall::SendPrivateNote(s) => DeskCallV::SendPrivateNote(s@),
            DeskCall::SetLabels(v) => DeskCallV::SetLabels(texts(v@)),
            DeskCall::UpdateCustomAttributes(j) => DeskCallV::UpdateCustomAttributes(j@),
            DeskCall::AssignTeam(n) => DeskCallV::AssignTeam(*n),
            DeskCall::AssignAgent(n) => DeskCallV::AssignAgent(*n),
            DeskCall::SetPriority(s) => DeskCallV::SetPriority(s@),
            DeskCall::ToggleStatus(s) => DeskCallV::ToggleStatus(s@),
        }
    }
}

/// What the calls of a list say.
pub open spec fn calls_of(v: Seq<DeskCall>) -> Seq<DeskCallV> {
    v.map_values(|c: DeskCall| c@)
}

impl DeskCall {
    /// The same call.
    pub fn copy(&self) -> (r: Self)
        ensures
            r@ == self@,
    {
        match self {
            DeskCall::SendMessage(s) => DeskCall::SendMessage(s.clone()),
            DeskCall::SendPrivateNote(s) => DeskCall::SendPrivateNote(s.clone()),
            DeskCall::SetLabels(v) => DeskCall::SetLabels(text::copy_texts(v)),
            DeskCall::UpdateCustomAttributes(j) => DeskCall::UpdateCustomAttributes(j.copy()),
            DeskCall::AssignTeam(n) => DeskCall::AssignTeam(*n),
            DeskCall::AssignAgent(n) => DeskCall::AssignAgent(*n),
            DeskCall::SetPriority(s) => DeskCall::SetPriority(s.clone()),
            DeskCall::ToggleStatus(s) => DeskCall::ToggleStatus(s.clone()),
        }
    }
}

/// The call that an action needs without reading anything; `None` for none.
pub open spec fn direct_call(a: ActionV) -> Option<DeskCallV> {
    match a.kind {
        crate::ActionKind::SendPrivateNote => Some(
            DeskCallV::SendPrivateNote(
                match a.reason {
                    Some(s) => s,
                    None => "nota interna da IA"@,
                },
            ),
        ),
        crate::ActionKind::SetCustomAttributes => Some(
            DeskCallV::UpdateCustomAttributes(a.attributes),
        ),
        crate::ActionKind::AssignTeam => match a.team_id {
            Some(n) => Some(DeskCallV::AssignTeam(n)),
            None => None,
        },
        crate::ActionKind::AssignAgent => match a.agent_id {
            Some(s) => match within(parsed_int(s), i64::MIN as int, i64::MAX as int) {
                Some(n) => Some(DeskCallV::AssignAgent(n as i64)),
                None => None,
            },
            None => None,
        },
        crate::ActionKind::SetPriority => match a.priority {
            Some(s) => Some(DeskCallV::SetPriority(s)),
            None => None,
        },
        crate::ActionKind::SetStatus => match a.status {
            Some(s) => if same_ascii_case_folded(s, "open"@) || same_ascii_case_folded(
                s,
                "pending"@,
            ) {
                Some(DeskCallV::ToggleStatus(s))
            } else {
                None
            },
            None => None,
        },
        crate::ActionKind::Snooze => Some(DeskCallV::ToggleStatus("snoozed"@)),
        crate::ActionKind::CallTool | crate::ActionKind::CallAgent => Some(
            DeskCallV::SendPrivateNote("acao "@ + kind_name(a.kind) + " pendente (Fase 3)"@),
        ),
        _ => None,
    }
}

/// The steps for one action: a call that stops nothing where it fails, a change
/// of the labels, or none.
pub open spec fn action_steps(a: ActionV) -> Seq<DeskStepV> {
    match a.kind {
        crate::ActionKind::AddLabels => seq![DeskStepV::AddLabels(a.labels)],
        crate::ActionKind::RemoveLabels => seq![DeskStepV::RemoveLabels(a.labels)],
        _ => match direct_call(a) {
            Some(c) => seq![DeskStepV::Call(c, false)],
            None => Seq::empty(),
        },
    }
}

fn light(call: DeskCall) -> (r: Option<DeskStep>)
    ensures
        r matches Some(s) && s@ == DeskStepV::Call(call@, false),
{
    Some(DeskStep::Call { call, must: false })
}

/// The step for one action, if it needs one. Messages are sent as the reply, and
/// a hand-off ends the whole answer, so neither needs a step of its own. A status
/// is set to open or pending, to nothing else.
pub fn apply_action(action: &Action) -> (r: Option<DeskStep>)
    ensures
        action_steps(action@) == (match r {
            Some(s) => seq![s@],
            None => Seq::empty(),
        }),
{
    match action.kind {
        crate::ActionKind::SendMessage => None,
        crate::ActionKind::SendPrivateNote => {
            let content = match &action.reason {
                Some(s) => s.clone(),
                None => "nota interna da IA".to_string(),
            };
            light(DeskCall::SendPrivateNote(content))
        },
        crate::ActionKind::AddLabels => Some(
            DeskStep::AddLabels(text::copy_texts(&action.labels)),
        ),
        crate::ActionKind::RemoveLabels => Some(
            DeskStep::RemoveLabels(text::copy_texts(&action.labels)),
        ),
        crate::ActionKind::SetCustomAttributes => light(
            DeskCall::UpdateCustomAttributes(action.attributes.copy()),
        ),
        crate::ActionKind::AssignTeam => match action.team_id {
            Some(n) => light(DeskCall::AssignTeam(n)),
            None => None,
        },
        crate::ActionKind::AssignAgent => match &action.agent_id {
            Some(s) => match text::parse_i64(s.as_str()) {
                Some(n) => light(DeskCall::AssignAgent(n)),
                None => None,
            },
            None => None,
        },
        crate::ActionKind::SetPriority => match &action.priority {
            Some(s) => light(DeskCall::SetPriority(s.clone())),
            None => None,
        },
        crate::ActionKind::SetStatus => match &action.status {
            Some(s) => if text::eq_ignore_case(s.as_str(), "open") || text::eq_ignore_case(
                s.as_str(),
                "pending",
            ) {
                light(DeskCall::ToggleStatus(s.clone()))
            } else {
                None
            },
            None => None,
        },
        crate::ActionKind::Snooze => light(
            DeskCall::ToggleStatus("snoozed".to_string()),
        ),
        crate::ActionKind::CallTool | crate::ActionKind::CallAgent => {
            let mut note = "acao ".to_string();
            note.append(action.kind.as_str());
            note.append(" pendente (Fase 3)");
            light(DeskCall::SendPrivateNote(note))
        },
        crate::ActionKind::RequestHandoff => None,
    }
}

// ---------------------------------------------------------------------------
// Labels
// ---------------------------------------------------------------------------

/// `current` with the labels of `add` behind it, but for those already there.
pub open spec fn labels_union(current: Seq<Seq<char>>, add: Seq<Seq<char>>) -> Seq<Seq<char>>
    decreases add.len(),
{
    if add.len() == 0 {
        current
    } else {
        let u = labels_union(current, add.drop_last());
        if same_label_in(u, add.last()) {
            u
        } else {
            u.push(add.last())
        }
    }
}

/// The labels after `add` was added to `current`.
pub fn merge_labels(current: Vec<String>, add: &Vec<String>) -> (r: Vec<String>)
    ensures
        texts(r@) == labels_union(texts(current@), texts(add@)),
{
    let ghost start = texts(current@);
    let ghost all = texts(add@);
    let mut r = current;
    let mut i: usize = 0;
    assert(all.take(0) =~= Seq::<Seq<char>>::empty());
    while i < add.len()
        invariant
            i <= add@.len(),
            all == texts(add@),
            texts(r@) == labels_union(start, all.take(i as int)),
        decreases add@.len() - i,
    {
        let ghost prior = texts(r@);
        assert(all.take(i as int + 1).drop_last() =~= all.take(i as int));
        assert(all.take(i as int + 1).last() == add@[i as int]@);
        if !has_label(&r, add[i].as_str()) {
            r.push(add[i].clone());
            assert(texts(r@) =~= prior.push(add@[i as int]@));
        }
        i += 1;
    }
    assert(all.take(i as int) =~= all);
    r
}

/// The labels of `current` that `remove` does not name.
pub open spec fn labels_without(current: Seq<Seq<char>>, remove: Seq<Seq<char>>) -> Seq<Seq<char>> {
    current.filter(|l: Seq<char>| !same_label_in(remove, l))
}

/// The labels after `remove` was taken from `current`.
pub fn prune_labels(current: Vec<String>, remove: &Vec<String>) -> (r: Vec<String>)
    ensures
        texts(r@) == labels_without(texts(current@), texts(remove@)),
{
    let ghost all = texts(current@);
    let mut r: Vec<String> = Vec::new();
    let mut i: usize = 0;
    while i < current.len()
        invariant
            i <= current@.len(),
            all == texts(current@),
            texts(r@) == labels_without(all.take(i as int), texts(remove@)),
        decreases current@.len() - i,
    {
        let ghost prior = texts(r@);
        proof {
            let l = all[i as int];
            assert(l == current@[i as int]@);
            assert(all.take(i as int + 1) =~= all.take(i as int).push(l));
            all.take(i as int).lemma_filter_push(
                l,
                |x: Seq<char>| !same_label_in(texts(remove@), x),
            );
        }
        if !has_label(remove, current[i].as_str()) {
            r.push(current[i].clone());
            assert(texts(r@) =~= prior.push(current@[i as int]@));
        }
        i += 1;
    }
    assert(all.take(i as int) =~= all);
    r
}

/// The labels to write when both agents failed; `None` where the failure label
/// is there already.
pub fn failure_labels(current: Vec<String>) -> (r: Option<Vec<String>>)
    ensures
        match r {
            Some(v) => !same_label_in(texts(current@), "ia:falha"@) && texts(v@) == texts(
                current@,
            ).push("ia:falha"@),
            None => same_label_in(texts(current@), "ia:falha"@),
        },
{
    if has_label(&current, crate::AI_FAILURE_LABEL) {
        None
    } else {
        let ghost prior = texts(current@);
        let mut v = current;
        v.push(crate::AI_FAILURE_LABEL.to_string());
        assert(texts(v@) =~= prior.push("ia:falha"@));
        Some(v)
    }
}

// ---------------------------------------------------------------------------
// The whole answer
// ---------------------------------------------------------------------------

/// The message that goes to the contact, if one does: the reply, unless the
/// answer is blocked or the reply is blank.
pub open spec fn message_to_send(r: ReviewedResponse) -> Option<Seq<char>> {
    match r.reply {
        Some(x) => if !r.blocked && trimmed(x.text@).len() > 0 {
            Some(x.text@)
        } else {
            None
        },
        None => None,
    }
}

/// The step that sends the message, and the one that keeps it.
pub open spec fn message_steps(r: ReviewedResponse) -> Seq<DeskStepV> {
    match message_to_send(r) {
        Some(t) => seq![
            DeskStepV::Call(DeskCallV::SendMessage(t), true),
            DeskStepV::Remember(t),
        ],
        None => Seq::empty(),
    }
}

/// The steps for a list of actions, in order.
pub open spec fn all_action_steps(v: Seq<ActionV>) -> Seq<DeskStepV>
    decreases v.len(),
{
    if v.len() == 0 {
        Seq::empty()
    } else {
        all_action_steps(v.drop_last()) + action_steps(v.last())
    }
}

/// Calls that must succeed.
pub open spec fn must_calls(v: Seq<DeskCallV>) -> Seq<DeskStepV> {
    v.map_values(|c: DeskCallV| DeskStepV::Call(c, true))
}

/// Whether an answer hands the conversation over: it says so, or one of its
/// actions asks for it.
pub open spec fn hands_over(r: ReviewedResponse) -> bool {
    r.handoff_required || asks_handoff(r.actions@)
}

/// Whether one of the actions asks for a hand-off.
pub open spec fn asks_handoff(v: Seq<Action>) -> bool {
    exists|k: int| 0 <= k < v.len() && (#[trigger] v[k]).kind is RequestHandoff
}

/// What to do for a reviewed answer: the one message, then the actions in
/// order, then the hand-off.
pub open spec fn answer_script(r: ReviewedResponse, fallback_team_id: i64) -> Seq<DeskStepV> {
    message_steps(r) + all_action_steps(actions_of(r.actions@)) + if hands_over(r) {
        must_calls(handoff_calls(fallback_team_id, opt_text(r.handoff_reason)))
    } else {
        Seq::empty()
    }
}

fn push_calls(script: &mut Vec<DeskStep>, calls: Vec<DeskCall>)
    ensures
        steps_of(final(script)@) == steps_of(old(script)@) + must_calls(calls_of(calls@)),
{
    let ghost start = steps_of(script@);
    let mut i: usize = 0;
    while i < calls.len()
        invariant
            i <= calls@.len(),
            steps_of(script@) == start + must_calls(calls_of(calls@)).take(i as int),
        decreases calls@.len() - i,
    {
        let ghost prior = steps_of(script@);
        let call = calls[i].copy();
        script.push(DeskStep::Call { call, must: true });
        proof {
            let all = must_calls(calls_of(calls@));
            assert(all[i as int] == DeskStepV::Call(calls@[i as int]@, true));
            assert(steps_of(script@) =~= prior.push(all[i as int]));
            assert(all.take(i as int + 1) =~= all.take(i as int).push(all[i as int]));
        }
        i += 1;
    }
    assert(must_calls(calls_of(calls@)).take(i as int) =~= must_calls(calls_of(calls@)));
}

/// What to do for a reviewed answer.
pub fn apply(reviewed: &ReviewedResponse, fallback_team_id: i64) -> (r: Vec<DeskStep>)
    ensures
        steps_of(r@) == answer_script(*reviewed, fallback_team_id),
{
    let mut script: Vec<DeskStep> = Vec::new();
    if !reviewed.blocked {
        if let Some(x) = &reviewed.reply {
            if !text::is_blank(x.text.as_str()) {
                let call = DeskCall::SendMessage(x.text.clone());
                script.push(DeskStep::Call { call, must: true });
                script.push(DeskStep::Remember(x.text.clone()));
            }
        }
    }
    assert(steps_of(script@) =~= message_steps(*reviewed));
    let ghost all = actions_of(reviewed.actions@);
    let mut hand_over = reviewed.handoff_required;
    let mut i: usize = 0;
    assert(all.take(0) =~= Seq::<ActionV>::empty());
    assert(steps_of(script@) =~= message_steps(*reviewed) + all_action_steps(all.take(0)));
    while i < reviewed.actions.len()
        invariant
            i <= reviewed.actions@.len(),
            all == actions_of(reviewed.actions@),
            steps_of(script@) == message_steps(*reviewed) + all_action_steps(all.take(i as int)),
            hand_over == (reviewed.handoff_required || exists|k: int|
                0 <= k < i && (#[trigger] reviewed.actions@[k]).kind is RequestHandoff),
        decreases reviewed.actions@.len() - i,
    {
        let ghost prior = steps_of(script@);
        let step = apply_action(&reviewed.actions[i]);
        proof {
            assert(all.take(i as int + 1).drop_last() =~= all.take(i as int));
            assert(all.take(i as int + 1).last() == reviewed.actions@[i as int]@);
        }
        let ghost next = action_steps(reviewed.actions@[i as int]@);
        if let Some(s) = step {
            script.push(s);
        }
        if let crate::ActionKind::RequestHandoff = reviewed.actions[i].kind {
            hand_over = true;
        }
        assert(steps_of(script@) =~= prior + next);
        assert(steps_of(script@) =~= message_steps(*reviewed) + all_action_steps(
            all.take(i as int + 1),
        ));
        i += 1;
    }
    assert(all.take(i as int) =~= all);
    if hand_over {
        let calls = match &reviewed.handoff_reason {
            Some(s) => handoff(fallback_team_id, Some(s.as_str())),
            None => handoff(fallback_team_id, None),
        };
        push_calls(&mut script, calls);
    }
    assert(steps_of(script@) =~= answer_script(*reviewed, fallback_team_id));
    script
}

/// The calls of a hand-off: open the conversation, assign the fallback team,
/// and leave a note where there is a reason.
pub open spec fn handoff_calls(team: i64, reason: Option<Seq<char>>) -> Seq<DeskCallV> {
    let start = seq![DeskCallV::ToggleStatus("open"@), DeskCallV::AssignTeam(team)];
    match reason {
        Some(s) => start.push(
            DeskCallV::SendPrivateNote("handoff solicitado pela IA: "@ + s),
        ),
        None => start,
    }
}

/// The calls of a hand-off.
pub fn handoff(fallback_team_id: i64, reason: Option<&str>) -> (r: Vec<DeskCall>)
    ensures
        calls_of(r@) == handoff_calls(fallback_team_id, opt_str(reason)),
{
    let mut r: Vec<DeskCall> = Vec::new();
    r.push(DeskCall::ToggleStatus("open".to_string()));
    r.push(DeskCall::AssignTeam(fallback_team_id));
    if let Some(s) = reason {
        let note = "handoff solicitado pela IA: ".to_string().concat(s);
        r.push(DeskCall::SendPrivateNote(note));
    }
    assert(calls_of(r@) =~= handoff_calls(fallback_team_id, opt_str(reason)));
    r
}

/// What the contact is told when both agents failed.
pub const DEGRADATION_TEXT: &'static str =
    "Desculpe, tive um problema técnico. Já acionei a equipe e alguém retorna em instantes.";

/// What to do when both agents failed: the contact is told, an attendant is
/// called, the conversation is marked, and a note names the run and says why. The
/// message may fail without stopping the rest.
pub open spec fn failure_script(
    fallback_team_id: i64,
    run_id: RunId,
    error: Seq<char>,
) -> Seq<DeskStepV> {
    seq![DeskStepV::Call(DeskCallV::SendMessage(DEGRADATION_TEXT@), false)] + must_calls(
        handoff_calls(fallback_team_id, None),
    ) + seq![
        DeskStepV::MarkFailed,
        DeskStepV::Call(
            DeskCallV::SendPrivateNote(
                "degradacao tecnica — run_id: "@ + hyphenated(run_id.0 as int) + " — erro: "@
                    + error,
            ),
            true,
        ),
    ]
}

/// What to do when both agents failed.
pub fn degrade_on_failure(fallback_team_id: i64, run_id: RunId, error: &str) -> (r: Vec<DeskStep>)
    ensures
        steps_of(r@) == failure_script(fallback_team_id, run_id, error@),
{
    let mut script: Vec<DeskStep> = Vec::new();
    script.push(
        DeskStep::Call { call: DeskCall::SendMessage(DEGRADATION_TEXT.to_string()), must: false },
    );
    assert(steps_of(script@) =~= seq![
        DeskStepV::Call(DeskCallV::SendMessage(DEGRADATION_TEXT@), false),
    ]);
    push_calls(&mut script, handoff(fallback_team_id, None));
    script.push(DeskStep::MarkFailed);
    let mut note = "degradacao tecnica — run_id: ".to_string();
    note.append(run_id.to_string().as_str());
    note.append(" — erro: ");
    note.append(error);
    script.push(DeskStep::Call { call: DeskCall::SendPrivateNote(note), must: true });
    assert(steps_of(script@) =~= failure_script(fallback_team_id, run_id, error@));
    script
}

// ---------------------------------------------------------------------------
// Laws
// ---------------------------------------------------------------------------

/// Adding labels never loses one: those that were there stay, in their places.
pub proof fn law_adding_keeps_labels(current: Seq<Seq<char>>, add: Seq<Seq<char>>)
    ensures
        labels_union(current, add).len() >= current.len(),
        labels_union(current, add).take(current.len() as int) == current,
    decreases add.len(),
{
    if add.len() > 0 {
        law_adding_keeps_labels(current, add.drop_last());
        let u = labels_union(current, add.drop_last());
        assert(u.push(add.last()).take(current.len() as int) =~= u.take(current.len() as int));
    } else {
        assert(current.take(current.len() as int) =~= current);
    }
}

/// After adding, every added label is there.
pub proof fn law_added_labels_are_there(current: Seq<Seq<char>>, add: Seq<Seq<char>>, k: int)
    requires
        0 <= k < add.len(),
    ensures
        same_label_in(labels_union(current, add), add[k]),
    decreases add.len(),
{
    let u = labels_union(current, add.drop_last());
    if k < add.len() - 1 {
        law_added_labels_are_there(current, add.drop_last(), k);
        assert(add.drop_last()[k] == add[k]);
        let i = choose|i: int| 0 <= i < u.len() && same_ascii_case_folded(#[trigger] u[i], add[k]);
        let w = labels_union(current, add);
        assert(w[i] == u[i]);
    } else if !same_label_in(u, add.last()) {
        let w = u.push(add.last());
        assert(w[u.len() as int] == add.last());
        assert(same_ascii_case_folded(w[u.len() as int], add[k]));
    }
}

/// Adding the same labels again changes nothing.
pub proof fn law_adding_twice_is_adding_once(current: Seq<Seq<char>>, add: Seq<Seq<char>>)
    ensures
        labels_union(labels_union(current, add), add) == labels_union(current, add),
{
    assert(add.take(add.len() as int) =~= add);
    lemma_union_of_present(labels_union(current, add), current, add, add);
}

proof fn lemma_union_of_present(
    held: Seq<Seq<char>>,
    current: Seq<Seq<char>>,
    add: Seq<Seq<char>>,
    part: Seq<Seq<char>>,
)
    requires
        held == labels_union(current, add),
        part.len() <= add.len(),
        part == add.take(part.len() as int),
    ensures
        labels_union(held, part) == held,
    decreases part.len(),
{
    if part.len() > 0 {
        assert(part.drop_last() =~= add.take(part.len() - 1));
        lemma_union_of_present(held, current, add, part.drop_last());
        law_added_labels_are_there(current, add, part.len() - 1);
        assert(part.last() == add[part.len() - 1]);
    }
}

/// After removing, no removed label is left, and every other label is.
pub proof fn law_removed_labels_are_gone(
    current: Seq<Seq<char>>,
    remove: Seq<Seq<char>>,
    l: Seq<char>,
)
    ensures
        labels_without(current, remove).contains(l) == (current.contains(l) && !same_label_in(
            remove,
            l,
        )),
{
    let p = |x: Seq<char>| !same_label_in(remove, x);
    if labels_without(current, remove).contains(l) {
        current.lemma_filter_contains_rev(p, l);
        let k = choose|k: int|
            0 <= k < labels_without(current, remove).len() && labels_without(current, remove)[k]
                == l;
        current.lemma_filter_pred(p, k);
    }
    if current.contains(l) && !same_label_in(remove, l) {
        let i = choose|i: int| 0 <= i < current.len() && current[i] == l;
        current.lemma_filter_contains(p, i);
    }
}

/// Whether a step resolves the conversation.
pub open spec fn is_resolution(s: DeskStepV) -> bool {
    s matches DeskStepV::Call(DeskCallV::ToggleStatus(t), _) && same_ascii_case_folded(
        t,
        "resolved"@,
    )
}

/// A status that is open, pending or snoozed is not resolved.
proof fn lemma_statuses(s: Seq<char>)
    requires
        same_ascii_case_folded(s, "open"@) || same_ascii_case_folded(s, "pending"@)
            || same_ascii_case_folded(s, "snoozed"@),
    ensures
        !same_ascii_case_folded(s, "resolved"@),
{
    reveal_strlit("snoozed");
    reveal_strlit("open");
    reveal_strlit("pending");
    reveal_strlit("resolved");
    assert(ascii_lowered("snoozed"@).len() == 7);
    assert(ascii_lowered("open"@).len() == 4);
    assert(ascii_lowered("pending"@).len() == 7);
    assert(ascii_lowered("resolved"@).len() == 8);
}

/// No script resolves the conversation.
pub proof fn law_no_script_resolves(
    r: ReviewedResponse,
    fallback_team_id: i64,
    run_id: RunId,
    error: Seq<char>,
)
    ensures
        forall|i: int|
            0 <= i < answer_script(r, fallback_team_id).len() ==> !is_resolution(
                #[trigger] answer_script(r, fallback_team_id)[i],
            ),
        forall|i: int|
            0 <= i < failure_script(fallback_team_id, run_id, error).len() ==> !is_resolution(
                #[trigger] failure_script(fallback_team_id, run_id, error)[i],
            ),
{
    lemma_statuses("open"@);
    let head = message_steps(r);
    let acts = all_action_steps(actions_of(r.actions@));
    let s = answer_script(r, fallback_team_id);
    lemma_action_steps(actions_of(r.actions@));
    assert forall|i: int| 0 <= i < s.len() implies !is_resolution(#[trigger] s[i]) by {
        if head.len() <= i < head.len() + acts.len() {
            assert(s[i] == acts[i - head.len()]);
        }
    }
}

/// Whether a step sends a message to the contact.
pub open spec fn is_message(s: DeskStepV) -> bool {
    s matches DeskStepV::Call(c, _) && c is SendMessage
}

/// No action sends a message to the contact: only the reply does, as the first
/// step of the script.
pub proof fn law_only_the_reply_is_a_message(
    r: ReviewedResponse,
    fallback_team_id: i64,
    i: int,
)
    requires
        0 <= i < answer_script(r, fallback_team_id).len(),
        is_message(answer_script(r, fallback_team_id)[i]),
    ensures
        i == 0,
        message_to_send(r) is Some,
        answer_script(r, fallback_team_id)[0] == DeskStepV::Call(
            DeskCallV::SendMessage(message_to_send(r)->Some_0),
            true,
        ),
{
    let head = message_steps(r);
    let acts = all_action_steps(actions_of(r.actions@));
    lemma_action_steps(actions_of(r.actions@));
    if head.len() <= i < head.len() + acts.len() {
        assert(answer_script(r, fallback_team_id)[i] == acts[i - head.len()]);
    }
}

/// What holds of every step for an action: it sends nothing to the contact,
/// writes no labels unread, resolves nothing, and may fail.
pub open spec fn small_step(s: DeskStepV) -> bool {
    &&& !is_message(s)
    &&& !(s matches DeskStepV::Call(c, _) && c is SetLabels)
    &&& !is_resolution(s)
    &&& !must_succeed(s)
}

proof fn lemma_action_steps(v: Seq<ActionV>)
    ensures
        forall|k: int|
            0 <= k < all_action_steps(v).len() ==> small_step(#[trigger] all_action_steps(v)[k]),
    decreases v.len(),
{
    if v.len() > 0 {
        lemma_action_steps(v.drop_last());
        lemma_statuses("snoozed"@);
        if let Some(s) = v.last().status {
            if same_ascii_case_folded(s, "open"@) || same_ascii_case_folded(s, "pending"@) {
                lemma_statuses(s);
            }
        }
        let rest = all_action_steps(v.drop_last());
        assert forall|k: int| 0 <= k < all_action_steps(v).len() implies small_step(
            #[trigger] all_action_steps(v)[k],
        ) by {
            if k < rest.len() {
                assert(all_action_steps(v)[k] == rest[k]);
            } else {
                assert(all_action_steps(v)[k] == action_steps(v.last())[k - rest.len()]);
            }
        }
    }
}

/// No script writes labels that it has not read.
pub proof fn law_scripts_read_labels_first(
    r: ReviewedResponse,
    fallback_team_id: i64,
    run_id: RunId,
    error: Seq<char>,
)
    ensures
        reads_first(answer_script(r, fallback_team_id)),
        reads_first(failure_script(fallback_team_id, run_id, error)),
{
    let head = message_steps(r);
    let acts = all_action_steps(actions_of(r.actions@));
    let s = answer_script(r, fallback_team_id);
    lemma_action_steps(actions_of(r.actions@));
    assert forall|i: int| 0 <= i < s.len() implies !((#[trigger] s[i]) matches DeskStepV::Call(
        c,
        _,
    ) && c is SetLabels) by {
        if head.len() <= i < head.len() + acts.len() {
            assert(s[i] == acts[i - head.len()]);
        }
    }
}

/// What is done for an action is of its own kind and carries its own argument: a
/// team is assigned only where the action assigns that team, an attendant only
/// where it assigns that attendant, and so on for priority, status, attributes,
/// labels and notes. Nothing else comes of an action.
pub proof fn law_each_action_does_its_own_thing(a: Action, r: Option<DeskStep>)
    requires
        call_ensures(apply_action, (&a,), r),
    ensures
        r matches Some(s) ==> (match s@ {
            DeskStepV::Call(c, must) => !must && (match c {
                DeskCallV::AssignTeam(n) => a.kind is AssignTeam && a.team_id == Some(n),
                DeskCallV::AssignAgent(n) => a.kind is AssignAgent && a.agent_id is Some
                    && parsed_int(a.agent_id->Some_0@) == Some(n as int),
                DeskCallV::SetPriority(p) => a.kind is SetPriority && opt_text(a.priority) == Some(
                    p,
                ),
                DeskCallV::ToggleStatus(t) => (a.kind is SetStatus && opt_text(a.status) == Some(t)
                    && (same_ascii_case_folded(t, "open"@) || same_ascii_case_folded(
                    t,
                    "pending"@,
                ))) || (a.kind is Snooze && t == "snoozed"@),
                DeskCallV::UpdateCustomAttributes(j) => a.kind is SetCustomAttributes && j
                    == a.attributes@,
                DeskCallV::SendPrivateNote(n) => (a.kind is SendPrivateNote && n == (
                match a.reason {
                    Some(why) => why@,
                    None => "nota interna da IA"@,
                })) || ((a.kind is CallTool || a.kind is CallAgent) && n == "acao "@ + kind_name(
                    a.kind,
                ) + " pendente (Fase 3)"@),
                _ => false,
            }),
            DeskStepV::AddLabels(l) => a.kind is AddLabels && l == texts(a.labels@),
            DeskStepV::RemoveLabels(l) => a.kind is RemoveLabels && l == texts(a.labels@),
            _ => false,
        }),
{
    if let Some(s) = r {
        assert(action_steps(a@)[0] == s@);
    }
}

/// An action that says what it needs is carried out: an attendant who is named is
/// assigned, a team is, a priority and a status are set, and so on.
pub proof fn law_complete_actions_are_carried_out(a: Action, r: Option<DeskStep>)
    requires
        call_ensures(apply_action, (&a,), r),
    ensures
        a.kind is AssignTeam && a.team_id is Some ==> (r matches Some(s) && s@ == DeskStepV::Call(
            DeskCallV::AssignTeam(a.team_id->Some_0),
            false,
        )),
        a.kind is AssignAgent ==> forall|n: i64|
            opt_text(a.agent_id) == Some(#[trigger] int_text(n as int)) ==> (r matches Some(s)
                && s@ == DeskStepV::Call(DeskCallV::AssignAgent(n), false)),
        a.kind is SetPriority && a.priority is Some ==> (r matches Some(s) && s@ == DeskStepV::Call(
            DeskCallV::SetPriority(a.priority->Some_0@),
            false,
        )),
        a.kind is SetStatus && (opt_text(a.status) == Some("open"@) || opt_text(a.status) == Some(
            "pending"@,
        )) ==> (r matches Some(s) && s@ == DeskStepV::Call(
            DeskCallV::ToggleStatus(a.status->Some_0@),
            false,
        )),
        a.kind is Snooze ==> (r matches Some(s) && s@ == DeskStepV::Call(
            DeskCallV::ToggleStatus("snoozed"@),
            false,
        )),
        a.kind is SetCustomAttributes ==> (r matches Some(s) && s@ == DeskStepV::Call(
            DeskCallV::UpdateCustomAttributes(a.attributes@),
            false,
        )),
        a.kind is SendPrivateNote && a.reason is Some ==> (r matches Some(s) && s@
            == DeskStepV::Call(DeskCallV::SendPrivateNote(a.reason->Some_0@), false)),
        a.kind is AddLabels ==> (r matches Some(s) && s@ == DeskStepV::AddLabels(texts(a.labels@))),
        a.kind is RemoveLabels ==> (r matches Some(s) && s@ == DeskStepV::RemoveLabels(
            texts(a.labels@),
        )),
        a.kind is SendMessage || a.kind is RequestHandoff ==> r is None,
{
    let steps = action_steps(a@);
    if let Some(s) = r {
        assert(steps[0] == s@);
    } else {
        assert(steps.len() == 0);
    }
    assert forall|n: i64| a.kind is AssignAgent && opt_text(a.agent_id) == Some(
        #[trigger] int_text(n as int),
    ) implies (r matches Some(s) && s@ == DeskStepV::Call(DeskCallV::AssignAgent(n), false)) by {
        text::law_numbers_read_back(n as int);
        assert(direct_call(a@) == Some(DeskCallV::AssignAgent(n)));
    }
}

proof fn lemma_step_of_an_action(v: Seq<ActionV>, k: int) -> (i: int)
    requires
        0 <= k < all_action_steps(v).len(),
    ensures
        0 <= i < v.len(),
        action_steps(v[i]).contains(all_action_steps(v)[k]),
    decreases v.len(),
{
    let rest = all_action_steps(v.drop_last());
    if k < rest.len() {
        let i = lemma_step_of_an_action(v.drop_last(), k);
        assert(all_action_steps(v)[k] == rest[k]);
        i
    } else {
        let last = action_steps(v.last());
        assert(all_action_steps(v)[k] == last[k - rest.len()]);
        v.len() - 1
    }
}

/// In the script of an answer a team is assigned only by an action that assigns
/// that team, or by the hand-off, which assigns the fallback team; an attendant
/// only by an action that assigns that attendant.
pub proof fn law_teams_and_attendants_are_assigned_as_asked(
    x: ReviewedResponse,
    fallback_team_id: i64,
    r: Vec<DeskStep>,
    k: int,
)
    requires
        call_ensures(apply, (&x, fallback_team_id), r),
        0 <= k < r@.len(),
    ensures
        r@[k]@ matches DeskStepV::Call(DeskCallV::AssignTeam(n), must) ==> if must {
            n == fallback_team_id && (x.handoff_required || exists|i: int|
                0 <= i < x.actions@.len() && (#[trigger] x.actions@[i]).kind is RequestHandoff)
        } else {
            exists|i: int|
                0 <= i < x.actions@.len() && (#[trigger] x.actions@[i]).kind is AssignTeam
                    && x.actions@[i].team_id == Some(n)
        },
        r@[k]@ matches DeskStepV::Call(DeskCallV::AssignAgent(n), _) ==> exists|i: int|
            0 <= i < x.actions@.len() && (#[trigger] x.actions@[i]).kind is AssignAgent
                && x.actions@[i].agent_id is Some && parsed_int(x.actions@[i].agent_id->Some_0@)
                == Some(n as int),
{
    let s = answer_script(x, fallback_team_id);
    assert(steps_of(r@).len() == r@.len());
    assert(s[k] == r@[k]@);
    let head = message_steps(x);
    let v = actions_of(x.actions@);
    let acts = all_action_steps(v);
    if head.len() <= k < head.len() + acts.len() {
        assert(s[k] == acts[k - head.len()]);
        lemma_action_steps(v);
        let i = lemma_step_of_an_action(v, k - head.len());
        assert(v[i] == x.actions@[i]@);
        let steps = action_steps(v[i]);
        let j = choose|j: int| 0 <= j < steps.len() && steps[j] == acts[k - head.len()];
        assert(j == 0);
        assert(x.actions@[i].kind == v[i].kind);
    } else if k >= head.len() + acts.len() {
        let calls = handoff_calls(fallback_team_id, opt_text(x.handoff_reason));
        assert(hands_over(x));
        assert(s[k] == must_calls(calls)[k - head.len() - acts.len()]);
    }
}

/// What an answer asks for is done in the order in which it asks, whatever comes
/// before or after.
pub proof fn law_actions_are_done_in_order(v: Seq<ActionV>, w: Seq<ActionV>)
    ensures
        all_action_steps(v + w) == all_action_steps(v) + all_action_steps(w),
        forall|a: ActionV| #[trigger] all_action_steps(seq![a]) == action_steps(a),
    decreases w.len(),
{
    assert forall|a: ActionV| #[trigger] all_action_steps(seq![a]) == action_steps(a) by {
        assert(seq![a].drop_last() =~= Seq::<ActionV>::empty());
        assert(seq![a].last() == a);
        assert(all_action_steps(Seq::<ActionV>::empty()) =~= Seq::<DeskStepV>::empty());
        assert(all_action_steps(seq![a]) =~= action_steps(a));
    }
    if w.len() == 0 {
        assert(v + w =~= v);
        assert(all_action_steps(v) + all_action_steps(w) =~= all_action_steps(v));
    } else {
        law_actions_are_done_in_order(v, w.drop_last());
        assert((v + w).drop_last() =~= v + w.drop_last());
        assert((v + w).last() == w.last());
        assert(all_action_steps(v) + all_action_steps(w.drop_last()) + action_steps(w.last())
            =~= all_action_steps(v) + all_action_steps(w));
    }
}

/// Every action that needs a step has it in the script of the answer.
pub proof fn law_no_action_is_left_out(
    x: ReviewedResponse,
    fallback_team_id: i64,
    r: Vec<DeskStep>,
    i: int,
    step: DeskStep,
)
    requires
        call_ensures(apply, (&x, fallback_team_id), r),
        0 <= i < x.actions@.len(),
        call_ensures(apply_action, (&x.actions@[i],), Some(step)),
    ensures
        steps_of(r@).contains(step@),
{
    let v = actions_of(x.actions@);
    let a = v[i];
    assert(a == x.actions@[i]@);
    assert(action_steps(a)[0] == step@);
    law_actions_are_done_in_order(v.take(i), v.skip(i));
    law_actions_are_done_in_order(seq![a], v.skip(i + 1));
    assert(v.take(i) + v.skip(i) =~= v);
    assert(seq![a] + v.skip(i + 1) =~= v.skip(i));
    let acts = all_action_steps(v);
    let k = all_action_steps(v.take(i)).len() as int;
    assert(all_action_steps(v.skip(i)) == action_steps(a) + all_action_steps(v.skip(i + 1)));
    assert(acts[k] == step@);
    let head = message_steps(x);
    assert(steps_of(r@)[head.len() + k] == acts[k]);
}

/// A hand-off opens the conversation, gives it to the fallback team, and leaves a
/// note where a reason is known. Each of its calls must succeed.
pub proof fn law_handoffs_open_and_assign(
    x: ReviewedResponse,
    fallback_team_id: i64,
    r: Vec<DeskStep>,
)
    requires
        call_ensures(apply, (&x, fallback_team_id), r),
        x.handoff_required || exists|i: int|
            0 <= i < x.actions@.len() && (#[trigger] x.actions@[i]).kind is RequestHandoff,
    ensures
        ({
            let n = r@.len() as int;
            let s = steps_of(r@);
            let from = if x.handoff_reason is Some {
                n - 3
            } else {
                n - 2
            };
            &&& from >= 0
            &&& s[from] == DeskStepV::Call(DeskCallV::ToggleStatus("open"@), true)
            &&& s[from + 1] == DeskStepV::Call(DeskCallV::AssignTeam(fallback_team_id), true)
            &&& x.handoff_reason matches Some(why) ==> s[n - 1] == DeskStepV::Call(
                DeskCallV::SendPrivateNote("handoff solicitado pela IA: "@ + why@),
                true,
            )
        }),
{
    let s = answer_script(x, fallback_team_id);
    let head = message_steps(x) + all_action_steps(actions_of(x.actions@));
    let tail = must_calls(handoff_calls(fallback_team_id, opt_text(x.handoff_reason)));
    assert(s =~= head + tail);
    assert(steps_of(r@).len() == r@.len());
    assert(tail.len() == if x.handoff_reason is Some {
        3int
    } else {
        2int
    });
    let at = head.len() as int;
    assert(s[at] == tail[0] && s[at + 1] == tail[1]);
    if x.handoff_reason is Some {
        assert(s[at + 2] == tail[2]);
    }
}

/// The reply goes out first, unless it is blank or blocked; then nothing goes to
/// the contact.
pub proof fn law_the_reply_goes_out(x: ReviewedResponse, fallback_team_id: i64, r: Vec<DeskStep>)
    requires
        call_ensures(apply, (&x, fallback_team_id), r),
    ensures
        !x.blocked && x.reply is Some && (exists|i: int|
            0 <= i < x.reply->Some_0.text@.len() && !text::white(
                #[trigger] x.reply->Some_0.text@[i],
            )) ==> r@.len() >= 2 && r@[0]@ == DeskStepV::Call(
            DeskCallV::SendMessage(x.reply->Some_0.text@),
            true,
        ) && r@[1]@ == DeskStepV::Remember(x.reply->Some_0.text@),
        x.blocked || x.reply is None ==> forall|k: int|
            0 <= k < r@.len() ==> !is_message((#[trigger] r@[k])@),
{
    let s = answer_script(x, fallback_team_id);
    assert(steps_of(r@).len() == r@.len());
    assert forall|k: int| 0 <= k < r@.len() implies (#[trigger] r@[k])@ == s[k] by {
        assert(steps_of(r@)[k] == r@[k]@);
    }
    if x.reply is Some {
        text::law_blank_means_white_only(x.reply->Some_0.text@);
    }
    let head = message_steps(x);
    if head.len() > 0 {
        assert(s[0] == head[0] && s[1] == head[1]);
    }
    if x.blocked || x.reply is None {
        assert forall|k: int| 0 <= k < r@.len() implies !is_message((#[trigger] r@[k])@) by {
            if is_message(r@[k]@) {
                law_only_the_reply_is_a_message(x, fallback_team_id, k);
            }
        }
    }
}

/// When both agents failed the contact hears of it first, the conversation is
/// opened and given to the fallback team, it is marked, and the last step is a
/// note with the run and the error. Only the word to the contact may fail.
pub proof fn law_failures_reach_an_attendant(
    fallback_team_id: i64,
    run_id: RunId,
    error: &str,
    r: Vec<DeskStep>,
)
    requires
        call_ensures(degrade_on_failure, (fallback_team_id, run_id, error), r),
    ensures
        r@.len() == 5,
        r@[0]@ matches DeskStepV::Call(DeskCallV::SendMessage(_), must) && !must,
        r@[1]@ == DeskStepV::Call(DeskCallV::ToggleStatus("open"@), true),
        r@[2]@ == DeskStepV::Call(DeskCallV::AssignTeam(fallback_team_id), true),
        r@[3]@ is MarkFailed,
        r@[4]@ matches DeskStepV::Call(DeskCallV::SendPrivateNote(n), must) && must
            && text::has_text(n, error@) && text::has_text(n, hyphenated(run_id.0 as int)),
{
    let s = failure_script(fallback_team_id, run_id, error@);
    assert(steps_of(r@).len() == r@.len());
    assert(s.len() == 5);
    assert forall|k: int| 0 <= k < 5 implies (#[trigger] r@[k])@ == s[k] by {
        assert(steps_of(r@)[k] == r@[k]@);
    }
    let a = "degradacao tecnica — run_id: "@;
    let b = hyphenated(run_id.0 as int);
    let c = " — erro: "@;
    let n = a + b + c + error@;
    let i = a.len() as int;
    let j = (a.len() + b.len() + c.len()) as int;
    assert(n.subrange(i, i + b.len()) =~= b);
    assert(text::stands_at(n, b, i));
    assert(n.subrange(j, n.len() as int) =~= error@);
    assert(text::stands_at(n, error@, j));
    assert(s[4] == DeskStepV::Call(DeskCallV::SendPrivateNote(n), true));
}

/// Adding labels adds no other: each label of the result was there or was to be
/// added.
pub proof fn law_adding_invents_no_label(
    current: Seq<Seq<char>>,
    add: Seq<Seq<char>>,
    l: Seq<char>,
)
    requires
        labels_union(current, add).contains(l),
    ensures
        current.contains(l) || add.contains(l),
    decreases add.len(),
{
    if add.len() > 0 {
        let u = labels_union(current, add.drop_last());
        if u.contains(l) {
            law_adding_invents_no_label(current, add.drop_last(), l);
            if add.drop_last().contains(l) {
                let i = choose|i: int| 0 <= i < add.drop_last().len() && add.drop_last()[i] == l;
                assert(add[i] == l);
            }
        } else {
            let w = labels_union(current, add);
            let k = choose|k: int| 0 <= k < w.len() && w[k] == l;
            if k < u.len() {
                assert(u[k] == l);
            }
            assert(add.last() == l);
            assert(add[add.len() - 1] == l);
        }
    }
}

/// Adding labels keeps those that are there, in their places, and adds the
/// others; removing takes away just those that are named.
pub proof fn law_labels_are_added_and_removed(
    current: Vec<String>,
    change: Vec<String>,
    i: int,
    k: int,
    more: Vec<String>,
    fewer: Vec<String>,
)
    requires
        call_ensures(merge_labels, (current, &change), more),
        call_ensures(prune_labels, (current, &change), fewer),
        0 <= i < current@.len(),
        0 <= k < change@.len(),
    ensures
        more@.len() >= current@.len() && more@[i]@ == current@[i]@,
        same_label_in(texts(more@), change@[k]@),
        texts(fewer@).contains(current@[i]@) <==> !same_label_in(texts(change@), current@[i]@),
        !texts(fewer@).contains(change@[k]@),
{
    let c = texts(current@);
    let d = texts(change@);
    assert(c[i] == current@[i]@ && d[k] == change@[k]@);
    law_adding_keeps_labels(c, d);
    law_added_labels_are_there(c, d, k);
    law_removed_labels_are_gone(c, d, c[i]);
    law_removed_labels_are_gone(c, d, d[k]);
    assert(texts(more@).len() == more@.len() && c.len() == current@.len());
    assert(texts(more@).take(c.len() as int)[i] == c[i]);
    assert(texts(more@)[i] == more@[i]@);
    assert(c.contains(c[i]));
    assert(text::same_ascii_case_folded(d[k], d[k]));
}

/// The mark of a failed run is added once: not where it stands already, in
/// letters of any case.
pub proof fn law_failed_runs_are_marked_once(
    current: Vec<String>,
    i: int,
    r: Option<Vec<String>>,
)
    requires
        call_ensures(failure_labels, (current,), r),
        0 <= i < current@.len(),
    ensures
        text::same_ascii_case_folded(current@[i]@, "ia:falha"@) ==> r is None,
        r matches Some(v) ==> v@.len() == current@.len() + 1 && v@[i]@ == current@[i]@
            && v@.last()@ == "ia:falha"@,
{
    let c = texts(current@);
    assert(c[i] == current@[i]@);
    if let Some(v) = r {
        assert(texts(v@).len() == v@.len() && c.len() == current@.len());
        assert(texts(v@)[i] == v@[i]@ && texts(v@)[v@.len() - 1] == v@[v@.len() - 1]@);
    }
}

} // verus!
