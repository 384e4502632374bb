//! Scripts: what to do on the help desk, step by step.
//!
//! A step that writes labels reads them first, so that a write never loses one;
//! where they cannot be read, none are written.
//! A step that need not succeed stops no other.
use crate::text::texts;
use crate::worker::apply_actions::{
    failure_labels, labels_union, labels_without, merge_labels, prune_labels, DeskCall, DeskCallV,
};
use crate::same_label_in;
use vstd::prelude::*;

verus! {

/// A step of a script.
#[derive(Debug)]
pub enum DeskStep {
    /// A call. Where it must succeed, its failure ends the script.
    Call { call: DeskCall, must: bool },
    /// Keep the text that went to the contact.
    Remember(String),
    /// Read the labels, then write the union with these.
    AddLabels(Vec<String>),
    /// Read the labels, then write those that are not named here.
    RemoveLabels(Vec<String>),
    /// Read the labels, then write them with the label of failures, unless it is
    /// there.
    MarkFailed,
}

/// What a step says.
pub enum DeskStepV {
    Call(DeskCallV, bool),
    Remember(Seq<char>),
    AddLabels(Seq<Seq<char>>),
    RemoveLabels(Seq<Seq<char>>),
    MarkFailed,
}

impl View for DeskStep {
    type V = DeskStepV;

    open spec fn view(&self) -> DeskStepV {
        match self {
            DeskStep::Call { call, must } => DeskStepV::Call(call@, *must),
            DeskStep::Remember(s) => DeskStepV::Remember(s@),
            DeskStep::AddLabels(v) => DeskStepV::AddLabels(texts(v@)),
            DeskStep::RemoveLabels(v) => DeskStepV::RemoveLabels(texts(v@)),
            DeskStep::MarkFailed => DeskStepV::MarkFailed,
        }
    }
}

/// What the steps of a script say.
pub open spec fn steps_of(v: Seq<DeskStep>) -> Seq<DeskStepV> {
    v.map_values(|s: DeskStep| s@)
}

/// Whether a step has to succeed: where its call fails, the script ends.
pub open spec fn must_succeed(s: DeskStepV) -> bool {
    match s {
        DeskStepV::Call(_, must) => must,
        DeskStepV::MarkFailed => true,
        _ => false,
    }
}

/// Where a script stands.
#[derive(Debug, Clone, Copy, PartialEq, Eq, Structural)]
pub enum ScriptStage {
    Ready,
    /// Waits for the labels that the step of this index needs.
    Reading(usize),
    /// Waits for the end of the step of this index.
    Doing(usize),
    /// It is over; `ok` where no step that had to succeed failed.
    Over { ok: bool },
}

/// What the help desk says.
#[derive(Debug)]
pub enum ScriptEvent {
    Begin,
    Labels(Vec<String>),
    Done,
    Failed,
}

/// What is to be done.
#[derive(Debug)]
pub enum ScriptAction {
    Call(DeskCall),
    Remember(String),
    ReadLabels,
    /// Nothing more.
    Finish,
    /// The event does not belong to the stage.
    Ignore,
}

/// Whether stage and action are those that begin the step of an index, or end a
/// script that has no such step.
pub open spec fn starts(
    script: Seq<DeskStepV>,
    i: int,
    next: ScriptStage,
    action: ScriptAction,
) -> bool {
    if i >= script.len() {
        next == (ScriptStage::Over { ok: true }) && action is Finish
    } else {
        match script[i] {
            DeskStepV::Call(c, _) => next == ScriptStage::Doing(i as usize) && (action matches
                ScriptAction::Call(k) && k@ == c),
            DeskStepV::Remember(t) => next == ScriptStage::Doing(i as usize) && (action matches
                ScriptAction::Remember(s) && s@ == t),
            _ => next == ScriptStage::Reading(i as usize) && action is ReadLabels,
        }
    }
}

/// Whether the labels are written as the step of an index asks.
pub open spec fn writes(
    i: usize,
    labels: Seq<Seq<char>>,
    next: ScriptStage,
    action: ScriptAction,
) -> bool {
    next == ScriptStage::Doing(i) && (action matches ScriptAction::Call(k) && k@
        == DeskCallV::SetLabels(labels))
}

/// How a script goes on.
pub open spec fn script_moves(
    script: Seq<DeskStepV>,
    stage: ScriptStage,
    event: ScriptEvent,
    next: ScriptStage,
    action: ScriptAction,
) -> bool {
    match (stage, event) {
        (ScriptStage::Ready, ScriptEvent::Begin) => starts(script, 0, next, action),
        (ScriptStage::Reading(i), ScriptEvent::Labels(current)) if i < script.len() => {
            match script[i as int] {
                DeskStepV::AddLabels(add) => writes(
                    i,
                    labels_union(texts(current@), add),
                    next,
                    action,
                ),
                DeskStepV::RemoveLabels(remove) => writes(
                    i,
                    labels_without(texts(current@), remove),
                    next,
                    action,
                ),
                DeskStepV::MarkFailed => if same_label_in(texts(current@), "ia:falha"@) {
                    starts(script, i + 1, next, action)
                } else {
                    writes(i, texts(current@).push("ia:falha"@), next, action)
                },
                _ => next == stage && action is Ignore,
            }
        },
        (ScriptStage::Reading(i), ScriptEvent::Failed) if i < script.len() => starts(
            script,
            i + 1,
            next,
            action,
        ),
        (ScriptStage::Doing(i), ScriptEvent::Done) if i < script.len() => starts(
            script,
            i + 1,
            next,
            action,
        ),
        (ScriptStage::Doing(i), ScriptEvent::Failed) if i < script.len() => if must_succeed(
            script[i as int],
        ) {
            next == (ScriptStage::Over { ok: false }) && action is Finish
        } else {
            starts(script, i + 1, next, action)
        },
        _ => next == stage && action is Ignore,
    }
}

fn start(script: &Vec<DeskStep>, i: usize) -> (r: (ScriptStage, ScriptAction))
    ensures
        starts(steps_of(script@), i as int, r.0, r.1),
{
    assert(steps_of(script@).len() == script@.len());
    if i >= script.len() {
        return (ScriptStage::Over { ok: true }, ScriptAction::Finish);
    }
    assert(steps_of(script@)[i as int] == script@[i as int]@);
    match &script[i] {
        DeskStep::Call { call, .. } => (ScriptStage::Doing(i), ScriptAction::Call(call.copy())),
        DeskStep::Remember(s) => (ScriptStage::Doing(i), ScriptAction::Remember(s.clone())),
        _ => (ScriptStage::Reading(i), ScriptAction::ReadLabels),
    }
}

fn write_labels(i: usize, labels: Vec<String>) -> (r: (ScriptStage, ScriptAction))
    ensures
        writes(i, texts(labels@), r.0, r.1),
{
    (ScriptStage::Doing(i), ScriptAction::Call(DeskCall::SetLabels(labels)))
}

fn after_reading(script: &Vec<DeskStep>, i: usize, current: Vec<String>) -> (r: (
    ScriptStage,
    ScriptAction,
))
    requires
        i < script.len(),
    ensures
        script_moves(
            steps_of(script@),
            ScriptStage::Reading(i),
            ScriptEvent::Labels(current),
            r.0,
            r.1,
        ),
{
    assert(steps_of(script@)[i as int] == script@[i as int]@);
    match &script[i] {
        DeskStep::AddLabels(add) => write_labels(i, merge_labels(current, add)),
        DeskStep::RemoveLabels(remove) => write_labels(i, prune_labels(current, remove)),
        DeskStep::MarkFailed => match failure_labels(current) {
            Some(labels) => write_labels(i, labels),
            None => start(script, i + 1),
        },
        _ => (ScriptStage::Reading(i), ScriptAction::Ignore),
    }
}

fn after_failure(script: &Vec<DeskStep>, i: usize) -> (r: (ScriptStage, ScriptAction))
    requires
        i < script.len(),
    ensures
        script_moves(
            steps_of(script@),
            ScriptStage::Doing(i),
            ScriptEvent::Failed,
            r.0,
            r.1,
        ),
{
    assert(steps_of(script@)[i as int] == script@[i as int]@);
    match &script[i] {
        DeskStep::MarkFailed => (ScriptStage::Over { ok: false }, ScriptAction::Finish),
        DeskStep::Call { must, .. } => if *must {
            (ScriptStage::Over { ok: false }, ScriptAction::Finish)
        } else {
            start(script, i + 1)
        },
        _ => start(script, i + 1),
    }
}

/// How a script goes on.
pub fn play(script: &Vec<DeskStep>, stage: ScriptStage, event: ScriptEvent) -> (r: (
    ScriptStage,
    ScriptAction,
))
    ensures
        script_moves(steps_of(script@), stage, event, r.0, r.1),
{
    assert(steps_of(script@).len() == script@.len());
    match (stage, event) {
        (ScriptStage::Ready, ScriptEvent::Begin) => start(script, 0),
        (ScriptStage::Reading(i), ScriptEvent::Labels(current)) => if i < script.len() {
            after_reading(script, i, current)
        } else {
            (stage, ScriptAction::Ignore)
        },
        (ScriptStage::Reading(i), ScriptEvent::Failed) => if i < script.len() {
            start(script, i + 1)
        } else {
            (stage, ScriptAction::Ignore)
        },
        (ScriptStage::Doing(i), ScriptEvent::Done) => if i < script.len() {
            start(script, i + 1)
        } else {
            (stage, ScriptAction::Ignore)
        },
        (ScriptStage::Doing(i), ScriptEvent::Failed) => if i < script.len() {
            after_failure(script, i)
        } else {
            (stage, ScriptAction::Ignore)
        },
        _ => (stage, ScriptAction::Ignore),
    }
}

// ---------------------------------------------------------------------------
// Laws
// ---------------------------------------------------------------------------

/// Whether no step of a script writes labels without reading them.
pub open spec fn reads_first(script: Seq<DeskStepV>) -> bool {
    forall|i: int|
        0 <= i < script.len() ==> !((#[trigger] script[i]) matches DeskStepV::Call(c, _)
            && c is SetLabels)
}

/// Labels are written only once they were read, and adding loses none of them:
/// what is written begins with what was read.
pub proof fn law_labels_are_read_before_written(
    script: Seq<DeskStepV>,
    stage: ScriptStage,
    event: ScriptEvent,
    next: ScriptStage,
    action: ScriptAction,
    written: Seq<Seq<char>>,
)
    requires
        reads_first(script),
        script_moves(script, stage, event, next, action),
        action is Call,
        action->Call_0@ == DeskCallV::SetLabels(written),
    ensures
        stage is Reading,
        event is Labels,
        !(script[stage->Reading_0 as int] is RemoveLabels) ==> ({
            let current = texts(event->Labels_0@);
            written.len() >= current.len() && written.take(current.len() as int) == current
        }),
{
    assert(event is Labels);
    let current = texts(event->Labels_0@);
    let i = stage->Reading_0 as int;
    if script[i] is AddLabels {
        crate::worker::apply_actions::law_adding_keeps_labels(current, script[i]->AddLabels_0);
    }
    assert(current.push("ia:falha"@).take(current.len() as int) =~= current);
}

/// A step that need not succeed stops no other: the next one begins.
pub proof fn law_small_failures_stop_nothing(
    script: Seq<DeskStepV>,
    i: usize,
    next: ScriptStage,
    action: ScriptAction,
)
    requires
        i < script.len(),
        !must_succeed(script[i as int]),
        script_moves(script, ScriptStage::Doing(i), ScriptEvent::Failed, next, action),
    ensures
        starts(script, i + 1, next, action),
{
}

/// How much of a script lies ahead.
pub open spec fn script_ahead(script: Seq<DeskStepV>, s: ScriptStage) -> int {
    match s {
        ScriptStage::Ready => 2 * script.len() as int + 1,
        ScriptStage::Reading(i) => 2 * (script.len() - i),
        ScriptStage::Doing(i) => 2 * (script.len() - i) - 1,
        ScriptStage::Over { .. } => 0,
    }
}

/// A script never turns back, so it ends.
pub proof fn law_scripts_go_forward(
    script: Seq<DeskStepV>,
    stage: ScriptStage,
    event: ScriptEvent,
    next: ScriptStage,
    action: ScriptAction,
)
    requires
        script.len() <= usize::MAX,
        script_moves(script, stage, event, next, action),
        !(action is Ignore),
    ensures
        0 <= script_ahead(script, next) < script_ahead(script, stage),
{
}

/// The steps of a script are done in their order: once one is done the next one
/// begins, with the call or the text that it names, and after the last the
/// script ends well.
pub proof fn law_steps_follow_each_other(
    script: Vec<DeskStep>,
    i: usize,
    r: (ScriptStage, ScriptAction),
)
    requires
        i < script@.len(),
        call_ensures(play, (&script, ScriptStage::Doing(i), ScriptEvent::Done), r),
    ensures
        i + 1 == script@.len() ==> r.0 == (ScriptStage::Over { ok: true }) && r.1 is Finish,
        i + 1 < script@.len() ==> match script@[i + 1] {
            DeskStep::Call { call, must: _ } => r.0 == ScriptStage::Doing((i + 1) as usize)
                && r.1 is Call && r.1->Call_0@ == call@,
            DeskStep::Remember(t) => r.0 == ScriptStage::Doing((i + 1) as usize) && r.1 is Remember
                && r.1->Remember_0@ == t@,
            _ => r.0 == ScriptStage::Reading((i + 1) as usize) && r.1 is ReadLabels,
        },
{
    let s = steps_of(script@);
    assert(s.len() == script@.len());
    if i + 1 < script@.len() {
        assert(s[i + 1] == script@[i + 1]@);
    }
}

/// A script begins with its first step; one without steps is over at once.
pub proof fn law_scripts_begin_at_the_beginning(
    script: Vec<DeskStep>,
    r: (ScriptStage, ScriptAction),
)
    requires
        call_ensures(play, (&script, ScriptStage::Ready, ScriptEvent::Begin), r),
    ensures
        script@.len() == 0 ==> r.0 == (ScriptStage::Over { ok: true }) && r.1 is Finish,
        script@.len() > 0 ==> match script@[0] {
            DeskStep::Call { call, must: _ } => r.0 == ScriptStage::Doing(0) && r.1 is Call
                && r.1->Call_0@ == call@,
            DeskStep::Remember(t) => r.0 == ScriptStage::Doing(0) && r.1 is Remember
                && r.1->Remember_0@ == t@,
            _ => r.0 == ScriptStage::Reading(0) && r.1 is ReadLabels,
        },
{
    let s = steps_of(script@);
    assert(s.len() == script@.len());
    if script@.len() > 0 {
        assert(s[0] == script@[0]@);
    }
}

/// A failure ends a script only where the step had to succeed: a call that must,
/// or the label of failures. After any other the script goes on, as if the step
/// had been done.
pub proof fn law_only_what_must_succeed_ends_a_script(
    script: Vec<DeskStep>,
    i: usize,
    r: (ScriptStage, ScriptAction),
    done: (ScriptStage, ScriptAction),
)
    requires
        i < script@.len(),
        call_ensures(play, (&script, ScriptStage::Doing(i), ScriptEvent::Failed), r),
        call_ensures(play, (&script, ScriptStage::Doing(i), ScriptEvent::Done), done),
    ensures
        r.0 == (ScriptStage::Over { ok: false }) <==> (script@[i as int] is MarkFailed || (
        script@[i as int] matches DeskStep::Call { call: _, must } && must)),
        r.0 == (ScriptStage::Over { ok: false }) ==> r.1 is Finish,
        r.0 != (ScriptStage::Over { ok: false }) ==> r.0 == done.0,
{
    let s = steps_of(script@);
    assert(s.len() == script@.len());
    assert(s[i as int] == script@[i as int]@);
}

/// Labels that were read are written back with those to add, without those to
/// remove, or with the label of failures; where they could not be read, nothing
/// is written and the next step begins.
pub proof fn law_labels_are_written_as_asked(
    script: Vec<DeskStep>,
    i: usize,
    current: Vec<String>,
    r: (ScriptStage, ScriptAction),
    unread: (ScriptStage, ScriptAction),
    done: (ScriptStage, ScriptAction),
)
    requires
        i < script@.len(),
        call_ensures(play, (&script, ScriptStage::Reading(i), ScriptEvent::Labels(current)), r),
        call_ensures(play, (&script, ScriptStage::Reading(i), ScriptEvent::Failed), unread),
        call_ensures(play, (&script, ScriptStage::Doing(i), ScriptEvent::Done), done),
    ensures
        script@[i as int] matches DeskStep::AddLabels(add) ==> r.0 == ScriptStage::Doing(i)
            && r.1 is Call && r.1->Call_0@ == DeskCallV::SetLabels(
            labels_union(texts(current@), texts(add@)),
        ),
        script@[i as int] matches DeskStep::RemoveLabels(gone) ==> r.0 == ScriptStage::Doing(i)
            && r.1 is Call && r.1->Call_0@ == DeskCallV::SetLabels(
            labels_without(texts(current@), texts(gone@)),
        ),
        script@[i as int] is MarkFailed && !same_label_in(texts(current@), "ia:falha"@) ==> r.0
            == ScriptStage::Doing(i) && r.1 is Call && r.1->Call_0@ == DeskCallV::SetLabels(
            texts(current@).push("ia:falha"@),
        ),
        script@[i as int] is MarkFailed && same_label_in(texts(current@), "ia:falha"@) ==> r.0
            == done.0 && !(r.1 is Ignore),
        unread.0 == done.0,
        !(unread.1 matches ScriptAction::Call(c) && c@ is SetLabels && i + 1 < script@.len() && !(
        script@[i + 1] is Call)),
{
    let s = steps_of(script@);
    assert(s.len() == script@.len());
    assert(s[i as int] == script@[i as int]@);
    if i + 1 < script@.len() {
        assert(s[i + 1] == script@[i + 1]@);
    }
}

} // verus!
