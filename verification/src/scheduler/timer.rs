//! A timer that came due.
//!
//! The work on a timer goes through fixed stages. At each one the world says
//! something (the clock, the row of the conversation, whether a notification
//! went out, ...), and the next action follows.
use crate::notify::Notification;
use crate::scheduler::notice::{notice, notice_of, recipient, recipient_of, ConvStateRow};
use crate::scheduler::sla::{
    channels_at, clamp_level, escalation_step, names_of, on_ladder,
};
use crate::text;
use crate::text::{opt_str, texts};
use vstd::prelude::*;

verus! {

/// A timer that came due, and what the work on it needs to know.
#[derive(Debug, Clone)]
pub struct DueTimer {
    pub conversation_id: i64,
    /// The stored level.
    pub escalation_level: i16,
    /// The channel over which notifications go out.
    pub own_channel: &'static str,
    /// Where the help desk is.
    pub base_url: String,
    /// Notifications to one recipient within an hour.
    pub max_per_hour: u32,
}

/// The level of a timer, within the ladder.
pub open spec fn level_of(t: DueTimer) -> i16 {
    on_ladder(t.escalation_level)
}

/// Where the work on a timer stands.
#[derive(Debug)]
pub enum TimerStage {
    /// Waits for the clock.
    Opening,
    /// Waits for the row of the conversation.
    Loading,
    /// Waits for the log: what became of this level before?
    Checking(ConvStateRow),
    /// Waits for the number of notifications of the last hour.
    Counting(ConvStateRow),
    /// Waits for the name of the contact.
    Naming(ConvStateRow),
    /// Waits for the end of a delivery over the channel of this index.
    Sending { notification: Notification, index: usize, sent: bool },
    /// Waits until the channel of this index is written into the log.
    Recording { notification: Notification, index: usize, sent: bool },
    Over,
}

/// What the world says.
#[derive(Debug)]
pub enum TimerEvent {
    Clock { business: bool, quiet: bool },
    State(Option<ConvStateRow>),
    /// What the log says of the channels of the level, one state for each that
    /// was written into it.
    Logged(Vec<String>),
    LastHour(i64),
    Name(String),
    Delivered(bool),
    Recorded,
}

/// What is to be done.
#[derive(Debug)]
pub enum TimerAction {
    /// Nothing more: the timer stays armed.
    Stop,
    LoadState,
    /// Cancel the timer for this reason.
    Cancel(&'static str),
    /// Look up what the log says of this level.
    FindLog { level: i16 },
    CountLastHour { recipient: String },
    FetchName { contact_id: i64 },
    /// Send the notification over the own channel.
    Deliver,
    /// Write into the log what became of a channel.
    Record { channel: &'static str, state: &'static str },
    /// Go on to the next level.
    Advance { level: i16 },
    /// The event does not belong to the stage.
    Ignore,
}

/// Whether the conversation is in the hands of an attendant or closed.
pub open spec fn settled(s: ConvStateRow) -> bool {
    s.ai_state@ == "closed"@ || s.ai_state@ == "human_handling"@
}

/// Whether a level was told, by what the log says of a channel: it was sent.
/// A channel that failed or is still to come told nobody.
pub fn counts_as_told(state: Option<&str>) -> (r: bool)
    ensures
        r == (opt_str(state) == Some("sent"@)),
{
    match state {
        Some(s) => text::same(s, "sent"),
        None => false,
    }
}

/// Whether a level was told over one of its channels.
pub open spec fn was_told(log: Seq<Seq<char>>) -> bool {
    log.contains("sent"@)
}

/// Whether a level was told over one of its channels.
pub fn told(log: &Vec<String>) -> (r: bool)
    ensures
        r == was_told(texts(log@)),
{
    let mut i: usize = 0;
    while i < log.len()
        invariant
            i <= log@.len(),
            forall|k: int| 0 <= k < i ==> texts(log@)[k] != "sent"@,
        decreases log@.len() - i,
    {
        if counts_as_told(Some(log[i].as_str())) {
            assert(texts(log@)[i as int] == "sent"@);
            return true;
        }
        i += 1;
    }
    false
}

/// Whether the recipient may be told once more within the hour.
pub open spec fn may_notify(count: i64, max_per_hour: u32) -> bool {
    (count as u32) < max_per_hour
}

/// Whether the recipient may be told once more within the hour.
pub fn can_notify(count: i64, max_per_hour: u32) -> (r: bool)
    ensures
        r == may_notify(count, max_per_hour),
{
    let n: u32 = #[verifier::truncate]
    (count as u32);
    n < max_per_hour
}

/// Whether stage and action are those that begin the channel of an index: the
/// own channel is sent to, any other is only written into the log. Past the
/// last channel the level is done where something went out.
pub open spec fn begins_channel(
    t: DueTimer,
    n: Notification,
    index: int,
    sent: bool,
    stage: TimerStage,
    action: TimerAction,
) -> bool {
    let channels = channels_at(level_of(t) as int);
    if index >= channels.len() {
        &&& stage is Over
        &&& if sent {
            action == TimerAction::Advance { level: level_of(t) }
        } else {
            action is Stop
        }
    } else if channels[index] == t.own_channel@ {
        &&& stage matches TimerStage::Sending { notification: m, index: i, sent: s }
        &&& m == n && i == index && s == sent
        &&& action is Deliver
    } else {
        &&& stage matches TimerStage::Recording { notification: m, index: i, sent: s }
        &&& m == n && i == index && s == sent
        &&& records(action, channels[index], "pending"@)
    }
}

/// Whether an action writes this into the log.
pub open spec fn records(a: TimerAction, channel: Seq<char>, state: Seq<char>) -> bool {
    a matches TimerAction::Record { channel: c, state: s } && c@ == channel && s@ == state
}

/// How the work on a timer goes on.
pub open spec fn timer_moves(
    t: DueTimer,
    stage: TimerStage,
    event: TimerEvent,
    next: TimerStage,
    action: TimerAction,
) -> bool {
    let level = level_of(t);
    let channels = channels_at(level as int);
    match (stage, event) {
        (TimerStage::Opening, TimerEvent::Clock { business, quiet }) => if !business || (quiet
            && level < 3) {
            next is Over && action is Stop
        } else {
            next is Loading && action is LoadState
        },
        (TimerStage::Loading, TimerEvent::State(None)) => next is Over && (action matches
            TimerAction::Cancel(why) && why@ == "state_missing"@),
        (TimerStage::Loading, TimerEvent::State(Some(s))) => if settled(s) {
            next is Over && (action matches TimerAction::Cancel(why) && why@ == "human_handling"@)
        } else {
            next == TimerStage::Checking(s) && action == TimerAction::FindLog { level }
        },
        (TimerStage::Checking(s), TimerEvent::Logged(log)) => if was_told(texts(log@)) {
            next is Over && action == TimerAction::Advance { level }
        } else {
            next == TimerStage::Counting(s) && (action matches TimerAction::CountLastHour {
                recipient: r,
            } && r@ == recipient_of(s.assignee_id))
        },
        (TimerStage::Counting(s), TimerEvent::LastHour(count)) => if may_notify(
            count,
            t.max_per_hour,
        ) {
            next == TimerStage::Naming(s) && action == TimerAction::FetchName {
                contact_id: s.contact_id,
            }
        } else {
            next is Over && action is Stop
        },
        (TimerStage::Naming(s), TimerEvent::Name(name)) => exists|n: Notification|
            n@ == notice_of(t.conversation_id, s, name@, level, t.base_url@)
                && #[trigger] begins_channel(t, n, 0, false, next, action),
        (
            TimerStage::Sending { notification, index, sent },
            TimerEvent::Delivered(ok),
        ) => if index < channels.len() {
            next == (TimerStage::Recording { notification, index, sent: sent || ok }) && records(
                action,
                channels[index as int],
                if ok {
                    "sent"@
                } else {
                    "failed"@
                },
            )
        } else {
            next is Over && action is Stop
        },
        (
            TimerStage::Recording { notification, index, sent },
            TimerEvent::Recorded,
        ) => begins_channel(t, notification, index + 1, sent, next, action),
        _ => next == stage && action is Ignore,
    }
}

fn begin_channel(t: &DueTimer, notification: Notification, index: usize, sent: bool) -> (r: (
    TimerStage,
    TimerAction,
))
    ensures
        begins_channel(*t, notification, index as int, sent, r.0, r.1),
{
    let level = clamp_level(t.escalation_level);
    let step = escalation_step(level);
    assert(names_of(step.channels@).len() == step.channels@.len());
    if index >= step.channels.len() {
        let action = if sent {
            TimerAction::Advance { level }
        } else {
            TimerAction::Stop
        };
        return (TimerStage::Over, action);
    }
    let channel = step.channels[index];
    assert(names_of(step.channels@)[index as int] == channel@);
    if text::same(channel, t.own_channel) {
        (TimerStage::Sending { notification, index, sent }, TimerAction::Deliver)
    } else {
        (
            TimerStage::Recording { notification, index, sent },
            TimerAction::Record { channel, state: "pending" },
        )
    }
}

/// How the work on a timer goes on.
pub fn process_timer(t: &DueTimer, stage: TimerStage, event: TimerEvent) -> (r: (
    TimerStage,
    TimerAction,
))
    ensures
        timer_moves(*t, stage, event, r.0, r.1),
{
    let level = clamp_level(t.escalation_level);
    match (stage, event) {
        (TimerStage::Opening, TimerEvent::Clock { business, quiet }) => {
            if !business || (quiet && level < 3) {
                (TimerStage::Over, TimerAction::Stop)
            } else {
                (TimerStage::Loading, TimerAction::LoadState)
            }
        },
        (TimerStage::Loading, TimerEvent::State(None)) => {
            (TimerStage::Over, TimerAction::Cancel("state_missing"))
        },
        (TimerStage::Loading, TimerEvent::State(Some(s))) => {
            if text::same(s.ai_state.as_str(), "closed") || text::same(
                s.ai_state.as_str(),
                "human_handling",
            ) {
                (TimerStage::Over, TimerAction::Cancel("human_handling"))
            } else {
                (TimerStage::Checking(s), TimerAction::FindLog { level })
            }
        },
        (TimerStage::Checking(s), TimerEvent::Logged(log)) => {
            if told(&log) {
                (TimerStage::Over, TimerAction::Advance { level })
            } else {
                let who = recipient(s.assignee_id);
                (TimerStage::Counting(s), TimerAction::CountLastHour { recipient: who })
            }
        },
        (TimerStage::Counting(s), TimerEvent::LastHour(count)) => {
            if can_notify(count, t.max_per_hour) {
                let contact_id = s.contact_id;
                (TimerStage::Naming(s), TimerAction::FetchName { contact_id })
            } else {
                (TimerStage::Over, TimerAction::Stop)
            }
        },
        (TimerStage::Naming(s), TimerEvent::Name(name)) => {
            let n = notice(t.conversation_id, &s, name.as_str(), level, t.base_url.as_str());
            let ghost m = n;
            let r = begin_channel(t, n, 0, false);
            assert(begins_channel(*t, m, 0, false, r.0, r.1));
            r
        },
        (TimerStage::Sending { notification, index, sent }, TimerEvent::Delivered(ok)) => {
            let step = escalation_step(level);
            assert(names_of(step.channels@).len() == step.channels@.len());
            if index < step.channels.len() {
                let channel = step.channels[index];
                assert(names_of(step.channels@)[index as int] == channel@);
                let state = if ok {
                    "sent"
                } else {
                    "failed"
                };
                (
                    TimerStage::Recording { notification, index, sent: sent || ok },
                    TimerAction::Record { channel, state },
                )
            } else {
                (TimerStage::Over, TimerAction::Stop)
            }
        },
        (TimerStage::Recording { notification, index, sent }, TimerEvent::Recorded) => {
            if index == usize::MAX {
                (
                    TimerStage::Over,
                    if sent {
                        TimerAction::Advance { level }
                    } else {
                        TimerAction::Stop
                    },
                )
            } else {
                begin_channel(t, notification, index + 1, sent)
            }
        },
        (stage, _) => (stage, TimerAction::Ignore),
    }
}

// ---------------------------------------------------------------------------
// Laws
// ---------------------------------------------------------------------------

/// Outside business hours the clock of a timer stands still: nothing is read,
/// sent or written.
pub proof fn law_timers_rest_outside_business_hours(
    t: DueTimer,
    quiet: bool,
    next: TimerStage,
    action: TimerAction,
)
    requires
        timer_moves(
            t,
            TimerStage::Opening,
            TimerEvent::Clock { business: false, quiet },
            next,
            action,
        ),
    ensures
        next is Over,
        action is Stop,
{
}

/// In quiet hours only the levels from the third on go further.
pub proof fn law_quiet_hours_hold_back_low_levels(
    t: DueTimer,
    business: bool,
    next: TimerStage,
    action: TimerAction,
)
    requires
        level_of(t) < 3,
        timer_moves(
            t,
            TimerStage::Opening,
            TimerEvent::Clock { business, quiet: true },
            next,
            action,
        ),
    ensures
        next is Over,
        action is Stop,
{
}

/// A timer goes up only where its level was told: the log says that it was sent,
/// or it was sent just now.
pub proof fn law_levels_are_not_skipped(
    t: DueTimer,
    stage: TimerStage,
    event: TimerEvent,
    next: TimerStage,
    action: TimerAction,
)
    requires
        timer_moves(t, stage, event, next, action),
        action is Advance,
    ensures
        (stage is Checking && event is Logged && was_told(texts(event->Logged_0@))) || (
        stage is Recording && stage->Recording_sent),
{
    assert(channels_at(level_of(t) as int).len() > 0);
}

/// A level that was told is not told again.
pub proof fn law_told_levels_are_not_told_again(
    t: DueTimer,
    s: ConvStateRow,
    log: Vec<String>,
    next: TimerStage,
    action: TimerAction,
)
    requires
        was_told(texts(log@)),
        timer_moves(t, TimerStage::Checking(s), TimerEvent::Logged(log), next, action),
    ensures
        next is Over,
        action == (TimerAction::Advance { level: level_of(t) }),
{
}

/// A level of which the log knows only channels that failed or are still to come
/// is tried again.
pub proof fn law_untold_levels_are_tried_again(
    t: DueTimer,
    s: ConvStateRow,
    log: Vec<String>,
    next: TimerStage,
    action: TimerAction,
)
    requires
        !was_told(texts(log@)),
        timer_moves(t, TimerStage::Checking(s), TimerEvent::Logged(log), next, action),
    ensures
        next == TimerStage::Counting(s),
        action is CountLastHour,
{
}

/// The work on a timer at one time: what it went through.
pub struct Tick {
    pub stages: Seq<TimerStage>,
    pub events: Seq<TimerEvent>,
    pub actions: Seq<TimerAction>,
}

/// Whether the work on a timer went this way. `log` is what the log says of its
/// level when it begins.
pub open spec fn is_tick(t: DueTimer, log: Seq<Seq<char>>, w: Tick) -> bool {
    &&& w.stages.len() == w.events.len() + 1
    &&& w.actions.len() == w.events.len()
    &&& w.stages[0] is Opening
    &&& forall|k: int|
        0 <= k < w.events.len() ==> timer_moves(
            t,
            w.stages[k],
            #[trigger] w.events[k],
            w.stages[k + 1],
            w.actions[k],
        )
    &&& forall|k: int|
        0 <= k < w.events.len() ==> ((#[trigger] w.events[k]) matches TimerEvent::Logged(v)
            ==> texts(v@) == log)
}

/// Whether nothing went out.
pub open spec fn sends_nothing(w: Tick) -> bool {
    forall|k: int|
        0 <= k < w.events.len() && w.stages[k] is Sending ==> #[trigger] w.events[k]
            != TimerEvent::Delivered(true)
}

/// Whether the log can say `after` once the work is done, where it said `before`:
/// nothing stands there but what was there or was written.
pub open spec fn log_grows(before: Seq<Seq<char>>, w: Tick, after: Seq<Seq<char>>) -> bool {
    forall|state: Seq<char>| #[trigger]
        after.contains(state) ==> before.contains(state) || exists|k: int|
            0 <= k < w.actions.len() && ((#[trigger] w.actions[k]) matches TimerAction::Record {
                channel: _,
                state: s,
            } && s@ == state)
}

/// Nothing sent so far.
spec fn unsent(s: TimerStage) -> bool {
    match s {
        TimerStage::Sending { notification: _, index: _, sent } => !sent,
        TimerStage::Recording { notification: _, index: _, sent } => !sent,
        _ => true,
    }
}

proof fn lemma_unsent(t: DueTimer, log: Seq<Seq<char>>, w: Tick, n: int)
    requires
        is_tick(t, log, w),
        sends_nothing(w),
        !was_told(log),
        0 <= n <= w.events.len(),
    ensures
        unsent(w.stages[n]),
        n > 0 ==> !(w.actions[n - 1] is Advance),
        n > 0 ==> (w.actions[n - 1] matches TimerAction::Record { channel: _, state } ==> state@
            != "sent"@),
    decreases n,
{
    reveal_strlit("sent");
    reveal_strlit("failed");
    reveal_strlit("pending");
    assert("sent"@.len() == 4 && "failed"@.len() == 6 && "pending"@.len() == 7);
    if n > 0 {
        lemma_unsent(t, log, w, n - 1);
        assert(timer_moves(t, w.stages[n - 1], w.events[n - 1], w.stages[n], w.actions[n - 1]));
    }
}

/// Where nothing went out and nothing had, the timer stays on its level, and the
/// log still says of nothing that it was sent.
pub proof fn law_a_level_nobody_was_told_of_stays(
    t: DueTimer,
    log: Seq<Seq<char>>,
    w: Tick,
    after: Seq<Seq<char>>,
)
    requires
        is_tick(t, log, w),
        sends_nothing(w),
        !was_told(log),
        log_grows(log, w, after),
    ensures
        forall|k: int| 0 <= k < w.actions.len() ==> !((#[trigger] w.actions[k]) is Advance),
        !was_told(after),
{
    assert forall|k: int| 0 <= k < w.actions.len() implies !((#[trigger] w.actions[k]) is Advance)
        by {
        lemma_unsent(t, log, w, k + 1);
    }
    if was_told(after) {
        let k = choose|k: int|
            0 <= k < w.actions.len() && ((#[trigger] w.actions[k]) matches TimerAction::Record {
                channel: _,
                state: s,
            } && s@ == "sent"@);
        lemma_unsent(t, log, w, k + 1);
    }
}

/// Whether a timer was worked on again and again at the same level: the log that
/// one time leaves is the log that the next one finds.
pub open spec fn are_ticks(t: DueTimer, logs: Seq<Seq<Seq<char>>>, ticks: Seq<Tick>) -> bool {
    &&& logs.len() == ticks.len() + 1
    &&& forall|k: int|
        0 <= k < ticks.len() ==> is_tick(t, logs[k], #[trigger] ticks[k]) && log_grows(
            logs[k],
            ticks[k],
            logs[k + 1],
        )
}

/// A level on which nothing was sent is never skipped, however often its timer
/// comes due: each time it is tried again.
pub proof fn law_a_level_is_tried_until_it_is_told(
    t: DueTimer,
    logs: Seq<Seq<Seq<char>>>,
    ticks: Seq<Tick>,
    n: int,
)
    requires
        are_ticks(t, logs, ticks),
        !was_told(logs[0]),
        forall|k: int| 0 <= k < ticks.len() ==> sends_nothing(#[trigger] ticks[k]),
        0 <= n <= ticks.len(),
    ensures
        !was_told(logs[n]),
        n < ticks.len() ==> forall|k: int|
            0 <= k < ticks[n].actions.len() ==> !((#[trigger] ticks[n].actions[k]) is Advance),
    decreases n,
{
    if n > 0 {
        law_a_level_is_tried_until_it_is_told(t, logs, ticks, n - 1);
        law_a_level_nobody_was_told_of_stays(t, logs[n - 1], ticks[n - 1], logs[n]);
    }
    if n < ticks.len() {
        law_a_level_nobody_was_told_of_stays(t, logs[n], ticks[n], logs[n + 1]);
    }
}

proof fn lemma_own_channel(t: DueTimer, log: Seq<Seq<char>>, w: Tick, n: int)
    requires
        is_tick(t, log, w),
        !channels_at(level_of(t) as int).contains(t.own_channel@),
        0 <= n <= w.events.len(),
    ensures
        !(w.stages[n] is Sending),
        n > 0 ==> !(w.actions[n - 1] is Deliver),
    decreases n,
{
    if n > 0 {
        lemma_own_channel(t, log, w, n - 1);
        assert(timer_moves(t, w.stages[n - 1], w.events[n - 1], w.stages[n], w.actions[n - 1]));
    }
}

/// On a level that is not told over the own channel nothing is sent, so the timer
/// waits there.
pub proof fn law_a_level_without_the_own_channel_waits(
    t: DueTimer,
    log: Seq<Seq<char>>,
    w: Tick,
)
    requires
        is_tick(t, log, w),
        !channels_at(level_of(t) as int).contains(t.own_channel@),
    ensures
        sends_nothing(w),
        forall|k: int| 0 <= k < w.actions.len() ==> !((#[trigger] w.actions[k]) is Deliver),
        !was_told(log) ==> forall|k: int|
            0 <= k < w.actions.len() ==> !((#[trigger] w.actions[k]) is Advance),
{
    assert forall|k: int| 0 <= k < w.events.len() && w.stages[k] is Sending implies #[trigger] w.events[k]
        != TimerEvent::Delivered(true) by {
        lemma_own_channel(t, log, w, k);
    }
    assert forall|k: int| 0 <= k < w.actions.len() implies !((#[trigger] w.actions[k]) is Deliver)
        by {
        lemma_own_channel(t, log, w, k + 1);
    }
    if !was_told(log) {
        law_a_level_nobody_was_told_of_stays(t, log, w, log);
    }
}

/// A timer whose conversation an attendant has, or which is closed, is
/// cancelled.
pub proof fn law_settled_conversations_cancel_timers(
    t: DueTimer,
    s: ConvStateRow,
    next: TimerStage,
    action: TimerAction,
)
    requires
        settled(s),
        timer_moves(t, TimerStage::Loading, TimerEvent::State(Some(s)), next, action),
    ensures
        next is Over,
        action is Cancel,
{
}

/// How many events a timer still waits for at most, in each stage.
pub open spec fn remaining(t: DueTimer, stage: TimerStage) -> int {
    let n = channels_at(level_of(t) as int).len() as int;
    match stage {
        TimerStage::Opening => 2 * n + 5,
        TimerStage::Loading => 2 * n + 4,
        TimerStage::Checking(_) => 2 * n + 3,
        TimerStage::Counting(_) => 2 * n + 2,
        TimerStage::Naming(_) => 2 * n + 1,
        TimerStage::Sending { notification: _, index, sent: _ } => 2 * (n - index),
        TimerStage::Recording { notification: _, index, sent: _ } => 2 * (n - index) - 1,
        TimerStage::Over => 0,
    }
}

/// Whether a stage is within the channels of its level.
pub open spec fn within_channels(t: DueTimer, stage: TimerStage) -> bool {
    let n = channels_at(level_of(t) as int).len();
    match stage {
        TimerStage::Sending { notification: _, index, sent: _ } => index < n,
        TimerStage::Recording { notification: _, index, sent: _ } => index < n,
        _ => true,
    }
}

/// The work on a timer comes to an end: each event that belongs to its stage
/// brings it closer.
pub proof fn law_work_on_a_timer_ends(
    t: DueTimer,
    stage: TimerStage,
    event: TimerEvent,
    next: TimerStage,
    action: TimerAction,
)
    requires
        within_channels(t, stage),
        timer_moves(t, stage, event, next, action),
    ensures
        within_channels(t, next),
        action is Ignore || 0 <= remaining(t, next) < remaining(t, stage),
{
}

/// A timer goes on within business hours, and in quiet hours only from the
/// fourth level on; otherwise it waits untouched.
pub proof fn law_when_timers_go_on(
    t: DueTimer,
    business: bool,
    quiet: bool,
    r: (TimerStage, TimerAction),
)
    requires
        call_ensures(
            process_timer,
            (&t, TimerStage::Opening, TimerEvent::Clock { business, quiet }),
            r,
        ),
    ensures
        r.1 is LoadState <==> business && (!quiet || t.escalation_level >= 3),
        r.1 is LoadState <==> r.0 is Loading,
        !(r.1 is LoadState) ==> r.1 is Stop && r.0 is Over,
{
}

/// A timer is cancelled where its conversation is gone, closed or in the hands
/// of an attendant, for the reason that it is, and in no other case: while the AI
/// has the conversation, or an attendant is awaited, the log of the level is
/// looked up.
pub proof fn law_when_timers_are_cancelled(
    t: DueTimer,
    s: ConvStateRow,
    gone: (TimerStage, TimerAction),
    r: (TimerStage, TimerAction),
)
    requires
        call_ensures(process_timer, (&t, TimerStage::Loading, TimerEvent::State(None)), gone),
        call_ensures(process_timer, (&t, TimerStage::Loading, TimerEvent::State(Some(s))), r),
    ensures
        gone.0 is Over && (gone.1 matches TimerAction::Cancel(why) && why@ == "state_missing"@),
        r.1 is Cancel <==> s.ai_state@ == "closed"@ || s.ai_state@ == "human_handling"@,
        r.1 matches TimerAction::Cancel(why) ==> why@ == "human_handling"@ && r.0 is Over,
        !(r.1 is Cancel) ==> r.0 == TimerStage::Checking(s) && (r.1 matches TimerAction::FindLog {
            level,
        } && (0 <= t.escalation_level <= 4 ==> level == t.escalation_level)),
{
}

/// A level is told once: where the log has a channel that was sent, the timer
/// goes up without a word; else the recipient's hour is counted.
pub proof fn law_what_the_log_decides(
    t: DueTimer,
    s: ConvStateRow,
    log: Vec<String>,
    who: String,
    r: (TimerStage, TimerAction),
)
    requires
        call_ensures(recipient, (s.assignee_id,), who),
        call_ensures(process_timer, (&t, TimerStage::Checking(s), TimerEvent::Logged(log)), r),
    ensures
        r.1 is Advance <==> exists|i: int| 0 <= i < log@.len() && (#[trigger] log@[i])@ == "sent"@,
        r.1 is Advance ==> r.0 is Over,
        !(r.1 is Advance) ==> r.0 == TimerStage::Counting(s) && (
        r.1 matches TimerAction::CountLastHour { recipient: w } && w@ == who@),
{
    let v = texts(log@);
    if v.contains("sent"@) {
        let i = choose|i: int| 0 <= i < v.len() && v[i] == "sent"@;
        assert(log@[i]@ == "sent"@);
    }
    if exists|i: int| 0 <= i < log@.len() && (#[trigger] log@[i])@ == "sent"@ {
        let i = choose|i: int| 0 <= i < log@.len() && (#[trigger] log@[i])@ == "sent"@;
        assert(v[i] == "sent"@);
    }
}

/// Nobody is told more often within an hour than is allowed: below the limit the
/// name of the contact is fetched, at the limit the timer waits.
pub proof fn law_nobody_is_told_too_often(
    t: DueTimer,
    s: ConvStateRow,
    count: i64,
    may: bool,
    r: (TimerStage, TimerAction),
)
    requires
        0 <= count <= u32::MAX,
        call_ensures(can_notify, (count, t.max_per_hour), may),
        call_ensures(process_timer, (&t, TimerStage::Counting(s), TimerEvent::LastHour(count)), r),
    ensures
        may <==> count < t.max_per_hour,
        count < t.max_per_hour ==> r.0 == TimerStage::Naming(s) && r.1 == (TimerAction::FetchName {
            contact_id: s.contact_id,
        }),
        count >= t.max_per_hour ==> r.0 is Over && r.1 is Stop,
{
}

/// A delivery is written into the log as it went: sent or failed, under the
/// channel that it went over.
pub proof fn law_deliveries_are_logged_as_they_went(
    t: DueTimer,
    notification: Notification,
    index: usize,
    sent: bool,
    ok: bool,
    step: crate::scheduler::sla::EscalationStep,
    r: (TimerStage, TimerAction),
)
    requires
        0 <= t.escalation_level <= 4,
        call_ensures(escalation_step, (t.escalation_level,), step),
        index < step.channels@.len(),
        call_ensures(
            process_timer,
            (&t, TimerStage::Sending { notification, index, sent }, TimerEvent::Delivered(ok)),
            r,
        ),
    ensures
        r.1 matches TimerAction::Record { channel, state } && channel@
            == step.channels@[index as int]@ && (ok ==> state@ == "sent"@) && (!ok ==> state@
            == "failed"@),
        r.0 == (TimerStage::Recording { notification, index, sent: sent || ok }),
{
    assert(names_of(step.channels@).len() == step.channels@.len());
    assert(names_of(step.channels@)[index as int] == step.channels@[index as int]@);
}

/// After a channel the next one has its turn: the own channel is sent to, any
/// other is put down as still to come. After the last one the timer goes up
/// where something was sent, and waits on its level where nothing was.
pub proof fn law_channels_follow_each_other(
    t: DueTimer,
    notification: Notification,
    index: usize,
    sent: bool,
    step: crate::scheduler::sla::EscalationStep,
    r: (TimerStage, TimerAction),
)
    requires
        0 <= t.escalation_level <= 4,
        call_ensures(escalation_step, (t.escalation_level,), step),
        index < step.channels@.len(),
        call_ensures(
            process_timer,
            (&t, TimerStage::Recording { notification, index, sent }, TimerEvent::Recorded),
            r,
        ),
    ensures
        index + 1 == step.channels@.len() && sent ==> r.1 == (TimerAction::Advance {
            level: t.escalation_level,
        }),
        index + 1 == step.channels@.len() && !sent ==> r.1 is Stop,
        index + 1 == step.channels@.len() ==> r.0 is Over,
        index + 1 < step.channels@.len() && step.channels@[index + 1]@ == t.own_channel@ ==> r.1 is
            Deliver && (r.0 matches TimerStage::Sending { notification: m, index: i, sent: s } && m
            == notification && i == index + 1 && s == sent),
        index + 1 < step.channels@.len() && step.channels@[index + 1]@ != t.own_channel@ ==> (
        r.1 matches TimerAction::Record { channel, state } && channel@ == step.channels@[index
            + 1]@ && state@ == "pending"@) && (r.0 matches TimerStage::Recording {
            notification: m,
            index: i,
            sent: s,
        } && m == notification && i == index + 1 && s == sent),
{
    assert(names_of(step.channels@).len() == step.channels@.len());
    if index + 1 < step.channels@.len() {
        assert(names_of(step.channels@)[index + 1] == step.channels@[index + 1]@);
    }
}

/// Somebody was told just where a line of the log says that the word was sent.
pub proof fn law_only_sent_words_count(log: Vec<String>, i: int, s: &str, one: bool, r: bool)
    requires
        0 <= i < log@.len(),
        s@ == log@[i]@,
        call_ensures(counts_as_told, (Some(s),), one),
        call_ensures(told, (&log,), r),
    ensures
        one <==> log@[i]@ == "sent"@,
        one ==> r,
        log@.len() == 1 ==> r == one,
{
    assert(texts(log@)[i] == log@[i]@);
    if log@.len() == 1 && r {
        assert(texts(log@).len() == 1);
    }
}

} // verus!
