//! Timers and the ladder of escalation.
use crate::text;
use crate::text::opt_str;
use vstd::prelude::*;

verus! {

/// What a timer waits for.
#[derive(Debug, Clone, Copy, PartialEq, Eq, Structural)]
pub enum SlaKind {
    /// Someone answers, attendant or AI.
    FirstResponse,
    /// An attendant answers.
    HumanResponse,
    /// An attendant is assigned.
    Assignment,
    /// The conversation is resolved.
    Resolution,
}

/// The stored name of a kind.
pub open spec fn kind_text(k: SlaKind) -> Seq<char> {
    match k {
        SlaKind::FirstResponse => "first_response"@,
        SlaKind::HumanResponse => "human_response"@,
        SlaKind::Assignment => "assignment"@,
        SlaKind::Resolution => "resolution"@,
    }
}

/// Minutes until a timer of a kind is due.
pub open spec fn base_of(k: SlaKind) -> i16 {
    match k {
        SlaKind::Resolution => 60,
        _ => 3,
    }
}

impl SlaKind {
    /// The stored name.
    pub fn as_str(&self) -> (r: &'static str)
        ensures
            r@ == kind_text(*self),
    {
        match self {
            SlaKind::FirstResponse => "first_response",
            SlaKind::HumanResponse => "human_response",
            SlaKind::Assignment => "assignment",
            SlaKind::Resolution => "resolution",
        }
    }

    /// Minutes until a timer of this kind is due.
    pub fn base_minutes(&self) -> (r: i16)
        ensures
            r == base_of(*self),
    {
        match self {
            SlaKind::Resolution => 60,
            _ => 3,
        }
    }
}

/// The state of a timer.
#[derive(Debug, Clone, Copy, PartialEq, Eq, Structural)]
pub enum SlaStatus {
    Armed,
    Fired,
    Cancelled,
}

/// The stored name of a state.
pub open spec fn status_text(s: SlaStatus) -> Seq<char> {
    match s {
        SlaStatus::Armed => "armed"@,
        SlaStatus::Fired => "fired"@,
        SlaStatus::Cancelled => "cancelled"@,
    }
}

impl SlaStatus {
    /// The stored name.
    pub fn as_str(&self) -> (r: &'static str)
        ensures
            r@ == status_text(*self),
    {
        match self {
            SlaStatus::Armed => "armed",
            SlaStatus::Fired => "fired",
            SlaStatus::Cancelled => "cancelled",
        }
    }
}

/// Minutes until a new timer of a stored kind is due.
pub open spec fn first_due_minutes(kind: Seq<char>) -> int {
    if kind == "resolution"@ {
        60
    } else {
        3
    }
}

/// Sees to it that a conversation has an armed timer of a stored kind, whose
/// stored state is `status` where there is one: when it is to be armed for, in
/// microseconds. `None` where it is armed: it keeps its time.
pub fn ensure_sla_timers(kind: &str, status: Option<&str>, now_micros: i64) -> (r: Option<i64>)
    requires
        now_micros + first_due_minutes(kind@) * 60000000 <= i64::MAX,
    ensures
        match r {
            Some(due) => opt_str(status) != Some("armed"@) && due == now_micros
                + first_due_minutes(kind@) * 60000000,
            None => opt_str(status) == Some("armed"@),
        },
{
    if let Some(s) = status {
        if text::same(s, "armed") {
            return None;
        }
    }
    if text::same(kind, "resolution") {
        Some(now_micros + 3600000000)
    } else {
        Some(now_micros + 180000000)
    }
}

/// The top of the ladder.
pub const MAX_LEVEL: i16 = 4;

/// A step of the ladder.
#[derive(Debug, Clone)]
pub struct EscalationStep {
    pub level: i16,
    /// Minutes since the timer began.
    pub delay_accumulated_minutes: i16,
    /// Who is told.
    pub recipient: &'static str,
    pub channels: Vec<&'static str>,
}

/// A level within the ladder.
pub open spec fn on_ladder(level: i16) -> i16 {
    if level < 0 {
        0
    } else if level > MAX_LEVEL {
        MAX_LEVEL
    } else {
        level
    }
}

/// Minutes since the timer began, by level.
pub open spec fn delay_of(level: int) -> int {
    if level <= 0 {
        3
    } else if level == 1 {
        10
    } else if level == 2 {
        20
    } else if level == 3 {
        40
    } else {
        60
    }
}

/// Who is told, by level.
pub open spec fn told_at(level: int) -> Seq<char> {
    if level <= 1 {
        "assignee"@
    } else if level == 2 {
        "team_member"@
    } else if level == 3 {
        "supervisor"@
    } else {
        "partner"@
    }
}

/// Over which channels, by level.
pub open spec fn channels_at(level: int) -> Seq<Seq<char>> {
    if level <= 0 || level == 2 {
        seq!["whatsapp"@]
    } else if level == 1 {
        seq!["whatsapp"@, "telegram"@]
    } else {
        seq!["whatsapp"@, "email"@]
    }
}

/// The names of a list.
pub open spec fn names_of(v: Seq<&'static str>) -> Seq<Seq<char>> {
    v.map_values(|s: &'static str| s@)
}

/// A level within the ladder.
pub fn clamp_level(level: i16) -> (r: i16)
    ensures
        r == on_ladder(level),
        0 <= r <= MAX_LEVEL,
{
    if level < 0 {
        0
    } else if level > MAX_LEVEL {
        MAX_LEVEL
    } else {
        level
    }
}

/// The step of a level of the ladder.
pub fn escalation_step(level: i16) -> (r: EscalationStep)
    requires
        0 <= level <= MAX_LEVEL,
    ensures
        r.level == level,
        r.delay_accumulated_minutes == delay_of(level as int),
        r.recipient@ == told_at(level as int),
        names_of(r.channels@) == channels_at(level as int),
{
    let (delay, recipient): (i16, &'static str) = match level {
        0 => (3, "assignee"),
        1 => (10, "assignee"),
        2 => (20, "team_member"),
        3 => (40, "supervisor"),
        _ => (60, "partner"),
    };
    let channels: Vec<&'static str> = match level {
        0 => vec!["whatsapp"],
        1 => vec!["whatsapp", "telegram"],
        2 => vec!["whatsapp"],
        _ => vec!["whatsapp", "email"],
    };
    assert(names_of(channels@) =~= channels_at(level as int));
    EscalationStep { level, delay_accumulated_minutes: delay, recipient, channels }
}

/// What becomes of a timer whose level is done.
#[derive(Debug, Clone, Copy, PartialEq, Eq, Structural)]
pub enum TimerAdvance {
    /// The top is reached: the timer fires and the conversation is labelled as
    /// violated.
    Violated,
    /// It waits for the next level.
    Rearm { level: i16, due_micros: i64 },
}

/// Minutes from a level to the next.
pub open spec fn delta_minutes(level: int) -> int {
    delay_of(level + 1) - delay_of(level)
}

/// What becomes of a timer whose level is done.
pub open spec fn advanced(level: i16, now_micros: int) -> TimerAdvance {
    if level >= MAX_LEVEL {
        TimerAdvance::Violated
    } else {
        TimerAdvance::Rearm {
            level: (level + 1) as i16,
            due_micros: (now_micros + delta_minutes(level as int) * 60000000) as i64,
        }
    }
}

/// What becomes of a timer whose level is done. The next level is due as many
/// minutes later as lie between the two on the ladder.
pub fn advance_timer(level: i16, now_micros: i64) -> (r: TimerAdvance)
    requires
        0 <= level,
        now_micros + 1200000000 <= i64::MAX,
    ensures
        r == advanced(level, now_micros as int),
{
    if level >= MAX_LEVEL {
        return TimerAdvance::Violated;
    }
    let here: i16 = escalation_step(level).delay_accumulated_minutes;
    let next: i16 = escalation_step(level + 1).delay_accumulated_minutes;
    let delta: i64 = (next - here) as i64;
    TimerAdvance::Rearm { level: level + 1, due_micros: now_micros + delta * 60000000 }
}

// ---------------------------------------------------------------------------
// Laws
// ---------------------------------------------------------------------------

/// Minutes after which a level is reached when each is done at once: the base
/// time and the times between the levels.
pub open spec fn reached_after(level: int) -> int
    decreases level,
{
    if level <= 0 {
        base_of(SlaKind::FirstResponse) as int
    } else {
        reached_after(level - 1) + delta_minutes(level - 1)
    }
}

/// A timer that waits for an answer reaches each level after the minutes that
/// the ladder gives for it.
pub proof fn law_ladder_delays_accumulate(level: int)
    requires
        0 <= level <= MAX_LEVEL,
    ensures
        reached_after(level) == delay_of(level),
    decreases level,
{
    if level > 0 {
        law_ladder_delays_accumulate(level - 1);
    }
}

/// The ladder goes up: each level comes later than the one before, and an
/// advance never goes down or past the top.
pub proof fn law_ladder_goes_up(level: i16, now_micros: int)
    requires
        0 <= level <= MAX_LEVEL,
    ensures
        level < MAX_LEVEL ==> delay_of(level as int) < delay_of(level + 1),
        advanced(level, now_micros) is Violated <==> level == MAX_LEVEL,
        advanced(level, now_micros) matches TimerAdvance::Rearm { level: next, due_micros: _ }
            ==> level < next <= MAX_LEVEL,
{
}

/// The name of a stored kind gives the same first due time as the kind.
pub proof fn law_kind_names_agree_with_kinds(k: SlaKind)
    ensures
        first_due_minutes(kind_text(k)) == base_of(k),
{
    reveal_strlit("first_response");
    reveal_strlit("human_response");
    reveal_strlit("assignment");
    reveal_strlit("resolution");
    assert("first_response"@.len() == 14 && "human_response"@.len() == 14);
    assert("assignment"@.len() == 10 && "resolution"@.len() == 10);
    assert("assignment"@[0] == 'a' && "resolution"@[0] == 'r');
}

/// Who is told at each level, how long after the beginning, and over which
/// channels: WhatsApp at every level, Telegram at the second alone, e-mail from
/// the fourth on. The assignee is told twice, then the team, then a supervisor,
/// then a partner.
pub proof fn law_who_is_told_when(level: i16, r: EscalationStep)
    requires
        0 <= level <= 4,
        call_ensures(escalation_step, (level,), r),
    ensures
        r.level == level,
        level == 0 ==> r.delay_accumulated_minutes == 3,
        level == 1 ==> r.delay_accumulated_minutes == 10,
        level == 2 ==> r.delay_accumulated_minutes == 20,
        level == 3 ==> r.delay_accumulated_minutes == 40,
        level == 4 ==> r.delay_accumulated_minutes == 60,
        level <= 1 <==> r.recipient@ == "assignee"@,
        level == 2 <==> r.recipient@ == "team_member"@,
        level == 3 <==> r.recipient@ == "supervisor"@,
        level == 4 <==> r.recipient@ == "partner"@,
        names_of(r.channels@).contains("whatsapp"@),
        level == 1 <==> names_of(r.channels@).contains("telegram"@),
        level >= 3 <==> names_of(r.channels@).contains("email"@),
{
    reveal_strlit("assignee");
    reveal_strlit("team_member");
    reveal_strlit("supervisor");
    reveal_strlit("partner");
    reveal_strlit("whatsapp");
    reveal_strlit("telegram");
    reveal_strlit("email");
    assert("assignee"@.len() == 8 && "team_member"@.len() == 11 && "supervisor"@.len() == 10);
    assert("partner"@.len() == 7 && "whatsapp"@.len() == 8 && "telegram"@.len() == 8);
    assert("email"@.len() == 5 && "whatsapp"@[0] == 'w' && "telegram"@[0] == 't');
    let c = names_of(r.channels@);
    assert(c[0] == "whatsapp"@);
    if level == 1 {
        assert(c[1] == "telegram"@);
    }
    if level >= 3 {
        assert(c[1] == "email"@);
    }
}

/// A timer that waits for a conversation to be resolved has an hour, any other
/// three minutes. A timer that is armed keeps its time; one that fired, was
/// cancelled or never was is armed anew.
pub proof fn law_timers_are_armed_once(
    kind: &str,
    status: Option<&str>,
    now_micros: i64,
    r: Option<i64>,
)
    requires
        call_ensures(ensure_sla_timers, (kind, status, now_micros), r),
    ensures
        r is None <==> (status matches Some(s) && s@ == "armed"@),
        r matches Some(due) ==> due - now_micros == if kind@ == "resolution"@ {
            60 * 60000000
        } else {
            3 * 60000000
        },
{
}

/// A level that is done is followed by the next, seven, ten, twenty and twenty
/// minutes later; after the last one the timer is violated.
pub proof fn law_each_level_is_followed_by_the_next(level: i16, now_micros: i64, r: TimerAdvance)
    requires
        0 <= level,
        now_micros + 1200000000 <= i64::MAX,
        call_ensures(advance_timer, (level, now_micros), r),
    ensures
        level >= 4 <==> r is Violated,
        r matches TimerAdvance::Rearm { level: next, due_micros } ==> next == level + 1
            && due_micros - now_micros == if level == 0 {
            7 * 60000000
        } else if level == 1 {
            10 * 60000000
        } else {
            20 * 60000000
        },
{
}

/// A stored level is taken as it is within the ladder, and moved to the nearer
/// end outside.
pub proof fn law_levels_stay_on_the_ladder(level: i16, r: i16)
    requires
        call_ensures(clamp_level, (level,), r),
    ensures
        0 <= level <= 4 ==> r == level,
        level < 0 ==> r == 0,
        level > 4 ==> r == 4,
{
}

/// Kinds and states of timers are stored under names of their own; only the
/// wait for a resolution has an hour.
pub proof fn law_timers_are_stored_by_name(
    k: SlaKind,
    s: SlaStatus,
    kind: &'static str,
    status: &'static str,
    base: i16,
)
    requires
        call_ensures(SlaKind::as_str, (&k,), kind),
        call_ensures(SlaStatus::as_str, (&s,), status),
        call_ensures(SlaKind::base_minutes, (&k,), base),
    ensures
        k is FirstResponse <==> kind@ == "first_response"@,
        k is HumanResponse <==> kind@ == "human_response"@,
        k is Assignment <==> kind@ == "assignment"@,
        k is Resolution <==> kind@ == "resolution"@,
        s is Armed <==> status@ == "armed"@,
        s is Fired <==> status@ == "fired"@,
        s is Cancelled <==> status@ == "cancelled"@,
        k is Resolution ==> base == 60,
        !(k is Resolution) ==> base == 3,
{
    reveal_strlit("first_response");
    reveal_strlit("human_response");
    reveal_strlit("assignment");
    reveal_strlit("resolution");
    reveal_strlit("armed");
    reveal_strlit("fired");
    reveal_strlit("cancelled");
    assert("first_response"@.len() == 14 && "human_response"@.len() == 14);
    assert("first_response"@[0] == 'f' && "human_response"@[0] == 'h');
    assert("assignment"@.len() == 10 && "resolution"@.len() == 10);
    assert("assignment"@[0] == 'a' && "resolution"@[0] == 'r');
    assert("armed"@.len() == 5 && "fired"@.len() == 5 && "cancelled"@.len() == 9);
    assert("armed"@[0] == 'a' && "fired"@[0] == 'f');
}

} // verus!
