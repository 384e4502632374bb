//! Messages that were to go out and may not have.
use crate::text::opt_text;
use vstd::prelude::*;

verus! {

/// How often a message is sent again before it is given up.
pub const MAX_ATTEMPTS: i16 = 3;

/// What is said of a message that was given up.
pub const MAX_ATTEMPTS_ERROR: &'static str = "max_attempts";

/// What the help desk says of a message.
#[derive(Debug, Clone, Copy, PartialEq, Eq, Structural)]
pub enum Lookup {
    /// The message has no id yet, so nothing was asked.
    NotAsked,
    Found,
    NotFound,
    /// The help desk could not be asked.
    Failed,
}

/// What becomes of a message that waits.
#[derive(Debug, Clone, Copy, PartialEq, Eq, Structural)]
pub enum OutboundStep {
    /// It arrived: it counts as sent.
    MarkSent,
    /// Nothing, this time.
    Leave,
    /// It is given up.
    Abandon,
    /// It is sent again.
    Repost,
}

/// What becomes of a message that waits.
pub open spec fn outbound_step(lookup: Lookup, attempts: i16) -> OutboundStep {
    match lookup {
        Lookup::Found => OutboundStep::MarkSent,
        Lookup::Failed => OutboundStep::Leave,
        _ => if attempts >= MAX_ATTEMPTS {
            OutboundStep::Abandon
        } else {
            OutboundStep::Repost
        },
    }
}

/// What becomes of a message that waits, given what the help desk says of it
/// and how often it was sent again.
pub fn reconcile_outbound(lookup: Lookup, attempts: i16) -> (r: OutboundStep)
    ensures
        r == outbound_step(lookup, attempts),
{
    match lookup {
        Lookup::Found => OutboundStep::MarkSent,
        Lookup::Failed => OutboundStep::Leave,
        _ => if attempts >= MAX_ATTEMPTS {
            OutboundStep::Abandon
        } else {
            OutboundStep::Repost
        },
    }
}

/// The state of an outgoing message.
#[derive(PartialEq, Eq, Structural, Clone, Copy, Debug)]
pub enum OutboundState {
    Pending,
    Sent,
    Abandoned,
}

/// The stored name of a state.
pub open spec fn state_text(s: OutboundState) -> Seq<char> {
    match s {
        OutboundState::Pending => "pending"@,
        OutboundState::Sent => "sent"@,
        OutboundState::Abandoned => "abandoned"@,
    }
}

impl OutboundState {
    /// The stored name.
    pub fn as_str(&self) -> (r: &'static str)
        ensures
            r@ == state_text(*self),
    {
        match self {
            OutboundState::Pending => "pending",
            OutboundState::Sent => "sent",
            OutboundState::Abandoned => "abandoned",
        }
    }
}

/// What is kept of a waiting message between two rounds.
#[derive(PartialEq, Eq, Structural, Clone, Copy, Debug)]
pub struct Waiting {
    pub state: OutboundState,
    pub attempts: i16,
}

/// A waiting message after one round: `reposted` says whether sending it again
/// worked, where that was tried.
pub open spec fn after_round(w: Waiting, lookup: Lookup, reposted: bool) -> Waiting {
    if w.state != OutboundState::Pending {
        w
    } else {
        match outbound_step(lookup, w.attempts) {
            OutboundStep::MarkSent => Waiting { state: OutboundState::Sent, ..w },
            OutboundStep::Leave => w,
            OutboundStep::Abandon => Waiting { state: OutboundState::Abandoned, ..w },
            OutboundStep::Repost => if reposted {
                Waiting { state: OutboundState::Sent, attempts: (w.attempts + 1) as i16 }
            } else {
                Waiting { attempts: (w.attempts + 1) as i16, ..w }
            },
        }
    }
}

/// What came of sending a message again.
#[derive(Debug)]
pub enum Reposted {
    /// The help desk took it, under this id.
    Taken(i64),
    /// It did not, for this reason.
    Failed(String),
}

/// What is written of a message after a round.
#[derive(Debug)]
pub struct OutboundUpdate {
    pub waiting: Waiting,
    /// The new id of the message; `None` where it keeps the one it has.
    pub msg_id: Option<i64>,
    /// The new error; `None` where the old one stays.
    pub error: Option<String>,
}

/// What is written of a message that waits, after a round in which the help desk
/// said `lookup` of it; `None` where nothing is. `reposted` is what came of
/// sending it again, which [`reconcile_outbound`] asks for.
pub fn settle_outbound(lookup: Lookup, attempts: i16, reposted: Option<Reposted>) -> (r: Option<
    OutboundUpdate,
>)
    requires
        outbound_step(lookup, attempts) is Repost ==> reposted is Some,
    ensures
        r is None <==> outbound_step(lookup, attempts) is Leave,
        r matches Some(u) ==> {
            let step = outbound_step(lookup, attempts);
            let taken = reposted matches Some(x) && x is Taken;
            &&& u.waiting == after_round(
                Waiting { state: OutboundState::Pending, attempts },
                lookup,
                taken,
            )
            &&& u.msg_id == if step is Repost && taken {
                Some(reposted->Some_0->Taken_0)
            } else {
                None
            }
            &&& opt_text(u.error) == if step is Abandon {
                Some(MAX_ATTEMPTS_ERROR@)
            } else if step is Repost && !taken {
                Some(reposted->Some_0->Failed_0@)
            } else {
                None
            }
        },
{
    match reconcile_outbound(lookup, attempts) {
        OutboundStep::Leave => None,
        OutboundStep::MarkSent => Some(
            OutboundUpdate {
                waiting: Waiting { state: OutboundState::Sent, attempts },
                msg_id: None,
                error: None,
            },
        ),
        OutboundStep::Abandon => Some(
            OutboundUpdate {
                waiting: Waiting { state: OutboundState::Abandoned, attempts },
                msg_id: None,
                error: Some(MAX_ATTEMPTS_ERROR.to_string()),
            },
        ),
        OutboundStep::Repost => match reposted {
            Some(Reposted::Taken(id)) => Some(
                OutboundUpdate {
                    waiting: Waiting { state: OutboundState::Sent, attempts: attempts + 1 },
                    msg_id: Some(id),
                    error: None,
                },
            ),
            Some(Reposted::Failed(e)) => Some(
                OutboundUpdate {
                    waiting: Waiting { state: OutboundState::Pending, attempts: attempts + 1 },
                    msg_id: None,
                    error: Some(e),
                },
            ),
            None => None,
        },
    }
}

/// Rounds in which the message never arrives and is never accepted.
pub open spec fn after_failures(w: Waiting, rounds: nat) -> Waiting
    decreases rounds,
{
    if rounds == 0 {
        w
    } else {
        after_round(after_failures(w, (rounds - 1) as nat), Lookup::NotFound, false)
    }
}

/// A message is sent again at most three times: no round takes its count above
/// that, and one that was sent or given up is not touched again.
pub proof fn law_reposts_are_bounded(w: Waiting, lookup: Lookup, reposted: bool)
    requires
        0 <= w.attempts <= MAX_ATTEMPTS,
    ensures
        0 <= after_round(w, lookup, reposted).attempts <= MAX_ATTEMPTS,
        !(w.state is Pending) ==> after_round(w, lookup, reposted) == w,
{
}

/// A message that keeps failing is given up in the fourth round.
pub proof fn law_failing_messages_are_given_up(w: Waiting)
    requires
        w.state is Pending,
        w.attempts == 0,
    ensures
        after_failures(w, 3).state is Pending,
        after_failures(w, 4).state is Abandoned,
{
    reveal_with_fuel(after_failures, 5);
}

/// A message that the help desk has is not sent a second time.
pub proof fn law_arrived_messages_are_not_sent_again(attempts: i16)
    ensures
        outbound_step(Lookup::Found, attempts) is MarkSent,
        outbound_step(Lookup::Failed, attempts) is Leave,
{
}

/// What comes of a message that waits. One that the help desk has counts as sent
/// and is touched no further; where the help desk cannot be asked, nothing
/// happens. One that is missing is sent again while fewer than three attempts
/// were made: it is sent, under its new id, where the help desk took it, and
/// waits on with the reason where it did not. After three attempts it is given
/// up.
pub proof fn law_what_comes_of_a_waiting_message(
    lookup: Lookup,
    attempts: i16,
    reposted: Option<Reposted>,
    r: Option<OutboundUpdate>,
)
    requires
        call_ensures(settle_outbound, (lookup, attempts, reposted), r),
    ensures
        lookup is Failed <==> r is None,
        lookup is Found ==> (r matches Some(u) && u.waiting.state is Sent && u.waiting.attempts
            == attempts && u.msg_id is None && u.error is None),
        (lookup is NotFound || lookup is NotAsked) && attempts >= 3 ==> (r matches Some(u)
            && u.waiting.state is Abandoned && u.waiting.attempts == attempts && u.msg_id is None
            && opt_text(u.error) == Some("max_attempts"@)),
        (lookup is NotFound || lookup is NotAsked) && attempts < 3 ==> (reposted matches Some(
            Reposted::Taken(id),
        ) ==> (r matches Some(u) && u.waiting.state is Sent && u.waiting.attempts == attempts + 1
            && u.msg_id == Some(id) && u.error is None)),
        (lookup is NotFound || lookup is NotAsked) && attempts < 3 ==> (reposted matches Some(
            Reposted::Failed(why),
        ) ==> (r matches Some(u) && u.waiting.state is Pending && u.waiting.attempts == attempts
            + 1 && u.msg_id is None && opt_text(u.error) == Some(why@))),
{
}

/// A message is sent again exactly where the help desk lacks it and fewer than
/// three attempts were made.
pub proof fn law_missing_messages_are_sent_again(
    lookup: Lookup,
    attempts: i16,
    r: OutboundStep,
)
    requires
        call_ensures(reconcile_outbound, (lookup, attempts), r),
    ensures
        r is Repost <==> (lookup is NotFound || lookup is NotAsked) && attempts < 3,
        r is Abandon <==> (lookup is NotFound || lookup is NotAsked) && attempts >= 3,
        r is MarkSent <==> lookup is Found,
        r is Leave <==> lookup is Failed,
{
}

/// Each state of a message is kept under a name of its own.
pub proof fn law_message_states_are_kept_by_name(s: OutboundState, r: &'static str)
    requires
        call_ensures(OutboundState::as_str, (&s,), r),
    ensures
        s is Pending <==> r@ == "pending"@,
        s is Sent <==> r@ == "sent"@,
        s is Abandoned <==> r@ == "abandoned"@,
{
    reveal_strlit("pending");
    reveal_strlit("sent");
    reveal_strlit("abandoned");
    assert("pending"@.len() == 7 && "sent"@.len() == 4 && "abandoned"@.len() == 9);
}

} // verus!
