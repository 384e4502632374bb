//! A short word to the contact when the answer will take a while.
use crate::same_label_in;
use crate::text;
use crate::text::int_text;
use crate::worker::collect_turn::{attached, CollectedTurn};
use crate::worker::state::ConversationState;
use vstd::prelude::*;

verus! {

/// The texts to choose from.
pub const ACK_TEXTS: [&'static str; 4] = [
    "Bom dia! Só um instante que já verifico aqui.",
    "Recebi! Estou consultando seu cadastro, um instante.",
    "Oi! Já estou olhando isso pra você, rapidinho.",
    "Opa, deixa comigo — já volto com a resposta.",
];

/// A contact that was silent for longer than this is greeted again, in seconds.
pub const IDLE_SECS: u64 = 1800;

/// Key that marks the last word sent: `ack:conv:{conv_id}`.
pub fn ack_key(conv_id: i64) -> (r: String)
    ensures
        r@ == "ack:conv:"@ + int_text(conv_id as int),
{
    let mut r = "ack:conv:".to_string();
    r.append(text::i64_text(conv_id).as_str());
    r
}

/// When the contact was last heard.
#[derive(Debug, Clone, Copy)]
pub struct ContactRecency {
    /// The turn is the contact's first of the day.
    pub first_today: bool,
    /// Seconds since the contact was heard before this turn.
    pub idle_secs: u64,
}

/// The day of a time in microseconds.
pub open spec fn day_of(micros: int) -> int {
    micros / 86400000000
}

/// When the contact was last heard before a turn. Days are those of UTC; a
/// contact who was never heard is new today and was silent for ever.
pub fn recency(last_micros: Option<i64>, now_micros: i64) -> (r: ContactRecency)
    ensures
        match last_micros {
            Some(last) => {
                &&& r.first_today == (day_of(last as int) != day_of(now_micros as int))
                &&& r.idle_secs == if last <= now_micros {
                    (now_micros - last) / 1000000
                } else {
                    0
                }
            },
            None => r.first_today && r.idle_secs == u64::MAX,
        },
{
    match last_micros {
        Some(last) => {
            let idle: u64 = if last <= now_micros {
                ((now_micros as i128 - last as i128) / 1000000) as u64
            } else {
                0
            };
            ContactRecency {
                first_today: floor_days(last) != floor_days(now_micros),
                idle_secs: idle,
            }
        },
        None => ContactRecency { first_today: true, idle_secs: u64::MAX },
    }
}

fn floor_days(micros: i64) -> (r: i64)
    ensures
        r == day_of(micros as int),
{
    if micros >= 0 {
        micros / 86400000000
    } else {
        -(-(micros + 1) / 86400000000) - 1
    }
}

/// An attachment or several messages make a run that takes long.
pub open spec fn likely_slow(turn: CollectedTurn) -> bool {
    turn.messages@.len() > 1 || exists|i: int|
        0 <= i < turn.messages@.len() && attached(#[trigger] turn.messages@[i])
}

/// Whether the AI is muted in a conversation by the label of the limiter.
pub open spec fn muted(conv: ConversationState) -> bool {
    same_label_in(text::texts(conv.labels@), "ia:limitado"@)
}

/// Whether to send a word: the run will take long, the contact is new today or
/// was silent for half an hour, no word was sent of late, and the AI is not
/// muted.
pub fn should_ack(
    conv: &ConversationState,
    turn: &CollectedTurn,
    recency: ContactRecency,
    acked_recently: bool,
) -> (r: bool)
    ensures
        r == (likely_slow(*turn) && (recency.first_today || recency.idle_secs > IDLE_SECS)
            && !acked_recently && !muted(*conv)),
{
    let slow = turn.has_attachment() || turn.messages.len() > 1;
    if !slow {
        return false;
    }
    if !recency.first_today && recency.idle_secs <= IDLE_SECS {
        return false;
    }
    !acked_recently && !is_muted(conv)
}

/// For how long no further word is sent, in seconds: the configured time, rounded
/// up, and a minute at least.
pub open spec fn ack_ttl(ack_cooldown_ms: int) -> int {
    let secs = (ack_cooldown_ms + 999) / 1000;
    if secs < 60 {
        60
    } else {
        secs
    }
}

/// The mark of a word that was sent outlives the configured time: whoever finds
/// no mark is past it. It outlives it by less than a second, but for the minute
/// that it lives in any case.
pub proof fn law_the_mark_outlives_the_cooldown(ack_cooldown_ms: u64)
    ensures
        ack_ttl(ack_cooldown_ms as int) >= 60,
        ack_ttl(ack_cooldown_ms as int) * 1000 >= ack_cooldown_ms,
        ack_ttl(ack_cooldown_ms as int) == 60 || ack_ttl(ack_cooldown_ms as int) * 1000
            < ack_cooldown_ms + 1000,
{
}

/// For how long no further word is sent, in seconds.
pub fn ack_ttl_secs(ack_cooldown_ms: u64) -> (r: u64)
    ensures
        r == ack_ttl(ack_cooldown_ms as int),
        r >= 60 && r as int * 1000 >= ack_cooldown_ms,
{
    let whole: u64 = ack_cooldown_ms / 1000;
    let secs: u64 = if ack_cooldown_ms % 1000 == 0 {
        whole
    } else {
        whole + 1
    };
    if secs < 60 {
        60
    } else {
        secs
    }
}

/// `chrono::Utc::now`: the nanoseconds of the current second. They differ from
/// call to call, so nothing is said of them.
#[verifier::external_body]
fn clock_nanos() -> (r: u32)
{
    chrono::Utc::now().timestamp_subsec_nanos()
}

/// The text for the given nanoseconds of the clock.
pub fn pick_ack_at(nanos: u32) -> (r: &'static str)
    ensures
        r@ == ACK_TEXTS@[nanos as int % 4]@,
{
    ACK_TEXTS[(nanos % 4) as usize]
}

/// One of the texts, by the clock.
pub fn pick_ack() -> (r: &'static str)
    ensures
        exists|i: int| 0 <= i < 4 && r@ == (#[trigger] ACK_TEXTS@[i])@,
{
    let n = clock_nanos();
    let r = pick_ack_at(n);
    assert(r@ == ACK_TEXTS@[n as int % 4]@);
    r
}

/// `true` where the limiter muted the AI with its label.
pub fn is_muted(conv: &ConversationState) -> (r: bool)
    ensures
        r == muted(*conv),
{
    crate::has_label(&conv.labels, crate::AI_LIMITED_LABEL)
}

// ---------------------------------------------------------------------------
// Laws
// ---------------------------------------------------------------------------

/// Whether the turn is a single message without a file.
pub open spec fn one_plain_message(turn: CollectedTurn) -> bool {
    turn.messages@.len() == 1 && !turn.messages@[0].has_attachment
        && turn.messages@[0].attachments@.len() == 0
}

/// A contact gets a word ahead of the answer only where it helps: not for a
/// single message without a file, not in the middle of a talk, not twice within
/// the cooldown, and not where the limiter muted the AI.
pub proof fn law_no_word_without_need(
    conv: ConversationState,
    turn: CollectedTurn,
    heard: ContactRecency,
    acked_recently: bool,
    r: bool,
)
    requires
        call_ensures(should_ack, (&conv, &turn, heard, acked_recently), r),
    ensures
        acked_recently ==> !r,
        turn.messages@.len() == 0 ==> !r,
        one_plain_message(turn) ==> !r,
        !heard.first_today && heard.idle_secs <= 1800 ==> !r,
        forall|i: int|
            0 <= i < conv.labels@.len() && text::same_ascii_case_folded(
                (#[trigger] conv.labels@[i])@,
                "ia:limitado"@,
            ) ==> !r,
{
    assert forall|i: int|
        0 <= i < conv.labels@.len() && text::same_ascii_case_folded(
            (#[trigger] conv.labels@[i])@,
            "ia:limitado"@,
        ) implies !r by {
        assert(text::texts(conv.labels@)[i] == conv.labels@[i]@);
    }
}

/// A contact who is new today, or comes back after half an hour, gets a word
/// ahead of the answer to a turn of several messages or with a file.
pub proof fn law_a_returning_contact_gets_a_word(
    conv: ConversationState,
    turn: CollectedTurn,
    heard: ContactRecency,
    i: int,
    r: bool,
)
    requires
        call_ensures(should_ack, (&conv, &turn, heard, false), r),
        heard.first_today || heard.idle_secs > 1800,
        turn.messages@.len() > 1 || (0 <= i < turn.messages@.len() && (
        turn.messages@[i].has_attachment || turn.messages@[i].attachments@.len() > 0)),
        forall|k: int|
            0 <= k < conv.labels@.len() ==> !text::same_ascii_case_folded(
                (#[trigger] conv.labels@[k])@,
                "ia:limitado"@,
            ),
    ensures
        r,
{
    if turn.messages@.len() <= 1 {
        assert(attached(turn.messages@[i]));
    }
    if muted(conv) {
        let k = choose|k: int|
            0 <= k < text::texts(conv.labels@).len() && text::same_ascii_case_folded(
                #[trigger] text::texts(conv.labels@)[k],
                "ia:limitado"@,
            );
        assert(conv.labels@[k]@ == text::texts(conv.labels@)[k]);
    }
}

/// How long a contact was silent: whole seconds, none where the clock went back,
/// for ever where the contact was never heard. A contact heard on the same day
/// is not new.
pub proof fn law_silence_is_measured(last: Option<i64>, now_micros: i64, r: ContactRecency)
    requires
        call_ensures(recency, (last, now_micros), r),
    ensures
        last is None ==> r.first_today && r.idle_secs == u64::MAX,
        last matches Some(t) ==> {
            &&& t <= now_micros ==> r.idle_secs * 1000000 <= now_micros - t < (r.idle_secs + 1)
                * 1000000
            &&& t > now_micros ==> r.idle_secs == 0
            &&& now_micros - t >= 86400000000 ==> r.first_today
            &&& t == now_micros ==> !r.first_today
            &&& forall|day: int|
                #![trigger day * 86400000000]
                day * 86400000000 <= t < (day + 1) * 86400000000 ==> (r.first_today <==> !(day
                    * 86400000000 <= now_micros < (day + 1) * 86400000000))
        },
{
}

/// The mark of a word that was sent lives a minute at least, as long as the
/// cooldown, and less than a second longer.
pub proof fn law_the_cooldown_is_kept(ack_cooldown_ms: u64, r: u64)
    requires
        call_ensures(ack_ttl_secs, (ack_cooldown_ms,), r),
    ensures
        r >= 60,
        r * 1000 >= ack_cooldown_ms,
        ack_cooldown_ms > 60000 ==> r * 1000 < ack_cooldown_ms + 1000,
        ack_cooldown_ms <= 60000 ==> r == 60,
{
}

/// The clock chooses among four different texts: two moments give the same one
/// exactly where they agree modulo four.
pub proof fn law_four_texts_take_turns(a: u32, b: u32, x: &'static str, y: &'static str)
    requires
        call_ensures(pick_ack_at, (a,), x),
        call_ensures(pick_ack_at, (b,), y),
    ensures
        x@ == y@ <==> a % 4 == b % 4,
        x@.len() > 0,
{
    reveal_strlit("Bom dia! Só um instante que já verifico aqui.");
    reveal_strlit("Recebi! Estou consultando seu cadastro, um instante.");
    reveal_strlit("Oi! Já estou olhando isso pra você, rapidinho.");
    reveal_strlit("Opa, deixa comigo — já volto com a resposta.");
    assert(ACK_TEXTS@[0]@[0] == 'B' && ACK_TEXTS@[1]@[0] == 'R');
    assert(ACK_TEXTS@[2]@[0] == 'O' && ACK_TEXTS@[3]@[0] == 'O');
    assert(ACK_TEXTS@[2]@[1] == 'i' && ACK_TEXTS@[3]@[1] == 'p');
}

} // verus!
