//! The end of a run: what is written down.
use crate::duration::seconds;
use crate::ids::{hex_digit, lemma_hex_digits_differ, pow16};
use crate::state_machine::{next_state, AiState, StateEvent};
use crate::text;
use crate::text::opt_text;
use crate::worker::outbound_gate::ReviewedResponse;
use crate::worker::state::ConversationState;
use std::time::Duration;
use vstd::prelude::*;

verus! {

/// A run that takes longer than this is long, in seconds.
pub const LONG_RUN_SECS: u64 = 60;

/// One step of the FNV-1a hash.
pub open spec fn fnv_step(h: u64, b: u8) -> u64 {
    ((h ^ (b as u64)) as int * 0x100000001b3 % 0x10000000000000000) as u64
}

/// The 64-bit FNV-1a hash of a row of bytes.
pub open spec fn fnv(bytes: Seq<u8>) -> u64
    decreases bytes.len(),
{
    if bytes.len() == 0 {
        0xcbf29ce484222325
    } else {
        fnv_step(fnv(bytes.drop_last()), bytes.last())
    }
}

/// Sixteen hexadecimal digits of `h`, small letters.
pub open spec fn hex16(h: u64) -> Seq<char> {
    hex_tail(h as nat, 16)
}

/// The last `k` hexadecimal digits of `n`.
pub open spec fn hex_tail(n: nat, k: nat) -> Seq<char>
    decreases k,
{
    if k == 0 {
        Seq::empty()
    } else {
        hex_tail(n / 16, (k - 1) as nat).push(hex_digit((n % 16) as int))
    }
}

fn hex_char(d: u64) -> (r: char)
    requires
        d < 16,
    ensures
        r == hex_digit(d as int),
{
    if d < 10 {
        ((48 + d) as u8) as char
    } else {
        ((87 + d) as u8) as char
    }
}

fn hex_digits(n: u64, k: u8) -> (r: String)
    ensures
        r@ == hex_tail(n as nat, k as nat),
    decreases k,
{
    if k == 0 {
        let r = String::new();
        assert(r@ =~= hex_tail(n as nat, 0));
        r
    } else {
        let mut r = hex_digits(n / 16, k - 1);
        r.push(hex_char(n % 16));
        r
    }
}

/// The hash of a text as it is kept: FNV-1a of its UTF-8 bytes, in hexadecimal.
pub fn hash_text(text: &str) -> (r: String)
    ensures
        r@ == hex16(fnv(vstd::utf8::encode_utf8(text@))),
{
    let bytes = text.as_bytes();
    let mut h: u64 = 0xcbf29ce484222325;
    let mut i: usize = 0;
    while i < bytes.len()
        invariant
            i <= bytes@.len(),
            bytes@ == vstd::utf8::encode_utf8(text@),
            h == fnv(bytes@.take(i as int)),
        decreases bytes@.len() - i,
    {
        let ghost prior = h;
        assert(bytes@.take(i as int + 1).drop_last() =~= bytes@.take(i as int));
        h = h ^ (bytes[i] as u64);
        h = h.wrapping_mul(0x100000001b3);
        i += 1;
        assert(h == fnv_step(prior, bytes@[i - 1]));
    }
    assert(bytes@.take(i as int) =~= bytes@);
    hex_digits(h, 16)
}

/// What is written down at the end of a run.
#[derive(Debug, Clone)]
pub struct FinalizePlan {
    pub ai_state: AiState,
    pub prior_ai_turns_in_row: u16,
    pub last_ai_msg_hash: Option<String>,
    /// The status of the run.
    pub run_status: &'static str,
    /// How long the run took, in milliseconds.
    pub latency_ms: i32,
    /// The run was a long one.
    pub was_long: bool,
    /// The outbound gate blocked the answer.
    pub count_block: bool,
}

/// Whether a plan is what is written down at the end of a run.
pub open spec fn closes(
    r: FinalizePlan,
    conv: ConversationState,
    reviewed: ReviewedResponse,
    elapsed_ms: u64,
) -> bool {
    &&& r.ai_state == (match next_state(conv.ai_state, StateEvent::AiResponded) {
        Some(s) => s,
        None => AiState::AiActive,
    })
    &&& r.prior_ai_turns_in_row == 1
    &&& opt_text(r.last_ai_msg_hash) == (match reviewed.reply {
        Some(x) => Some(hex16(fnv(vstd::utf8::encode_utf8(x.text@)))),
        None => None,
    })
    &&& r.run_status@ == "succeeded"@
    &&& r.latency_ms == elapsed_ms as i32
    &&& r.was_long == (elapsed_ms > 60000)
    &&& r.count_block == reviewed.blocked
}

/// What is written down at the end of a run that took `elapsed_ms`. The contact
/// started this run, so the next turn of the AI is the second in a row.
pub fn finalize(conv_state: &ConversationState, reviewed: &ReviewedResponse, elapsed_ms: u64) -> (r:
    FinalizePlan)
    ensures
        closes(r, *conv_state, *reviewed, elapsed_ms),
{
    let ai_state = match conv_state.ai_state.transition(&StateEvent::AiResponded) {
        Ok(s) => s,
        Err(_) => AiState::AiActive,
    };
    let last_ai_msg_hash = match &reviewed.reply {
        Some(x) => Some(hash_text(x.text.as_str())),
        None => None,
    };
    FinalizePlan {
        ai_state,
        prior_ai_turns_in_row: 1,
        last_ai_msg_hash,
        run_status: "succeeded",
        latency_ms: #[verifier::truncate]
        (elapsed_ms as i32),
        was_long: elapsed_ms > LONG_RUN_SECS * 1000,
        count_block: reviewed.blocked,
    }
}

/// A run that takes longer than this is long.
pub fn long_run_threshold() -> (r: Duration)
    ensures
        r == seconds(60),
{
    Duration::from_secs(LONG_RUN_SECS)
}

/// A hash is sixteen characters long.
pub proof fn law_hash_has_sixteen_digits(h: u64)
    ensures
        hex16(h).len() == 16,
{
    lemma_hex_tail_len(h as nat, 16);
}

proof fn lemma_hex_tail_len(n: nat, k: nat)
    ensures
        hex_tail(n, k).len() == k,
    decreases k,
{
    if k > 0 {
        lemma_hex_tail_len(n / 16, (k - 1) as nat);
    }
}

/// After a run the AI is active: it waits for the contact.
pub proof fn law_a_run_ends_active(s: AiState)
    ensures
        (match next_state(s, StateEvent::AiResponded) {
            Some(n) => n,
            None => AiState::AiActive,
        }) is AiActive,
{
}

/// What is written down at the end of a run: the AI is active again and has one
/// turn in a row, the run succeeded, its time is kept in milliseconds, and a run
/// of more than a minute is a long one.
pub proof fn law_what_a_run_leaves_behind(
    conv: ConversationState,
    reviewed: ReviewedResponse,
    elapsed_ms: u64,
    r: FinalizePlan,
)
    requires
        call_ensures(finalize, (&conv, &reviewed, elapsed_ms), r),
    ensures
        r.ai_state is AiActive,
        r.prior_ai_turns_in_row == 1,
        r.run_status@ == "succeeded"@,
        elapsed_ms <= i32::MAX ==> r.latency_ms == elapsed_ms,
        r.was_long <==> elapsed_ms > 60000,
        r.count_block == reviewed.blocked,
        r.last_ai_msg_hash is Some <==> reviewed.reply is Some,
        r.last_ai_msg_hash matches Some(h) ==> h@.len() == 16,
{
    if let Some(x) = reviewed.reply {
        law_hash_has_sixteen_digits(fnv(vstd::utf8::encode_utf8(x.text@)));
    }
    law_a_run_ends_active(conv.ai_state);
}

/// Two runs whose replies read the same leave the same hash behind.
pub proof fn law_same_replies_leave_the_same_hash(
    c1: ConversationState,
    c2: ConversationState,
    x1: ReviewedResponse,
    x2: ReviewedResponse,
    e1: u64,
    e2: u64,
    r1: FinalizePlan,
    r2: FinalizePlan,
)
    requires
        call_ensures(finalize, (&c1, &x1, e1), r1),
        call_ensures(finalize, (&c2, &x2, e2), r2),
        x1.reply is Some,
        x2.reply is Some,
        x1.reply->Some_0.text@ == x2.reply->Some_0.text@,
    ensures
        opt_text(r1.last_ai_msg_hash) == opt_text(r2.last_ai_msg_hash),
{
}

proof fn lemma_hex_tails_differ(a: nat, b: nat, k: nat)
    requires
        a < pow16(k),
        b < pow16(k),
        hex_tail(a, k) == hex_tail(b, k),
    ensures
        a == b,
    decreases k,
{
    if k > 0 {
        let x = hex_tail(a / 16, (k - 1) as nat);
        let y = hex_tail(b / 16, (k - 1) as nat);
        let p = hex_tail(a, k);
        let q = hex_tail(b, k);
        assert(p.drop_last() =~= x && q.drop_last() =~= y);
        assert(p.last() == hex_digit((a % 16) as int) && q.last() == hex_digit((b % 16) as int));
        lemma_hex_digits_differ((a % 16) as int, (b % 16) as int);
        lemma_hex_tails_differ(a / 16, b / 16, (k - 1) as nat);
    }
}

/// The digits of a hash lose nothing of it: different hashes are written
/// differently.
pub proof fn law_hashes_are_told_apart(a: u64, b: u64)
    requires
        hex16(a) == hex16(b),
    ensures
        a == b,
{
    assert(pow16(16) == 0x10000000000000000) by {
        reveal_with_fuel(pow16, 17);
    }
    lemma_hex_tails_differ(a as nat, b as nat, 16);
}

/// A run of more than a minute is a long one.
pub proof fn law_a_long_run_takes_a_minute(r: Duration)
    requires
        call_ensures(long_run_threshold, (), r),
    ensures
        r == seconds(60),
{
}

/// The hash of a text is taken byte by byte: each byte is mixed into what stands,
/// which is then multiplied by the prime, and what does not fit into sixty-four
/// bits is dropped.
pub proof fn law_hashes_are_taken_byte_by_byte(text: &str, bytes: Seq<u8>, b: u8, r: String)
    requires
        call_ensures(hash_text, (text,), r),
    ensures
        vstd::utf8::encode_utf8(text@) == bytes.push(b) ==> r@ == hex16(
            ((fnv(bytes) ^ (b as u64)) as int * 1099511628211 % 18446744073709551616) as u64,
        ),
        vstd::utf8::encode_utf8(text@).len() == 0 ==> r@ == hex16(14695981039346656037),
{
    assert(bytes.push(b).drop_last() =~= bytes);
}

} // verus!
