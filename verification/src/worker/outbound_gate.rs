//! The outbound gate: nothing leaves the bridge without passing it.
//!
//! The outbound gate changes an answer (drops actions, cuts, redacts) and notes each
//! change under the name of its rule. It blocks only an empty answer and a
//! reply that repeats the last one.
use crate::config::Config;
use crate::model::agent::{
    actions_of, reply_of, Action, ActionKind, ActionV, AgentResponse, Reply, ReplyV, ONE_BITS,
};
use crate::pattern;
use crate::pattern::{regex_compiles, regex_matches, regex_replaced};
use crate::similarity;
use crate::similarity::jaro_winkler_bits;
use crate::text;
use crate::text::{
    ascii_lowered, decimal, first_chars, has_text, joined, notes_of, opt_str, opt_text, replaced,
    same_ascii_case_folded, stands_at, trimmed, words,
};
use crate::worker::state::ConversationState;
use vstd::prelude::*;

verus! {

/// An answer after the outbound gate.
#[derive(Debug, Clone)]
pub struct ReviewedResponse {
    pub run_id: Option<String>,
    pub reply: Option<Reply>,
    pub actions: Vec<Action>,
    pub handoff_required: bool,
    pub handoff_reason: Option<String>,
    pub modifications: Vec<&'static str>,
    pub blocked: bool,
    pub block_reason: Option<String>,
}

/// Markers of the agent's inner workings that must not leak.
pub const INTERNAL_MARKERS: [&'static str; 8] = [
    "<thinking>",
    "</thinking>",
    "<system>",
    "</system>",
    "system:",
    "assistant:",
    "tool:",
    "<tool_call>",
];

/// Personal data that must not leave: CNPJ, CPF, card numbers, and what follows
/// a word for a secret.
pub const PII_PATTERN: &'static str =
    r"(?i)\b\d{2}\.?\d{3}\.?\d{3}/?\d{4}-?\d{2}\b|\b\d{3}\.?\d{3}\.?\d{3}-?\d{2}\b|\b(?:\d[ -]?){13,16}\b|\b(?:senha|token|api[_-]?key)\b\s*[:=]\s*\S+";

/// The bits of the double `0.95`.
pub const SIMILARITY_LIMIT_BITS: u64 = 0x3FEE666666666666;

// ---------------------------------------------------------------------------
// Actions
// ---------------------------------------------------------------------------

/// The kinds of action that pass at all.
pub open spec fn allowed_action(k: ActionKind) -> bool {
    !(k is CallTool) && !(k is CallAgent)
}

/// Whether an action would resolve the conversation.
pub open spec fn resolves(a: ActionV) -> bool {
    a.kind is SetStatus && (a.status matches Some(s) && same_ascii_case_folded(s, "resolved"@))
}

/// An action that would resolve the conversation loses its status.
pub open spec fn neutralized(a: ActionV) -> ActionV {
    if resolves(a) {
        ActionV { status: None, ..a }
    } else {
        a
    }
}

/// The actions of allowed kinds.
pub open spec fn allowed_actions(v: Seq<ActionV>) -> Seq<ActionV> {
    v.filter(|a: ActionV| allowed_action(a.kind))
}

/// The actions that remain: of an allowed kind, never resolving,
/// and no message besides the reply.
pub open spec fn kept_actions(v: Seq<ActionV>) -> Seq<ActionV> {
    without_messages(allowed_actions(v).map_values(|a: ActionV| neutralized(a)))
}

/// The actions but for explicit messages.
pub open spec fn without_messages(v: Seq<ActionV>) -> Seq<ActionV> {
    v.filter(|a: ActionV| !(a.kind is SendMessage))
}

/// One entry for each action that would resolve the conversation.
pub open spec fn resolve_notes(v: Seq<ActionV>) -> Seq<Seq<char>>
    decreases v.len(),
{
    if v.len() == 0 {
        Seq::empty()
    } else if resolves(v.last()) {
        resolve_notes(v.drop_last()).push("S9"@)
    } else {
        resolve_notes(v.drop_last())
    }
}

/// Whether an action of kind `k` is in the list.
pub open spec fn has_kind(v: Seq<ActionV>, k: ActionKind) -> bool {
    exists|i: int| 0 <= i < v.len() && (#[trigger] v[i]).kind == k
}

fn is_allowed_action(kind: ActionKind) -> (r: bool)
    ensures
        r == allowed_action(kind),
{
    matches!(
        kind,
        ActionKind::SendMessage | ActionKind::SendPrivateNote | ActionKind::AddLabels
            | ActionKind::RemoveLabels | ActionKind::SetCustomAttributes | ActionKind::AssignTeam
            | ActionKind::AssignAgent | ActionKind::SetPriority | ActionKind::SetStatus
            | ActionKind::Snooze | ActionKind::RequestHandoff
    )
}

/// Copies of the actions of allowed kinds.
fn copy_allowed(v: &Vec<Action>) -> (r: Vec<Action>)
    ensures
        actions_of(r@) == allowed_actions(actions_of(v@)),
{
    let ghost all = actions_of(v@);
    let mut r: Vec<Action> = Vec::new();
    let mut i: usize = 0;
    while i < v.len()
        invariant
            i <= v@.len(),
            all == actions_of(v@),
            actions_of(r@) == allowed_actions(all.take(i as int)),
        decreases v@.len() - i,
    {
        let ghost before = actions_of(r@);
        proof {
            let a = all[i as int];
            assert(all.take(i as int + 1) =~= all.take(i as int).push(a));
            all.take(i as int).lemma_filter_push(a, |x: ActionV| allowed_action(x.kind));
        }
        if is_allowed_action(v[i].kind) {
            let c = v[i].copy();
            let ghost added = c@;
            r.push(c);
            assert(actions_of(r@) =~= before.push(added));
        }
        i += 1;
    }
    assert(all.take(i as int) =~= all);
    r
}

/// Takes the status from the actions that would resolve the conversation, with
/// one note for each.
fn neutralize(v: Vec<Action>, notes: &mut Vec<&'static str>) -> (r: Vec<Action>)
    ensures
        actions_of(r@) == actions_of(v@).map_values(|a: ActionV| neutralized(a)),
        notes_of(final(notes)@) == notes_of(old(notes)@) + resolve_notes(actions_of(v@)),
{
    let mut r = v;
    let ghost all = actions_of(v@);
    let mut i: usize = 0;
    proof {
        assert(notes_of(notes@) + resolve_notes(all.take(0)) =~= notes_of(notes@));
    }
    while i < r.len()
        invariant
            i <= r@.len() == v@.len(),
            all == actions_of(v@),
            forall|k: int| 0 <= k < i ==> (#[trigger] r@[k])@ == neutralized(all[k]),
            forall|k: int| i <= k < r@.len() ==> #[trigger] r@[k] == v@[k],
            notes_of(notes@) == notes_of(old(notes)@) + resolve_notes(all.take(i as int)),
        decreases r@.len() - i,
    {
        let resolving = match &r[i].status {
            Some(s) => text::eq_ignore_case(s.as_str(), "resolved"),
            None => false,
        } && r[i].kind == ActionKind::SetStatus;
        let ghost before = notes_of(notes@);
        proof {
            assert(all[i as int] == r@[i as int]@);
            assert(all.take(i as int + 1).drop_last() =~= all.take(i as int));
            assert(all.take(i as int + 1).last() == all[i as int]);
        }
        if resolving {
            r[i].status = None;
            notes.push("S9");
            assert(notes_of(notes@) =~= before.push("S9"@));
            assert(before.push("S9"@) =~= notes_of(old(notes)@) + resolve_notes(
                all.take(i as int),
            ).push("S9"@));
        }
        i += 1;
    }
    assert(all.take(i as int) =~= all);
    assert(actions_of(r@) =~= all.map_values(|a: ActionV| neutralized(a)));
    r
}

/// Drops the explicit messages. Says whether there was one.
fn drop_messages(v: Vec<Action>) -> (r: (Vec<Action>, bool))
    ensures
        actions_of(r.0@) == without_messages(actions_of(v@)),
        r.1 == has_kind(actions_of(v@), ActionKind::SendMessage),
{
    let ghost all = actions_of(v@);
    let mut out = v;
    let mut found = false;
    let ghost mut seen: int = 0;
    let mut i: usize = 0;
    assert(all.take(0) =~= Seq::<ActionV>::empty());
    assert(actions_of(out@.take(0)) =~= without_messages(all.take(0)));
    while i < out.len()
        invariant
            i <= out@.len(),
            0 <= seen <= all.len(),
            all == actions_of(v@),
            actions_of(out@.take(i as int)) == without_messages(all.take(seen)),
            actions_of(out@.skip(i as int)) == all.skip(seen),
            found == has_kind(all.take(seen), ActionKind::SendMessage),
        decreases out@.len() - i,
    {
        proof {
            assert(actions_of(out@.skip(i as int)).len() == out@.len() - i);
            assert(all.skip(seen).len() == all.len() - seen);
            assert(actions_of(out@.skip(i as int))[0] == out@[i as int]@);
            assert(all.skip(seen)[0] == all[seen]);
            assert(all.take(seen + 1) =~= all.take(seen).push(all[seen]));
            all.take(seen).lemma_filter_push(all[seen], |a: ActionV| !(a.kind is SendMessage));
            assert(all.skip(seen).drop_first() =~= all.skip(seen + 1));
            assert(has_kind(all.take(seen + 1), ActionKind::SendMessage) == (has_kind(
                all.take(seen),
                ActionKind::SendMessage,
            ) || all[seen].kind is SendMessage)) by {
                let now = all.take(seen + 1);
                assert(now[seen] == all[seen]);
                assert(forall|k: int| 0 <= k < seen ==> now[k] == #[trigger] all.take(seen)[k]);
                if has_kind(all.take(seen), ActionKind::SendMessage) {
                    let k = choose|k: int|
                        0 <= k < seen && (#[trigger] all.take(seen)[k]).kind
                            == ActionKind::SendMessage;
                    assert(now[k].kind == ActionKind::SendMessage);
                }
                if has_kind(now, ActionKind::SendMessage) {
                    let k = choose|k: int|
                        0 <= k < now.len() && (#[trigger] now[k]).kind == ActionKind::SendMessage;
                    if k < seen {
                        assert(all.take(seen)[k].kind == ActionKind::SendMessage);
                    }
                }
            }
        }
        let ghost before = out@;
        if out[i].kind == ActionKind::SendMessage {
            out.remove(i);
            found = true;
            proof {
                assert(out@.take(i as int) =~= before.take(i as int));
                assert(out@.skip(i as int) =~= before.skip(i as int).drop_first());
                assert(actions_of(out@.skip(i as int)) =~= actions_of(
                    before.skip(i as int),
                ).drop_first());
            }
        } else {
            i += 1;
            proof {
                assert(out@.take(i as int) =~= before.take(i as int - 1).push(before[i as int - 1]));
                assert(actions_of(out@.take(i as int)) =~= actions_of(
                    before.take(i as int - 1),
                ).push(before[i as int - 1]@));
                assert(out@.skip(i as int) =~= before.skip(i as int - 1).drop_first());
                assert(actions_of(out@.skip(i as int)) =~= actions_of(
                    before.skip(i as int - 1),
                ).drop_first());
            }
        }
        proof {
            seen = seen + 1;
        }
    }
    proof {
        assert(actions_of(out@.skip(i as int)).len() == 0);
        assert(all.take(seen) =~= all);
        assert(out@.take(i as int) =~= out@);
    }
    (out, found)
}

/// Whether the answer asks for a tool.
fn asks_for_tool(v: &Vec<Action>) -> (r: bool)
    ensures
        r == has_kind(actions_of(v@), ActionKind::CallTool),
{
    let mut i: usize = 0;
    while i < v.len()
        invariant
            i <= v@.len(),
            forall|k: int|
                0 <= k < i ==> (#[trigger] actions_of(v@)[k]).kind != ActionKind::CallTool,
        decreases v@.len() - i,
    {
        if v[i].kind == ActionKind::CallTool {
            assert(actions_of(v@)[i as int].kind == ActionKind::CallTool);
            return true;
        }
        i += 1;
    }
    false
}

// ---------------------------------------------------------------------------
// Text of the reply
// ---------------------------------------------------------------------------

/// A character that ends a sentence.
pub open spec fn sentence_end(c: char) -> bool {
    c == '.' || c == '?' || c == '!' || c == '\n'
}

/// The position after the last end of a sentence in `s`; 0 where there is none.
pub open spec fn after_last_end(s: Seq<char>) -> int
    decreases s.len(),
{
    if s.len() == 0 {
        0
    } else if sentence_end(s.last()) {
        s.len() as int
    } else {
        after_last_end(s.drop_last())
    }
}

/// How much of a text stays when it is cut to `max` characters: the mark `[...]`
/// takes five of them, unless there are fewer.
pub open spec fn room(max: int) -> int {
    if max >= 5 {
        max - 5
    } else {
        max
    }
}

/// `s` cut to `max` characters: back to the last end of a sentence where there
/// is one, and marked with `[...]` where the mark has room.
pub open spec fn cut_to_sentence(s: Seq<char>, max: int) -> Seq<char> {
    let head = first_chars(s, room(max));
    let end = after_last_end(head);
    let body = if end == 0 {
        head
    } else {
        head.take(end)
    };
    if max < 5 || stands_at(body, "[...]"@, body.len() - "[...]"@.len()) {
        body
    } else {
        body + "[...]"@
    }
}

proof fn lemma_after_last_end_bound(s: Seq<char>)
    ensures
        0 <= after_last_end(s) <= s.len(),
    decreases s.len(),
{
    if s.len() > 0 {
        lemma_after_last_end_bound(s.drop_last());
    }
}

/// `text` cut to `max_chars` characters at the end of a sentence.
pub fn truncate_to_sentence(text: &str, max_chars: usize) -> (r: String)
    ensures
        r@ == cut_to_sentence(text@, max_chars as int),
{
    let marked = max_chars >= 5;
    let kept: usize = if marked {
        max_chars - 5
    } else {
        max_chars
    };
    let head = text::take_chars(text, kept);
    let v = text::chars_of(head.as_str());
    let mut end: usize = v.len();
    let mut k: usize = v.len();
    let ghost s = head@;
    assert(s.take(k as int) =~= s);
    while k > 0
        invariant_except_break
            end == v@.len(),
        invariant
            k <= v@.len(),
            v@ == s,
            after_last_end(s.take(k as int)) == after_last_end(s),
        ensures
            after_last_end(s) == 0 ==> end == s.len(),
            after_last_end(s) != 0 ==> end == after_last_end(s),
            end <= v@.len(),
        decreases k,
    {
        let c = v[k - 1];
        assert(s.take(k as int).last() == c);
        assert(s.take(k as int).drop_last() =~= s.take(k as int - 1));
        if c == '.' || c == '?' || c == '!' || c == '\n' {
            end = k;
            break ;
        }
        k -= 1;
    }
    proof {
        lemma_after_last_end_bound(s);
        assert(s.take(s.len() as int) =~= s);
    }
    let mut out = text::string_of(&v, 0, end);
    assert(out@ =~= s.take(end as int));
    if marked && !text::ends_with(out.as_str(), "[...]") {
        out.append("[...]");
    }
    out
}

/// The `k`-th marker.
pub open spec fn marker(k: int) -> Seq<char> {
    INTERNAL_MARKERS@[k]@
}

/// `s` after the first `k` markers were taken out, one after the other.
pub open spec fn stripped(s: Seq<char>, k: nat) -> Seq<char>
    decreases k,
{
    if k == 0 {
        s
    } else {
        replaced(stripped(s, (k - 1) as nat), marker(k - 1), ""@)
    }
}

/// Whether one of the first `k` markers was there when its turn came.
pub open spec fn leaks(s: Seq<char>, k: nat) -> bool
    decreases k,
{
    k > 0 && (leaks(s, (k - 1) as nat) || has_text(stripped(s, (k - 1) as nat), marker(k - 1)))
}

/// Takes the markers out of a text. Says whether there was one.
pub fn strip_markers(text: String) -> (r: (String, bool))
    ensures
        r.0@ == stripped(text@, 8),
        r.1 == leaks(text@, 8),
{
    proof {
        reveal_strlit("<thinking>");
        reveal_strlit("</thinking>");
        reveal_strlit("<system>");
        reveal_strlit("</system>");
        reveal_strlit("system:");
        reveal_strlit("assistant:");
        reveal_strlit("tool:");
        reveal_strlit("<tool_call>");
    }
    assert(forall|i: int| 0 <= i < 8 ==> (#[trigger] INTERNAL_MARKERS@[i])@.len() > 0);
    let ghost start = text@;
    let mut out = text;
    let mut leaked = false;
    let mut k: usize = 0;
    while k < 8
        invariant
            k <= 8,
            out@ == stripped(start, k as nat),
            leaked == leaks(start, k as nat),
            forall|i: int| 0 <= i < 8 ==> (#[trigger] INTERNAL_MARKERS@[i])@.len() > 0,
        decreases 8 - k,
    {
        let m = INTERNAL_MARKERS[k];
        assert(m@ == marker(k as int));
        if text::contains(out.as_str(), m) {
            out = text::replace(out.as_str(), m, "");
            leaked = true;
        } else {
            proof {
                text::lemma_replace_absent(out@, m@, ""@);
            }
        }
        k += 1;
    }
    (out, leaked)
}

/// `text`, or `replacement` where personal data was found in it. Says whether
/// it was.
pub fn apply_redaction(text: String, found: bool, replacement: String) -> (r: (String, bool))
    ensures
        r.0 == (if found {
            replacement
        } else {
            text
        }),
        r.1 == found,
{
    if found {
        (replacement, true)
    } else {
        (text, false)
    }
}

/// `s` without personal data.
pub open spec fn redacted(s: Seq<char>) -> Seq<char> {
    if regex_matches(PII_PATTERN@, s) {
        regex_replaced(PII_PATTERN@, s, "[REDIGIDO]"@)
    } else {
        s
    }
}

/// The form in which two replies are compared: small letters, single blanks.
pub open spec fn comparable(s: Seq<char>) -> Seq<char> {
    joined(words(ascii_lowered(s)), " "@)
}

/// The form in which two replies are compared.
pub fn normalize_for_similarity(s: &str) -> (r: String)
    ensures
        r@ == comparable(s@),
{
    let lower = text::lower_ascii(s);
    let w = text::split_words(lower.as_str());
    text::join(&w, " ")
}

/// A double of at most 1.0 and above 0.5, rounded to thousandths.
pub open spec fn thousandths(bits: u64) -> int {
    if bits >= ONE_BITS {
        1000
    } else {
        let mantissa = 0x10000000000000 + bits % 0x10000000000000;
        (1000 * mantissa + 0x10000000000000) / 0x20000000000000
    }
}

/// The notation of so many thousandths with three decimals.
pub open spec fn three_decimals(t: int) -> Seq<char> {
    if t == 1000 {
        "1.000"@
    } else {
        "0."@ + decimal(t as nat)
    }
}

/// Why a reply of this similarity to the last one is blocked, if it is.
pub open spec fn loop_reason(bits: u64) -> Option<Seq<char>> {
    if bits > SIMILARITY_LIMIT_BITS {
        Some("S6:loop similarity="@ + three_decimals(thousandths(bits)))
    } else {
        None
    }
}

/// Why a reply of this similarity to the last one is blocked, if it is.
pub fn loop_verdict(bits: u64) -> (r: Option<String>)
    requires
        bits <= ONE_BITS,
    ensures
        opt_text(r) == loop_reason(bits),
{
    if bits > SIMILARITY_LIMIT_BITS {
        let t: u64 = if bits >= ONE_BITS {
            1000
        } else {
            let mantissa: u64 = 0x10000000000000 + bits % 0x10000000000000;
            (1000 * mantissa + 0x10000000000000) / 0x20000000000000
        };
        let mut reason = "S6:loop similarity=".to_string();
        if t == 1000 {
            reason.append("1.000");
        } else {
            let mut n = "0.".to_string();
            n.append(text::u64_text(t).as_str());
            reason.append(n.as_str());
        }
        Some(reason)
    } else {
        None
    }
}

// ---------------------------------------------------------------------------
// The review of an answer
// ---------------------------------------------------------------------------

/// The note `n`, where `b` holds.
pub open spec fn if_note(b: bool, n: Seq<char>) -> Seq<Seq<char>> {
    if b {
        seq![n]
    } else {
        Seq::empty()
    }
}

fn note(notes: &mut Vec<&'static str>, b: bool, n: &'static str)
    ensures
        notes_of(final(notes)@) == notes_of(old(notes)@) + if_note(b, n@),
{
    let ghost before = notes_of(notes@);
    if b {
        notes.push(n);
        assert(notes_of(notes@) =~= before + seq![n@]);
    } else {
        assert(before + Seq::<Seq<char>>::empty() =~= before);
    }
}

/// The reply cut to size.
pub open spec fn fitted(s: Seq<char>, max: int) -> Seq<char> {
    if s.len() > max {
        cut_to_sentence(s, max)
    } else {
        s
    }
}

/// Cuts a text to size. Says whether it was too long.
fn fit(text: String, max: usize) -> (r: (String, bool))
    ensures
        r.0@ == fitted(text@, max as int),
        r.1 == (text@.len() > max),
{
    if text::chars_of(text.as_str()).len() > max {
        (truncate_to_sentence(text.as_str(), max), true)
    } else {
        (text, false)
    }
}

/// The reply cut to size, without personal data, without markers.
pub open spec fn cleaned(s: Seq<char>, max: int) -> Seq<char> {
    stripped(redacted(fitted(s, max)), 8)
}

/// The text that goes out. What stands for personal data may be longer than the
/// data, so the clean text is cut to size again.
pub open spec fn outgoing(s: Seq<char>, max: int) -> Seq<char> {
    fitted(cleaned(s, max), max)
}

/// Why a reply is blocked as a repetition of the last one, if it is.
pub open spec fn repetition(out: Seq<char>, last: Option<Seq<char>>) -> Option<Seq<char>> {
    match last {
        Some(l) => loop_reason(jaro_winkler_bits(comparable(out), comparable(l))),
        None => None,
    }
}

/// The notes on the text of a reply.
pub open spec fn text_notes(s: Seq<char>, max: int, last: Option<Seq<char>>) -> Seq<Seq<char>> {
    if_note(s.len() > max, "S3"@) + if_note(regex_matches(PII_PATTERN@, fitted(s, max)), "S5"@)
        + if_note(leaks(redacted(fitted(s, max)), 8), "S7"@) + if_note(
        s.len() <= max && cleaned(s, max).len() > max,
        "S3"@,
    ) + if_note(repetition(outgoing(s, max), last) is Some, "S6"@)
}

/// Reviews the text of a reply: the text that goes out, and why it is blocked,
/// if it is.
fn review_text(text: String, max: usize, last: Option<&str>, notes: &mut Vec<&'static str>) -> (r: (
    String,
    Option<String>,
))
    requires
        regex_compiles(PII_PATTERN@),
    ensures
        r.0@ == outgoing(text@, max as int),
        opt_text(r.1) == repetition(outgoing(text@, max as int), opt_str(last)),
        notes_of(final(notes)@) == notes_of(old(notes)@) + text_notes(
            text@,
            max as int,
            opt_str(last),
        ),
{
    let ghost n0 = notes_of(notes@);
    let ghost s = text@;
    let (cut, too_long) = fit(text, max);
    note(notes, too_long, "S3");
    let found = pattern::is_match(PII_PATTERN, cut.as_str());
    let replacement = if found {
        pattern::replace_all(PII_PATTERN, cut.as_str(), "[REDIGIDO]")
    } else {
        String::new()
    };
    let (clean, was_found) = apply_redaction(cut, found, replacement);
    note(notes, was_found, "S5");
    let (bare, leaked) = strip_markers(clean);
    note(notes, leaked, "S7");
    let (out, grown) = fit(bare, max);
    note(notes, !too_long && grown, "S3");
    let reason = match last {
        Some(l) => loop_verdict(
            similarity::jaro_winkler(
                normalize_for_similarity(out.as_str()).as_str(),
                normalize_for_similarity(l).as_str(),
            ),
        ),
        None => None,
    };
    note(notes, reason.is_some(), "S6");
    proof {
        let a = if_note(s.len() > max, "S3"@);
        let b = if_note(regex_matches(PII_PATTERN@, fitted(s, max as int)), "S5"@);
        let c = if_note(leaks(redacted(fitted(s, max as int)), 8), "S7"@);
        let d = if_note(s.len() <= max && cleaned(s, max as int).len() > max, "S3"@);
        let e = if_note(
            repetition(outgoing(s, max as int), opt_str(last)) is Some,
            "S6"@,
        );
        assert(n0 + a + b + c + d + e =~= n0 + (a + b + c + d + e));
    }
    (out, reason)
}

/// Whether there is a reply with more than white space in it.
pub open spec fn has_reply(r: AgentResponse) -> bool {
    r.reply matches Some(x) && trimmed(x.text@).len() > 0
}

/// An answer that says nothing, does nothing and asks for nobody.
pub open spec fn empty_envelope(r: AgentResponse) -> bool {
    !has_reply(r) && allowed_actions(actions_of(r.actions@)).len() == 0 && !r.handoff.required
}

/// The notes on the actions of an answer.
pub open spec fn action_notes(v: Seq<ActionV>) -> Seq<Seq<char>> {
    if_note(allowed_actions(v).len() != v.len(), "S2"@) + resolve_notes(allowed_actions(v))
}

/// The reply that remains.
pub open spec fn reviewed_reply(r: AgentResponse, max: int) -> Option<ReplyV> {
    match r.reply {
        Some(x) => Some(
            ReplyV {
                text: if empty_envelope(r) {
                    x.text@
                } else {
                    outgoing(x.text@, max)
                },
                content_type: opt_text(x.content_type),
            },
        ),
        None => None,
    }
}

/// Why the answer is blocked, if it is.
pub open spec fn block_reason(r: AgentResponse, max: int, last: Option<Seq<char>>) -> Option<
    Seq<char>,
> {
    if empty_envelope(r) {
        Some("S1:empty_envelope"@)
    } else {
        match r.reply {
            Some(x) => repetition(outgoing(x.text@, max), last),
            None => None,
        }
    }
}

/// The notes on the whole answer.
pub open spec fn review_notes(r: AgentResponse, max: int, last: Option<Seq<char>>) -> Seq<
    Seq<char>,
> {
    let v = actions_of(r.actions@);
    if empty_envelope(r) {
        action_notes(v) + seq!["S1"@]
    } else {
        action_notes(v) + if_note(has_kind(v, ActionKind::SendMessage), "S4"@) + (match r.reply {
            Some(x) => text_notes(x.text@, max, last),
            None => Seq::empty(),
        }) + if_note(has_kind(v, ActionKind::CallTool), "S10"@)
    }
}

/// Dropping kinds and neutralizing neither adds nor loses a message.
proof fn lemma_messages_kept(v: Seq<ActionV>)
    ensures
        has_kind(
            allowed_actions(v).map_values(|a: ActionV| neutralized(a)),
            ActionKind::SendMessage,
        ) == has_kind(v, ActionKind::SendMessage),
{
    let p = |a: ActionV| allowed_action(a.kind);
    let kept = allowed_actions(v);
    let out = kept.map_values(|a: ActionV| neutralized(a));
    if has_kind(v, ActionKind::SendMessage) {
        let i = choose|i: int|
            0 <= i < v.len() && (#[trigger] v[i]).kind == ActionKind::SendMessage;
        v.lemma_filter_contains(p, i);
        let k = choose|k: int| 0 <= k < kept.len() && kept[k] == v[i];
        assert(out[k].kind == ActionKind::SendMessage);
    }
    if has_kind(out, ActionKind::SendMessage) {
        let k = choose|k: int|
            0 <= k < out.len() && (#[trigger] out[k]).kind == ActionKind::SendMessage;
        assert(kept.contains(kept[k]));
        v.lemma_filter_contains_rev(p, kept[k]);
        let i = choose|i: int| 0 <= i < v.len() && v[i] == kept[k];
        assert(v[i].kind == ActionKind::SendMessage);
    }
}

/// Whether a reviewed answer is what the rules make of an answer. `last` is the
/// last text that went to the contact.
pub open spec fn reviews(
    x: ReviewedResponse,
    response: AgentResponse,
    max: int,
    last: Option<Seq<char>>,
) -> bool {
    &&& opt_text(x.run_id) == opt_text(response.run_id)
    &&& x.handoff_required == response.handoff.required
    &&& opt_text(x.handoff_reason) == opt_text(response.handoff.reason)
    &&& actions_of(x.actions@) == kept_actions(actions_of(response.actions@))
    &&& reply_of(x.reply) == reviewed_reply(response, max)
    &&& opt_text(x.block_reason) == block_reason(response, max, last)
    &&& x.blocked == (x.block_reason is Some)
    &&& notes_of(x.modifications@) == review_notes(response, max, last)
}

/// Reviews an answer. `last_reply` is the last text that went to the contact.
///
/// The pattern for personal data must compile; [`try_evaluate`] tests that.
pub fn evaluate(
    response: &AgentResponse,
    state: &ConversationState,
    config: &Config,
    last_reply: Option<&str>,
) -> (r: ReviewedResponse)
    requires
        regex_compiles(PII_PATTERN@),
    ensures
        reviews(r, *response, config.agent.max_output_chars as int, opt_str(last_reply)),
{
    let ghost all = actions_of(response.actions@);
    let ghost max = config.agent.max_output_chars as int;
    let ghost last = opt_str(last_reply);
    let mut notes: Vec<&'static str> = Vec::new();
    assert(notes_of(notes@) =~= Seq::<Seq<char>>::empty());
    let run_id = text::copy_opt(&response.run_id);
    let handoff_reason = text::copy_opt(&response.handoff.reason);
    let handoff_required = response.handoff.required;
    let allowed = copy_allowed(&response.actions);
    assert(actions_of(allowed@).len() == allowed@.len());
    note(&mut notes, allowed.len() != response.actions.len(), "S2");
    let neutral = neutralize(allowed, &mut notes);
    assert(notes_of(notes@) =~= action_notes(all));
    assert(actions_of(neutral@).len() == neutral@.len());
    let replies = match &response.reply {
        Some(x) => !text::is_blank(x.text.as_str()),
        None => false,
    };
    if !replies && neutral.len() == 0 && !handoff_required {
        note(&mut notes, true, "S1");
        assert(kept_actions(all) =~= actions_of(neutral@)) by {
            assert(allowed_actions(all).map_values(|a: ActionV| neutralized(a)) =~= Seq::<
                ActionV,
            >::empty());
            assert(without_messages(Seq::<ActionV>::empty()) =~= Seq::<ActionV>::empty());
        }
        let reply = match &response.reply {
            Some(x) => Some(
                Reply { text: x.text.clone(), content_type: text::copy_opt(&x.content_type) },
            ),
            None => None,
        };
        return ReviewedResponse {
            run_id,
            reply,
            actions: neutral,
            handoff_required,
            handoff_reason,
            modifications: notes,
            blocked: true,
            block_reason: Some("S1:empty_envelope".to_string()),
        };
    }
    let ghost n1 = notes_of(notes@);
    let (actions, explicit) = drop_messages(neutral);
    proof {
        lemma_messages_kept(all);
    }
    note(&mut notes, explicit, "S4");
    let ghost n2 = notes_of(notes@);
    let (reply, reason) = match &response.reply {
        Some(x) => {
            let (out, reason) = review_text(
                x.text.clone(),
                config.agent.max_output_chars,
                last_reply,
                &mut notes,
            );
            (Some(Reply { text: out, content_type: text::copy_opt(&x.content_type) }), reason)
        },
        None => (None, None),
    };
    proof {
        assert(n2 + Seq::<Seq<char>>::empty() =~= n2);
    }
    let tool = asks_for_tool(&response.actions);
    note(&mut notes, tool, "S10");
    let blocked = reason.is_some();
    ReviewedResponse {
        run_id,
        reply,
        actions,
        handoff_required,
        handoff_reason,
        modifications: notes,
        blocked,
        block_reason: reason,
    }
}

/// Reviews an answer; `None` where the pattern for personal data does not
/// compile.
pub fn try_evaluate(
    response: &AgentResponse,
    state: &ConversationState,
    config: &Config,
    last_reply: Option<&str>,
) -> (r: Option<ReviewedResponse>)
    ensures
        r is Some == regex_compiles(PII_PATTERN@),
        r matches Some(x) ==> reviews(
            x,
            *response,
            config.agent.max_output_chars as int,
            opt_str(last_reply),
        ),
{
    if pattern::compiles(PII_PATTERN) {
        Some(evaluate(response, state, config, last_reply))
    } else {
        None
    }
}

// ---------------------------------------------------------------------------
// What is recorded, and under which key the last text is kept
// ---------------------------------------------------------------------------

/// A decision of the outbound gate, as it is recorded.
#[derive(Debug, Clone)]
pub struct GateRecord {
    pub rule: String,
    /// `"block"` or `"modify"`.
    pub decision: String,
    /// Why it was blocked; `None` where it was changed.
    pub reason: Option<String>,
    /// The rules that changed the answer; empty where it was blocked.
    pub applied: Vec<&'static str>,
}

/// The last note, or `S?`.
pub open spec fn last_note(notes: Seq<Seq<char>>) -> Seq<char> {
    if notes.len() == 0 {
        "S?"@
    } else {
        notes.last()
    }
}

/// Whether an entry is what is recorded of a review: a block with its reason, or
/// the changes; nothing where the answer passed as it was.
pub open spec fn recorded(r: Option<GateRecord>, reviewed: ReviewedResponse) -> bool {
    match r {
        None => !reviewed.blocked && reviewed.modifications@.len() == 0,
        Some(x) => {
            &&& reviewed.blocked || reviewed.modifications@.len() > 0
            &&& x.rule@ == last_note(notes_of(reviewed.modifications@))
            &&& if reviewed.blocked {
                &&& x.decision@ == "block"@
                &&& opt_text(x.reason) == Some(
                    match reviewed.block_reason {
                        Some(s) => s@,
                        None => ""@,
                    },
                )
                &&& notes_of(x.applied@) == Seq::<Seq<char>>::empty()
            } else {
                &&& x.decision@ == "modify"@
                &&& x.reason is None
                &&& notes_of(x.applied@) == notes_of(reviewed.modifications@)
            }
        },
    }
}

/// What is recorded of a review: a block with its reason, or the changes;
/// nothing where the answer passed as it was.
pub fn record(reviewed: &ReviewedResponse) -> (r: Option<GateRecord>)
    ensures
        recorded(r, *reviewed),
{
    let n = reviewed.modifications.len();
    assert(notes_of(reviewed.modifications@).len() == n);
    let rule = if n == 0 {
        "S?".to_string()
    } else {
        reviewed.modifications[n - 1].to_string()
    };
    if reviewed.blocked {
        let reason = match &reviewed.block_reason {
            Some(s) => s.clone(),
            None => "".to_string(),
        };
        let applied: Vec<&'static str> = Vec::new();
        assert(notes_of(applied@) =~= Seq::<Seq<char>>::empty());
        Some(GateRecord { rule, decision: "block".to_string(), reason: Some(reason), applied })
    } else if n > 0 {
        let mut applied: Vec<&'static str> = Vec::new();
        let mut i: usize = 0;
        while i < n
            invariant
                i <= n == reviewed.modifications@.len(),
                applied@ == reviewed.modifications@.take(i as int),
            decreases n - i,
        {
            applied.push(reviewed.modifications[i]);
            i += 1;
            assert(applied@ =~= reviewed.modifications@.take(i as int));
        }
        assert(applied@ =~= reviewed.modifications@);
        Some(GateRecord { rule, decision: "modify".to_string(), reason: None, applied })
    } else {
        None
    }
}

/// Key of the last text that went to the contact: `lastout:{conv_id}`.
pub fn last_outbound_key(conv_id: i64) -> (r: String)
    ensures
        r@ == "lastout:"@ + text::int_text(conv_id as int),
{
    let mut r = "lastout:".to_string();
    r.append(text::i64_text(conv_id).as_str());
    r
}

/// For how long the last text is kept, in seconds.
pub const LAST_OUTBOUND_TTL_SECS: u64 = 86400;

// ---------------------------------------------------------------------------
// Laws
// ---------------------------------------------------------------------------

/// No action that passes sends a second message, runs a tool, calls an
/// agent, or resolves the conversation.
pub proof fn law_kept_actions_are_safe(v: Seq<ActionV>, i: int)
    requires
        0 <= i < kept_actions(v).len(),
    ensures
        !(kept_actions(v)[i].kind is SendMessage),
        !(kept_actions(v)[i].kind is CallTool),
        !(kept_actions(v)[i].kind is CallAgent),
        !resolves(kept_actions(v)[i]),
{
    let p = |a: ActionV| allowed_action(a.kind);
    let q = |a: ActionV| !(a.kind is SendMessage);
    let kept = allowed_actions(v);
    let neutral = kept.map_values(|a: ActionV| neutralized(a));
    let x = kept_actions(v)[i];
    neutral.lemma_filter_pred(q, i);
    assert(neutral.filter(q).contains(x));
    neutral.lemma_filter_contains_rev(q, x);
    let k = choose|k: int| 0 <= k < neutral.len() && neutral[k] == x;
    v.lemma_filter_pred(p, k);
    assert(neutral[k] == neutralized(kept[k]));
}

/// The outbound gate leaves a harmless action as it is: what an answer may do is exactly
/// what it asked for.
pub proof fn law_harmless_actions_pass(v: Seq<ActionV>)
    requires
        forall|i: int|
            0 <= i < v.len() ==> allowed_action((#[trigger] v[i]).kind) && !(v[i].kind is SendMessage)
                && !resolves(v[i]),
    ensures
        kept_actions(v) == v,
    decreases v.len(),
{
    let p = |a: ActionV| allowed_action(a.kind);
    let q = |a: ActionV| !(a.kind is SendMessage);
    if v.len() > 0 {
        let w = v.drop_last();
        law_harmless_actions_pass(w);
        assert(v =~= w.push(v.last()));
        w.lemma_filter_push(v.last(), p);
        let nw = allowed_actions(w).map_values(|a: ActionV| neutralized(a));
        assert(allowed_actions(v).map_values(|a: ActionV| neutralized(a)) =~= nw.push(
            v.last(),
        ));
        nw.lemma_filter_push(v.last(), q);
    } else {
        assert(allowed_actions(v) =~= v);
        assert(v.map_values(|a: ActionV| neutralized(a)) =~= v);
        assert(without_messages(v) =~= v);
    }
}

/// A reply that was cut to size is never longer than the limit, and the mark
/// shows that it was cut, unless the limit leaves no room for it.
pub proof fn law_cut_reply_is_short(s: Seq<char>, max: int)
    requires
        max >= 0,
    ensures
        fitted(s, max).len() <= max,
        s.len() > max >= 5 ==> stands_at(fitted(s, max), "[...]"@, fitted(s, max).len() - 5),
{
    reveal_strlit("[...]");
    let head = first_chars(s, room(max));
    lemma_after_last_end_bound(head);
    let end = after_last_end(head);
    let body = if end == 0 {
        head
    } else {
        head.take(end)
    };
    if max >= 5 && !stands_at(body, "[...]"@, body.len() - "[...]"@.len()) {
        assert((body + "[...]"@).subrange(body.len() as int, body.len() as int + 5) =~= "[...]"@);
    }
}

/// No reply goes out longer than the limit, whatever was redacted or stripped.
pub proof fn law_replies_keep_the_limit(
    x: ReviewedResponse,
    response: AgentResponse,
    max: int,
    last: Option<Seq<char>>,
)
    requires
        max >= 0,
        reviews(x, response, max, last),
    ensures
        !x.blocked ==> (x.reply matches Some(reply) ==> reply.text@.len() <= max),
        has_reply(response) ==> (x.reply matches Some(reply) && reply.text@.len() <= max),
{
    if let Some(reply) = response.reply {
        law_cut_reply_is_short(cleaned(reply.text@, max), max);
    }
}

/// A reply with nothing to cut, to redact or to strip goes out as it is.
pub proof fn law_clean_reply_passes(s: Seq<char>, max: int)
    requires
        s.len() <= max,
        !regex_matches(PII_PATTERN@, s),
        !leaks(s, 8),
    ensures
        outgoing(s, max) == s,
{
    assert(stripped(s, 8) == s) by {
        lemma_no_leak_no_change(s, 8);
    }
}

proof fn lemma_no_leak_no_change(s: Seq<char>, k: nat)
    requires
        !leaks(s, k),
    ensures
        stripped(s, k) == s,
    decreases k,
{
    if k > 0 {
        lemma_no_leak_no_change(s, (k - 1) as nat);
        text::lemma_replace_absent(s, marker(k - 1), ""@);
    }
}

/// Whether an action asks for a tool or another agent: no such action passes.
pub open spec fn calls_out(a: Action) -> bool {
    a.kind is CallTool || a.kind is CallAgent
}

/// Whether an action would set the status `resolved`.
pub open spec fn would_resolve(a: Action) -> bool {
    a.kind is SetStatus && (a.status matches Some(s) && same_ascii_case_folded(s@, "resolved"@))
}

/// Whether an answer says nothing, does nothing that may be done, and asks for
/// nobody.
pub open spec fn says_nothing(r: AgentResponse) -> bool {
    &&& r.reply matches Some(x) ==> trimmed(x.text@).len() == 0
    &&& forall|i: int| 0 <= i < r.actions@.len() ==> calls_out(#[trigger] r.actions@[i])
    &&& !r.handoff.required
}

proof fn lemma_allowed_len(v: Seq<ActionV>)
    ensures
        allowed_actions(v).len() <= v.len(),
        allowed_actions(v).len() == v.len() <==> forall|i: int|
            0 <= i < v.len() ==> !((#[trigger] v[i]).kind is CallTool) && !(v[i].kind is CallAgent),
        allowed_actions(v).len() == 0 <==> forall|i: int|
            0 <= i < v.len() ==> (#[trigger] v[i]).kind is CallTool || v[i].kind is CallAgent,
    decreases v.len(),
{
    let p = |a: ActionV| allowed_action(a.kind);
    if v.len() > 0 {
        let w = v.drop_last();
        lemma_allowed_len(w);
        assert(v =~= w.push(v.last()));
        w.lemma_filter_push(v.last(), p);
        assert(forall|i: int| 0 <= i < w.len() ==> #[trigger] w[i] == v[i]);
        assert(v[v.len() - 1] == v.last());
    } else {
        assert(allowed_actions(v) =~= v);
    }
}

proof fn lemma_empty_envelope(r: AgentResponse)
    ensures
        empty_envelope(r) <==> says_nothing(r),
{
    let v = actions_of(r.actions@);
    lemma_allowed_len(v);
    assert(forall|i: int| 0 <= i < v.len() ==> (#[trigger] v[i]).kind == r.actions@[i].kind);
    assert(forall|i: int| 0 <= i < v.len() ==> v[i].kind == (#[trigger] r.actions@[i]).kind);
}

/// What an answer asks for is done: an action that calls nobody, is no message
/// and does not resolve the conversation passes as it is.
pub proof fn law_harmless_actions_survive(
    response: AgentResponse,
    state: ConversationState,
    config: Config,
    last: Option<&str>,
    x: ReviewedResponse,
    i: int,
)
    requires
        call_ensures(evaluate, (&response, &state, &config, last), x),
        0 <= i < response.actions@.len(),
        !calls_out(response.actions@[i]),
        !(response.actions@[i].kind is SendMessage),
        !would_resolve(response.actions@[i]),
    ensures
        actions_of(x.actions@).contains(response.actions@[i]@),
{
    let p = |a: ActionV| allowed_action(a.kind);
    let q = |a: ActionV| !(a.kind is SendMessage);
    let v = actions_of(response.actions@);
    let kept = allowed_actions(v);
    let neutral = kept.map_values(|a: ActionV| neutralized(a));
    assert(v[i] == response.actions@[i]@);
    v.lemma_filter_contains(p, i);
    let k = choose|k: int| 0 <= k < kept.len() && kept[k] == v[i];
    assert(neutral[k] == v[i]);
    neutral.lemma_filter_contains(q, k);
}

/// Nothing is done that was not asked for, and nothing that must not be: an
/// action that passes is one of the answer's, as it was or without the status
/// that would have resolved the conversation.
pub proof fn law_nothing_is_done_unasked(
    response: AgentResponse,
    state: ConversationState,
    config: Config,
    last: Option<&str>,
    x: ReviewedResponse,
    i: int,
)
    requires
        call_ensures(evaluate, (&response, &state, &config, last), x),
        0 <= i < x.actions@.len(),
    ensures
        !calls_out(x.actions@[i]),
        !(x.actions@[i].kind is SendMessage),
        !would_resolve(x.actions@[i]),
        exists|j: int|
            0 <= j < response.actions@.len() && (x.actions@[i]@ == (#[trigger] response.actions@[j])@
                || (would_resolve(response.actions@[j]) && x.actions@[i]@ == (ActionV {
                status: None,
                ..response.actions@[j]@
            }))),
        x.actions@.len() <= response.actions@.len(),
{
    let p = |a: ActionV| allowed_action(a.kind);
    let q = |a: ActionV| !(a.kind is SendMessage);
    let v = actions_of(response.actions@);
    let kept = allowed_actions(v);
    let neutral = kept.map_values(|a: ActionV| neutralized(a));
    let a = actions_of(x.actions@)[i];
    assert(a == x.actions@[i]@);
    law_kept_actions_are_safe(v, i);
    lemma_allowed_len(v);
    neutral.lemma_filter_len(q);
    assert(neutral.filter(q).contains(a));
    neutral.lemma_filter_contains_rev(q, a);
    let k = choose|k: int| 0 <= k < neutral.len() && neutral[k] == a;
    assert(kept.contains(kept[k]));
    v.lemma_filter_contains_rev(p, kept[k]);
    let j = choose|j: int| 0 <= j < v.len() && v[j] == kept[k];
    assert(v[j] == response.actions@[j]@);
    assert(a == neutralized(v[j]));
}

/// An answer is blocked for two causes only: it says nothing, does nothing and
/// asks for nobody, or its reply repeats the last one, with a similarity above
/// 0.95. Where there was no last reply there is nothing to repeat.
pub proof fn law_answers_are_blocked_for_cause(
    response: AgentResponse,
    state: ConversationState,
    config: Config,
    last: Option<&str>,
    x: ReviewedResponse,
)
    requires
        call_ensures(evaluate, (&response, &state, &config, last), x),
    ensures
        says_nothing(response) ==> x.blocked && opt_text(x.block_reason) == Some(
            "S1:empty_envelope"@,
        ),
        !says_nothing(response) ==> (x.blocked <==> (x.reply matches Some(reply) && last is Some
            && jaro_winkler_bits(comparable(reply.text@), comparable(last->Some_0@))
            > 0x3FEE666666666666)),
        x.blocked <==> x.block_reason is Some,
        x.handoff_required == response.handoff.required,
        opt_text(x.handoff_reason) == opt_text(response.handoff.reason),
        opt_text(x.run_id) == opt_text(response.run_id),
        x.reply is Some <==> response.reply is Some,
{
    lemma_empty_envelope(response);
}

proof fn lemma_leaks_by_marker(s: Seq<char>, k: nat)
    requires
        k <= 8,
    ensures
        leaks(s, k) <==> exists|i: int| 0 <= i < k && has_text(s, #[trigger] marker(i)),
    decreases k,
{
    if k > 0 {
        lemma_leaks_by_marker(s, (k - 1) as nat);
        if !leaks(s, (k - 1) as nat) {
            lemma_no_leak_no_change(s, (k - 1) as nat);
            if has_text(s, marker(k - 1)) {
                assert(leaks(s, k));
            }
        }
    }
}

/// Whether a text holds one of the marks of the agent's inner workings.
pub open spec fn shows_workings(s: Seq<char>) -> bool {
    ||| has_text(s, "<thinking>"@)
    ||| has_text(s, "</thinking>"@)
    ||| has_text(s, "<system>"@)
    ||| has_text(s, "</system>"@)
    ||| has_text(s, "system:"@)
    ||| has_text(s, "assistant:"@)
    ||| has_text(s, "tool:"@)
    ||| has_text(s, "<tool_call>"@)
}

proof fn lemma_leaks_show(s: Seq<char>)
    ensures
        leaks(s, 8) <==> shows_workings(s),
{
    lemma_leaks_by_marker(s, 8);
    assert(marker(0) == "<thinking>"@ && marker(1) == "</thinking>"@);
    assert(marker(2) == "<system>"@ && marker(3) == "</system>"@);
    assert(marker(4) == "system:"@ && marker(5) == "assistant:"@);
    assert(marker(6) == "tool:"@ && marker(7) == "<tool_call>"@);
}

proof fn lemma_taking_out_shortens(s: Seq<char>, pat: Seq<char>)
    requires
        pat.len() > 0,
    ensures
        replaced(s, pat, ""@).len() <= s.len(),
        has_text(s, pat) ==> replaced(s, pat, ""@).len() < s.len(),
    decreases s.len(),
{
    reveal_strlit("");
    if s.len() > 0 {
        if stands_at(s, pat, 0) {
            lemma_taking_out_shortens(s.skip(pat.len() as int), pat);
        } else {
            let t = s.drop_first();
            lemma_taking_out_shortens(t, pat);
            if has_text(s, pat) {
                let i = choose|i: int| #[trigger] stands_at(s, pat, i);
                assert(t.subrange(i - 1, i - 1 + pat.len()) =~= s.subrange(i, i + pat.len()));
                assert(stands_at(t, pat, i - 1));
            }
        }
    } else if has_text(s, pat) {
        let i = choose|i: int| #[trigger] stands_at(s, pat, i);
    }
}

proof fn lemma_stripping_shortens(s: Seq<char>, k: nat)
    requires
        k <= 8,
        forall|i: int| 0 <= i < 8 ==> (#[trigger] marker(i)).len() > 0,
    ensures
        stripped(s, k).len() <= s.len(),
        leaks(s, k) ==> stripped(s, k).len() < s.len(),
    decreases k,
{
    if k > 0 {
        lemma_stripping_shortens(s, (k - 1) as nat);
        assert(marker(k - 1).len() > 0);
        lemma_taking_out_shortens(stripped(s, (k - 1) as nat), marker(k - 1));
    }
}

/// The marks of the agent's inner workings are found wherever they stand, and
/// taken out; a text without one stays as it is.
pub proof fn law_workings_are_found(text: String, r: (String, bool))
    requires
        call_ensures(strip_markers, (text,), r),
    ensures
        r.1 <==> shows_workings(text@),
        !r.1 ==> r.0@ == text@,
        r.1 ==> r.0@.len() < text@.len(),
{
    lemma_leaks_show(text@);
    if !r.1 {
        lemma_no_leak_no_change(text@, 8);
    }
    reveal_strlit("<thinking>");
    reveal_strlit("</thinking>");
    reveal_strlit("<system>");
    reveal_strlit("</system>");
    reveal_strlit("system:");
    reveal_strlit("assistant:");
    reveal_strlit("tool:");
    reveal_strlit("<tool_call>");
    assert(forall|i: int| 0 <= i < 8 ==> (#[trigger] marker(i)).len() > 0);
    lemma_stripping_shortens(text@, 8);
}

/// A reply that is short enough, holds no personal data and shows no inner
/// workings reaches the contact as the agent wrote it.
pub proof fn law_good_replies_reach_the_contact(
    response: AgentResponse,
    state: ConversationState,
    config: Config,
    last: Option<&str>,
    x: ReviewedResponse,
    reply: Reply,
)
    requires
        call_ensures(evaluate, (&response, &state, &config, last), x),
        response.reply == Some(reply),
        reply.text@.len() <= config.agent.max_output_chars,
        !regex_matches(PII_PATTERN@, reply.text@),
        !shows_workings(reply.text@),
    ensures
        x.reply matches Some(y) && y.text@ == reply.text@ && opt_text(y.content_type) == opt_text(
            reply.content_type,
        ),
{
    lemma_leaks_show(reply.text@);
    law_clean_reply_passes(reply.text@, config.agent.max_output_chars as int);
}

/// Personal data in a reply is replaced, and the rest reaches the contact.
pub proof fn law_personal_data_is_replaced(
    response: AgentResponse,
    state: ConversationState,
    config: Config,
    last: Option<&str>,
    x: ReviewedResponse,
    reply: Reply,
)
    requires
        call_ensures(evaluate, (&response, &state, &config, last), x),
        response.reply == Some(reply),
        trimmed(reply.text@).len() > 0,
        reply.text@.len() <= config.agent.max_output_chars,
        regex_matches(PII_PATTERN@, reply.text@),
        !shows_workings(regex_replaced(PII_PATTERN@, reply.text@, "[REDIGIDO]"@)),
        regex_replaced(PII_PATTERN@, reply.text@, "[REDIGIDO]"@).len()
            <= config.agent.max_output_chars,
    ensures
        x.reply matches Some(y) && y.text@ == regex_replaced(
            PII_PATTERN@,
            reply.text@,
            "[REDIGIDO]"@,
        ),
        notes_of(x.modifications@).contains("S5"@),
{
    let out = regex_replaced(PII_PATTERN@, reply.text@, "[REDIGIDO]"@);
    lemma_leaks_show(out);
    lemma_no_leak_no_change(out, 8);
    lemma_notes(response, config.agent.max_output_chars as int, opt_str(last), "S5"@);
    lemma_rules_differ();
}

proof fn lemma_last_end(s: Seq<char>)
    ensures
        0 <= after_last_end(s) <= s.len(),
        after_last_end(s) > 0 ==> sentence_end(s[after_last_end(s) - 1]),
        forall|i: int| after_last_end(s) <= i < s.len() ==> !sentence_end(#[trigger] s[i]),
    decreases s.len(),
{
    if s.len() > 0 && !sentence_end(s.last()) {
        lemma_last_end(s.drop_last());
        assert forall|i: int| after_last_end(s) <= i < s.len() implies !sentence_end(
            #[trigger] s[i],
        ) by {
            if i < s.len() - 1 {
                assert(s.drop_last()[i] == s[i]);
            }
        }
    }
}

/// A text that is cut keeps its beginning, up to the last sentence that ends
/// within the limit or up to the limit itself where none does. Five characters
/// of the limit are for the mark that shows the cut; a limit below five leaves
/// none. The number of characters that stay is the result.
pub proof fn law_a_cut_ends_a_sentence(text: &str, max_chars: usize, r: String) -> (n: int)
    requires
        call_ensures(truncate_to_sentence, (text, max_chars), r),
    ensures
        ({
            let mark: int = if max_chars >= 5 {
                5
            } else {
                0
            };
            let limit: int = if text@.len() < max_chars - mark {
                text@.len() as int
            } else {
                max_chars - mark
            };
            &&& 0 <= n <= limit
            &&& n < limit ==> n > 0 && (text@[n - 1] == '.' || text@[n - 1] == '?' || text@[n - 1]
                == '!' || text@[n - 1] == '\n') && forall|i: int|
                n <= i < limit ==> (#[trigger] text@[i]) != '.' && text@[i] != '?' && text@[i]
                    != '!' && text@[i] != '\n'
            &&& if max_chars < 5 {
                r@ == text@.take(n)
            } else {
                r@ == text@.take(n) + "[...]"@ || (r@ == text@.take(n) && stands_at(
                    r@,
                    "[...]"@,
                    n - 5,
                ))
            }
        }),
        r@.len() <= max_chars,
{
    reveal_strlit("[...]");
    let head = first_chars(text@, room(max_chars as int));
    lemma_last_end(head);
    let end = after_last_end(head);
    let n = if end == 0 {
        head.len() as int
    } else {
        end
    };
    assert(head.take(head.len() as int) =~= head);
    assert(text@.take(n) =~= head.take(n));
    assert(forall|i: int| 0 <= i < head.len() ==> #[trigger] text@[i] == head[i]);
    n
}

proof fn lemma_in_either(a: Seq<Seq<char>>, b: Seq<Seq<char>>, n: Seq<char>)
    ensures
        (a + b).contains(n) <==> a.contains(n) || b.contains(n),
{
    let c = a + b;
    if a.contains(n) {
        let i = choose|i: int| 0 <= i < a.len() && a[i] == n;
        assert(c[i] == n);
    }
    if b.contains(n) {
        let i = choose|i: int| 0 <= i < b.len() && b[i] == n;
        assert(c[a.len() + i] == n);
    }
    if c.contains(n) {
        let i = choose|i: int| 0 <= i < c.len() && c[i] == n;
        if i < a.len() {
            assert(a[i] == n);
        } else {
            assert(b[i - a.len()] == n);
        }
    }
}

proof fn lemma_if_noted(b: bool, m: Seq<char>, n: Seq<char>)
    ensures
        if_note(b, m).contains(n) <==> b && m == n,
{
    if b && m == n {
        assert(if_note(b, m)[0] == n);
    }
}

proof fn lemma_resolve_noted(v: Seq<ActionV>, n: Seq<char>)
    ensures
        resolve_notes(v).contains(n) <==> n == "S9"@ && exists|i: int|
            0 <= i < v.len() && resolves(#[trigger] v[i]),
    decreases v.len(),
{
    if v.len() > 0 {
        let w = v.drop_last();
        lemma_resolve_noted(w, n);
        lemma_in_either(resolve_notes(w), seq!["S9"@], n);
        lemma_if_noted(true, "S9"@, n);
        assert(resolve_notes(w).push("S9"@) =~= resolve_notes(w) + seq!["S9"@]);
        assert(forall|i: int| 0 <= i < w.len() ==> #[trigger] w[i] == v[i]);
        assert(v[v.len() - 1] == v.last());
        if exists|i: int| 0 <= i < w.len() && resolves(#[trigger] w[i]) {
            let i = choose|i: int| 0 <= i < w.len() && resolves(#[trigger] w[i]);
            assert(resolves(v[i]));
        }
        if exists|i: int| 0 <= i < v.len() && resolves(#[trigger] v[i]) {
            let i = choose|i: int| 0 <= i < v.len() && resolves(#[trigger] v[i]);
            if i < w.len() {
                assert(resolves(w[i]));
            }
        }
    }
}

proof fn lemma_rules_differ()
    ensures
        "S1"@ != "S2"@ && "S1"@ != "S3"@ && "S1"@ != "S4"@ && "S1"@ != "S5"@ && "S1"@ != "S6"@,
        "S1"@ != "S7"@ && "S1"@ != "S9"@ && "S1"@ != "S10"@,
        "S2"@ != "S3"@ && "S2"@ != "S4"@ && "S2"@ != "S5"@ && "S2"@ != "S6"@ && "S2"@ != "S7"@,
        "S2"@ != "S9"@ && "S2"@ != "S10"@,
        "S3"@ != "S4"@ && "S3"@ != "S5"@ && "S3"@ != "S6"@ && "S3"@ != "S7"@ && "S3"@ != "S9"@,
        "S3"@ != "S10"@,
        "S4"@ != "S5"@ && "S4"@ != "S6"@ && "S4"@ != "S7"@ && "S4"@ != "S9"@ && "S4"@ != "S10"@,
        "S5"@ != "S6"@ && "S5"@ != "S7"@ && "S5"@ != "S9"@ && "S5"@ != "S10"@,
        "S6"@ != "S7"@ && "S6"@ != "S9"@ && "S6"@ != "S10"@,
        "S7"@ != "S9"@ && "S7"@ != "S10"@ && "S9"@ != "S10"@,
{
    reveal_strlit("S1");
    reveal_strlit("S2");
    reveal_strlit("S3");
    reveal_strlit("S4");
    reveal_strlit("S5");
    reveal_strlit("S6");
    reveal_strlit("S7");
    reveal_strlit("S9");
    reveal_strlit("S10");
    assert("S1"@[1] == '1' && "S2"@[1] == '2' && "S3"@[1] == '3' && "S4"@[1] == '4');
    assert("S5"@[1] == '5' && "S6"@[1] == '6' && "S7"@[1] == '7' && "S9"@[1] == '9');
    assert("S10"@.len() == 3 && "S1"@.len() == 2);
}

proof fn lemma_notes(r: AgentResponse, max: int, last: Option<Seq<char>>, n: Seq<char>)
    ensures
        ({
            let v = actions_of(r.actions@);
            let acts = (allowed_actions(v).len() != v.len() && n == "S2"@) || (n == "S9"@
                && exists|i: int|
                0 <= i < allowed_actions(v).len() && resolves(#[trigger] allowed_actions(v)[i]));
            review_notes(r, max, last).contains(n) <==> if empty_envelope(r) {
                acts || n == "S1"@
            } else {
                ||| acts
                ||| has_kind(v, ActionKind::SendMessage) && n == "S4"@
                ||| has_kind(v, ActionKind::CallTool) && n == "S10"@
                ||| r.reply matches Some(x) && {
                    let s = x.text@;
                    ||| s.len() > max && n == "S3"@
                    ||| regex_matches(PII_PATTERN@, fitted(s, max)) && n == "S5"@
                    ||| leaks(redacted(fitted(s, max)), 8) && n == "S7"@
                    ||| s.len() <= max && cleaned(s, max).len() > max && n == "S3"@
                    ||| repetition(outgoing(s, max), last) is Some && n == "S6"@
                }
            }
        }),
{
    let v = actions_of(r.actions@);
    let a = if_note(allowed_actions(v).len() != v.len(), "S2"@);
    let b = resolve_notes(allowed_actions(v));
    lemma_in_either(a, b, n);
    lemma_if_noted(allowed_actions(v).len() != v.len(), "S2"@, n);
    lemma_resolve_noted(allowed_actions(v), n);
    if empty_envelope(r) {
        lemma_in_either(a + b, seq!["S1"@], n);
        lemma_if_noted(true, "S1"@, n);
    } else {
        let c = if_note(has_kind(v, ActionKind::SendMessage), "S4"@);
        let e = if_note(has_kind(v, ActionKind::CallTool), "S10"@);
        lemma_if_noted(has_kind(v, ActionKind::SendMessage), "S4"@, n);
        lemma_if_noted(has_kind(v, ActionKind::CallTool), "S10"@, n);
        lemma_in_either(a + b, c, n);
        let d = match r.reply {
            Some(x) => text_notes(x.text@, max, last),
            None => Seq::empty(),
        };
        lemma_in_either(a + b + c, d, n);
        lemma_in_either(a + b + c + d, e, n);
        if let Some(x) = r.reply {
            let s = x.text@;
            let p1 = s.len() > max;
            let p2 = regex_matches(PII_PATTERN@, fitted(s, max));
            let p3 = leaks(redacted(fitted(s, max)), 8);
            let p4 = s.len() <= max && cleaned(s, max).len() > max;
            let p5 = repetition(outgoing(s, max), last) is Some;
            lemma_if_noted(p1, "S3"@, n);
            lemma_if_noted(p2, "S5"@, n);
            lemma_if_noted(p3, "S7"@, n);
            lemma_if_noted(p4, "S3"@, n);
            lemma_if_noted(p5, "S6"@, n);
            let n1 = if_note(p1, "S3"@);
            let n2 = if_note(p2, "S5"@);
            let n3 = if_note(p3, "S7"@);
            let n4 = if_note(p4, "S3"@);
            let n5 = if_note(p5, "S6"@);
            lemma_in_either(n1, n2, n);
            lemma_in_either(n1 + n2, n3, n);
            lemma_in_either(n1 + n2 + n3, n4, n);
            lemma_in_either(n1 + n2 + n3 + n4, n5, n);
        }
    }
}

/// The notes tell what was done: a note stands there exactly where its rule
/// changed or blocked the answer.
pub proof fn law_notes_tell_what_was_done(
    response: AgentResponse,
    state: ConversationState,
    config: Config,
    last: Option<&str>,
    x: ReviewedResponse,
)
    requires
        call_ensures(evaluate, (&response, &state, &config, last), x),
    ensures
        ({
            let n = notes_of(x.modifications@);
            let max = config.agent.max_output_chars;
            &&& n.contains("S1"@) <==> says_nothing(response)
            &&& n.contains("S2"@) <==> exists|i: int|
                0 <= i < response.actions@.len() && calls_out(#[trigger] response.actions@[i])
            &&& n.contains("S9"@) <==> exists|i: int|
                0 <= i < response.actions@.len() && would_resolve(#[trigger] response.actions@[i])
            &&& !says_nothing(response) ==> {
                &&& n.contains("S4"@) <==> exists|i: int|
                    0 <= i < response.actions@.len() && (#[trigger] response.actions@[i]).kind is
                        SendMessage
                &&& n.contains("S10"@) <==> exists|i: int|
                    0 <= i < response.actions@.len() && (#[trigger] response.actions@[i]).kind is
                        CallTool
                &&& n.contains("S6"@) <==> x.blocked
                &&& response.reply is None ==> !n.contains("S3"@) && !n.contains("S5"@)
                    && !n.contains("S7"@)
                &&& response.reply matches Some(y) ==> (y.text@.len() > max ==> n.contains("S3"@))
                    && (y.text@.len() <= max ==> (n.contains("S5"@) <==> regex_matches(
                    PII_PATTERN@,
                    y.text@,
                ))) && (y.text@.len() <= max && !regex_matches(PII_PATTERN@, y.text@) ==> (
                n.contains("S7"@) <==> shows_workings(y.text@)) && !n.contains("S3"@))
            }
        }),
{
    let max = config.agent.max_output_chars as int;
    let l = opt_str(last);
    let v = actions_of(response.actions@);
    let kept = allowed_actions(v);
    let p = |a: ActionV| allowed_action(a.kind);
    lemma_rules_differ();
    lemma_empty_envelope(response);
    lemma_allowed_len(v);
    lemma_notes(response, max, l, "S1"@);
    lemma_notes(response, max, l, "S2"@);
    lemma_notes(response, max, l, "S3"@);
    lemma_notes(response, max, l, "S4"@);
    lemma_notes(response, max, l, "S5"@);
    lemma_notes(response, max, l, "S6"@);
    lemma_notes(response, max, l, "S7"@);
    lemma_notes(response, max, l, "S9"@);
    lemma_notes(response, max, l, "S10"@);
    assert(forall|i: int| 0 <= i < v.len() ==> (#[trigger] v[i]) == response.actions@[i]@);
    assert(forall|i: int| 0 <= i < v.len() ==> v[i] == (#[trigger] response.actions@[i])@);
    assert((exists|i: int| 0 <= i < kept.len() && resolves(#[trigger] kept[i])) <==> exists|i: int|
        0 <= i < response.actions@.len() && would_resolve(#[trigger] response.actions@[i])) by {
        if exists|i: int| 0 <= i < kept.len() && resolves(#[trigger] kept[i]) {
            let i = choose|i: int| 0 <= i < kept.len() && resolves(#[trigger] kept[i]);
            assert(kept.contains(kept[i]));
            v.lemma_filter_contains_rev(p, kept[i]);
            let j = choose|j: int| 0 <= j < v.len() && v[j] == kept[i];
            assert(would_resolve(response.actions@[j]));
        }
        if exists|i: int|
            0 <= i < response.actions@.len() && would_resolve(#[trigger] response.actions@[i]) {
            let i = choose|i: int|
                0 <= i < response.actions@.len() && would_resolve(#[trigger] response.actions@[i]);
            v.lemma_filter_contains(p, i);
            let j = choose|j: int| 0 <= j < kept.len() && kept[j] == v[i];
            assert(resolves(kept[j]));
        }
    }
    if let Some(y) = response.reply {
        lemma_leaks_show(y.text@);
        if y.text@.len() <= max && !regex_matches(PII_PATTERN@, y.text@) {
            reveal_strlit("<thinking>");
            reveal_strlit("</thinking>");
            reveal_strlit("<system>");
            reveal_strlit("</system>");
            reveal_strlit("system:");
            reveal_strlit("assistant:");
            reveal_strlit("tool:");
            reveal_strlit("<tool_call>");
            assert(forall|i: int| 0 <= i < 8 ==> (#[trigger] marker(i)).len() > 0);
            lemma_stripping_shortens(y.text@, 8);
        }
    }
}

/// A reply passes up to a similarity of 0.95 to the last one, and not above. The
/// reason gives the similarity rounded to the nearest thousandth.
pub proof fn law_repetitions_are_above_the_limit(bits: u64, r: Option<String>)
    requires
        bits <= 0x3FF0000000000000,
        call_ensures(loop_verdict, (bits,), r),
    ensures
        r is Some <==> bits > 0x3FEE666666666666,
        bits == 0x3FF0000000000000 ==> opt_text(r) == Some("S6:loop similarity="@ + "1.000"@),
        0x3FEE666666666666 < bits < 0x3FF0000000000000 ==> exists|t: int|
            950 <= t <= 1000 && -0x10000000000000 <= 1000 * (bits - 0x3FE0000000000000
                + 0x10000000000000) - t * 0x20000000000000 <= 0x10000000000000 && opt_text(r)
                == Some("S6:loop similarity="@ + #[trigger] three_decimals(t)),
{
    if 0x3FEE666666666666 < bits < 0x3FF0000000000000 {
        assert(bits % 0x10000000000000 == bits - 0x3FE0000000000000);
        let t = thousandths(bits);
        assert(opt_text(r) == Some("S6:loop similarity="@ + three_decimals(t)));
    }
}

/// Of a review a block is recorded with its reason, else the changes, under the
/// rule that acted last; nothing is recorded of an answer that passed as it was.
pub proof fn law_reviews_are_recorded(x: ReviewedResponse, r: Option<GateRecord>)
    requires
        call_ensures(record, (&x,), r),
    ensures
        r is None <==> !x.blocked && x.modifications@.len() == 0,
        r matches Some(y) ==> {
            &&& x.blocked <==> y.decision@ == "block"@
            &&& !x.blocked <==> y.decision@ == "modify"@
            &&& x.modifications@.len() > 0 ==> y.rule@ == x.modifications@.last()@
            &&& x.blocked ==> (x.block_reason matches Some(why) ==> opt_text(y.reason) == Some(
                why@,
            ))
            &&& !x.blocked ==> y.reason is None && notes_of(y.applied@) == notes_of(
                x.modifications@,
            )
        },
{
    reveal_strlit("block");
    reveal_strlit("modify");
    assert("block"@.len() == 5 && "modify"@.len() == 6);
    if x.modifications@.len() > 0 {
        assert(notes_of(x.modifications@).last() == x.modifications@.last()@);
    }
}

/// Two replies that differ only in the case of their letters count as the same.
pub proof fn law_case_makes_no_difference(a: &str, b: &str, x: String, y: String)
    requires
        call_ensures(normalize_for_similarity, (a,), x),
        call_ensures(normalize_for_similarity, (b,), y),
        same_ascii_case_folded(a@, b@),
    ensures
        x@ == y@,
{
}

/// What was found is replaced, and what was not stays as it is.
pub proof fn law_only_findings_are_replaced(
    text: String,
    found: bool,
    replacement: String,
    r: (String, bool),
)
    requires
        call_ensures(apply_redaction, (text, found, replacement), r),
    ensures
        found ==> r.0@ == replacement@ && r.1,
        !found ==> r.0@ == text@ && !r.1,
{
}

/// The last word to a conversation is kept under a key of its own.
pub proof fn law_last_words_are_kept_by_conversation(a: i64, b: i64, x: String, y: String)
    requires
        call_ensures(last_outbound_key, (a,), x),
        call_ensures(last_outbound_key, (b,), y),
    ensures
        x@ == y@ <==> a == b,
{
    if x@ == y@ {
        let p = "lastout:"@;
        let u = text::int_text(a as int);
        let v = text::int_text(b as int);
        assert(u =~= (p + u).skip(p.len() as int));
        assert(v =~= (p + v).skip(p.len() as int));
        text::law_numbers_are_told_apart(a as int, b as int);
    }
}

} // verus!
