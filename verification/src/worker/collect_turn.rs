//! Collecting a turn: what the buffer held, in order.
use crate::duration::milliseconds;
use crate::model::agent::InboundMessage;
use crate::text;
use crate::text::{before, joined};
use std::time::Duration;
use vstd::prelude::*;

verus! {

/// Messages closer than this count as simultaneous, in milliseconds.
pub const ORDER_SKEW_MS: u64 = 1000;

/// The messages of a turn.
#[derive(Debug, Clone)]
pub struct CollectedTurn {
    pub messages: Vec<InboundMessage>,
}

/// The texts of the messages.
pub open spec fn contents(v: Seq<InboundMessage>) -> Seq<Seq<char>> {
    v.map_values(|m: InboundMessage| m.content@)
}

/// The ids of the messages.
pub open spec fn ids(v: Seq<InboundMessage>) -> Seq<i64> {
    v.map_values(|m: InboundMessage| m.id)
}

/// The characters of all texts.
pub open spec fn char_sum(v: Seq<InboundMessage>) -> nat
    decreases v.len(),
{
    if v.len() == 0 {
        0
    } else {
        char_sum(v.drop_last()) + v.last().content@.len()
    }
}

/// Whether a message has an attachment.
pub open spec fn attached(m: InboundMessage) -> bool {
    m.has_attachment || m.attachments@.len() > 0
}

proof fn lemma_char_sum_grows(v: Seq<InboundMessage>, k: int)
    requires
        0 <= k <= v.len(),
    ensures
        char_sum(v.take(k)) <= char_sum(v),
    decreases v.len() - k,
{
    if k < v.len() {
        lemma_char_sum_grows(v, k + 1);
        assert(v.take(k + 1).drop_last() =~= v.take(k));
    } else {
        assert(v.take(k) =~= v);
    }
}

impl CollectedTurn {
    /// The ids of the messages.
    pub fn message_ids(&self) -> (r: Vec<i64>)
        ensures
            r@ == ids(self.messages@),
    {
        let mut r: Vec<i64> = Vec::new();
        let mut i: usize = 0;
        while i < self.messages.len()
            invariant
                i <= self.messages@.len(),
                r@ == ids(self.messages@).take(i as int),
            decreases self.messages@.len() - i,
        {
            r.push(self.messages[i].id);
            i += 1;
            assert(r@ =~= ids(self.messages@).take(i as int));
        }
        assert(r@ =~= ids(self.messages@));
        r
    }

    /// The characters of all texts.
    pub fn total_chars(&self) -> (r: usize)
        requires
            char_sum(self.messages@) <= usize::MAX,
        ensures
            r == char_sum(self.messages@),
    {
        let mut r: usize = 0;
        let mut i: usize = 0;
        while i < self.messages.len()
            invariant
                i <= self.messages@.len(),
                char_sum(self.messages@) <= usize::MAX,
                r == char_sum(self.messages@.take(i as int)),
            decreases self.messages@.len() - i,
        {
            let n = self.messages[i].content.as_str().unicode_len();
            proof {
                assert(self.messages@.take(i as int + 1).drop_last() =~= self.messages@.take(
                    i as int,
                ));
                lemma_char_sum_grows(self.messages@, i as int + 1);
            }
            r = r + n;
            i += 1;
        }
        assert(self.messages@.take(i as int) =~= self.messages@);
        r
    }

    /// `true` where a message of the turn has an attachment.
    pub fn has_attachment(&self) -> (r: bool)
        ensures
            r == exists|i: int| 0 <= i < self.messages@.len() && attached(#[trigger] self.messages@[i]),
    {
        let mut i: usize = 0;
        while i < self.messages.len()
            invariant
                i <= self.messages@.len(),
                forall|k: int| 0 <= k < i ==> !attached(#[trigger] self.messages@[k]),
            decreases self.messages@.len() - i,
        {
            if self.messages[i].has_attachment || self.messages[i].attachments.len() > 0 {
                assert(attached(self.messages@[i as int]));
                return true;
            }
            i += 1;
        }
        false
    }

    /// The texts, one per line.
    pub fn coalesced_text(&self) -> (r: String)
        ensures
            r@ == joined(contents(self.messages@), "\n"@),
    {
        join_contents(&self.messages)
    }
}

/// The texts of the messages, one per line.
pub fn join_contents(messages: &Vec<InboundMessage>) -> (r: String)
    ensures
        r@ == joined(contents(messages@), "\n"@),
{
    let mut r = String::new();
    let mut i: usize = 0;
    while i < messages.len()
        invariant
            i <= messages@.len(),
            r@ == joined(contents(messages@).take(i as int), "\n"@),
        decreases messages@.len() - i,
    {
        if i > 0 {
            r.append("\n");
        }
        r.append(messages[i].content.as_str());
        i += 1;
        proof {
            let now = contents(messages@).take(i as int);
            assert(now.drop_last() =~= contents(messages@).take(i as int - 1));
            assert(now.last() == messages@[i - 1].content@);
            assert(Seq::<char>::empty() + messages@[i - 1].content@ =~= messages@[i - 1].content@);
        }
    }
    assert(contents(messages@).take(i as int) =~= contents(messages@));
    r
}

// ---------------------------------------------------------------------------
// Order
// ---------------------------------------------------------------------------

/// No message comes after one with a later time.
pub open spec fn in_order(v: Seq<InboundMessage>) -> bool {
    forall|i: int, j: int|
        0 <= i < j < v.len() ==> !before(
            (#[trigger] v[j]).created_at@,
            (#[trigger] v[i]).created_at@,
        )
}

/// Whether a message is of time `t`.
pub open spec fn of_time(t: Seq<char>) -> spec_fn(InboundMessage) -> bool {
    |m: InboundMessage| m.created_at@ == t
}

/// The messages of time `t`, in the order in which they stand.
pub open spec fn at_time(v: Seq<InboundMessage>, t: Seq<char>) -> Seq<InboundMessage> {
    v.filter(of_time(t))
}

/// Sorts the messages by the time they carry (a text that sorts as time does).
/// Messages of one time keep their order.
pub fn sort_by_created_at(messages: Vec<InboundMessage>) -> (r: Vec<InboundMessage>)
    ensures
        in_order(r@),
        forall|t: Seq<char>| #[trigger] at_time(r@, t) == at_time(messages@, t),
        r@.len() == messages@.len(),
{
    let ghost all = messages@;
    let mut rest = messages;
    let mut out: Vec<InboundMessage> = Vec::new();
    proof {
        assert(all.skip(all.len() as int) =~= Seq::<InboundMessage>::empty());
        assert(all.take(all.len() as int) =~= all);
        assert(out@ =~= Seq::<InboundMessage>::empty());
    }
    while rest.len() > 0
        invariant
            rest@.len() <= all.len(),
            rest@ == all.take(rest@.len() as int),
            out@.len() == all.len() - rest@.len(),
            in_order(out@),
            forall|t: Seq<char>|
                #[trigger] at_time(out@, t) == at_time(all.skip(rest@.len() as int), t),
        decreases rest@.len(),
    {
        let ghost n = rest@.len() as int;
        let m = rest.pop().unwrap();
        let ghost prior = out@;
        assert(m == all[n - 1]);
        assert(rest@ =~= all.take(n - 1));
        let mut k: usize = 0;
        while k < out.len() && text::comes_before(
            out[k].created_at.as_str(),
            m.created_at.as_str(),
        )
            invariant
                k <= out@.len(),
                out@ == prior,
                forall|i: int|
                    0 <= i < k ==> before((#[trigger] out@[i]).created_at@, m.created_at@),
            decreases out@.len() - k,
        {
            k += 1;
        }
        out.insert(k, m);
        proof {
            lemma_insert_in_order(prior, k as int, m);
            assert(out@ =~= prior.insert(k as int, m));
            assert forall|t: Seq<char>| #[trigger]
                at_time(out@, t) == at_time(all.skip(n - 1), t) by {
                lemma_insert_stable(prior, k as int, m, t);
                assert(all.skip(n - 1) =~= seq![m] + all.skip(n));
                lemma_filter_front(all.skip(n), m, t);
                assert(at_time(prior, t) == at_time(all.skip(n), t));
            }
        }
    }
    assert(all.skip(0) =~= all);
    out
}

/// Putting a message after all earlier ones keeps the order.
proof fn lemma_insert_in_order(v: Seq<InboundMessage>, k: int, m: InboundMessage)
    requires
        in_order(v),
        0 <= k <= v.len(),
        forall|i: int| 0 <= i < k ==> before((#[trigger] v[i]).created_at@, m.created_at@),
        k < v.len() ==> !before(v[k].created_at@, m.created_at@),
    ensures
        in_order(v.insert(k, m)),
{
    let w = v.insert(k, m);
    assert forall|i: int, j: int| 0 <= i < j < w.len() implies !before(
        (#[trigger] w[j]).created_at@,
        (#[trigger] w[i]).created_at@,
    ) by {
        if j == k {
            text::lemma_before_asym(v[i].created_at@, m.created_at@);
        } else if i == k {
            let x = v[j - 1].created_at@;
            let y = v[k].created_at@;
            if before(x, m.created_at@) {
                assert(k <= j - 1);
                if k < j - 1 {
                    assert(!before(x, y));
                }
                if before(y, x) {
                    text::lemma_before_trans(y, x, m.created_at@);
                } else {
                    text::lemma_before_total(x, y);
                }
            }
        } else {
            let a = if i < k {
                i
            } else {
                i - 1
            };
            let b = if j < k {
                j
            } else {
                j - 1
            };
            assert(w[i] == v[a] && w[j] == v[b]);
        }
    }
}

/// The messages of a time after one was put in front.
proof fn lemma_filter_front(v: Seq<InboundMessage>, m: InboundMessage, t: Seq<char>)
    ensures
        at_time(seq![m] + v, t) == if m.created_at@ == t {
            seq![m] + at_time(v, t)
        } else {
            at_time(v, t)
        },
{
    let p = of_time(t);
    Seq::filter_distributes_over_add(seq![m], v, p);
    let none = Seq::<InboundMessage>::empty();
    none.lemma_filter_push(m, p);
    none.lemma_filter_len(p);
    assert(none.filter(p) =~= none);
    assert(none.push(m) =~= seq![m]);
    assert(Seq::<InboundMessage>::empty() + at_time(v, t) =~= at_time(v, t));
}

/// No message is of time `t` where all come before or after it.
proof fn lemma_none_at_time(v: Seq<InboundMessage>, t: Seq<char>)
    requires
        forall|i: int| 0 <= i < v.len() ==> (#[trigger] v[i]).created_at@ != t,
    ensures
        at_time(v, t) == Seq::<InboundMessage>::empty(),
    decreases v.len(),
{
    reveal(Seq::filter);
    if v.len() > 0 {
        lemma_none_at_time(v.drop_last(), t);
    }
}

/// A message put after all earlier ones stands first among those of its time.
proof fn lemma_insert_stable(v: Seq<InboundMessage>, k: int, m: InboundMessage, t: Seq<char>)
    requires
        0 <= k <= v.len(),
        forall|i: int| 0 <= i < k ==> before((#[trigger] v[i]).created_at@, m.created_at@),
    ensures
        at_time(v.insert(k, m), t) == if m.created_at@ == t {
            seq![m] + at_time(v, t)
        } else {
            at_time(v, t)
        },
{
    let p = of_time(t);
    let head = v.take(k);
    let tail = v.skip(k);
    assert(v =~= head + tail);
    assert(v.insert(k, m) =~= head + (seq![m] + tail));
    Seq::filter_distributes_over_add(head, tail, p);
    Seq::filter_distributes_over_add(head, seq![m] + tail, p);
    lemma_filter_front(tail, m, t);
    if m.created_at@ == t {
        assert forall|i: int| 0 <= i < head.len() implies (#[trigger] head[i]).created_at@ != t by {
            assert(before(v[i].created_at@, m.created_at@));
            text::lemma_before_asym(v[i].created_at@, m.created_at@);
        }
        lemma_none_at_time(head, t);
        assert(at_time(head, t) + (seq![m] + at_time(tail, t)) =~= seq![m] + (at_time(head, t)
            + at_time(tail, t)));
    }
}

/// Whether a turn holds these messages by their times, those of one time in the
/// order in which they came.
pub open spec fn turn_of(r: CollectedTurn, messages: Seq<InboundMessage>) -> bool {
    &&& in_order(r.messages@)
    &&& forall|t: Seq<char>| #[trigger] at_time(r.messages@, t) == at_time(messages, t)
    &&& r.messages@.len() == messages.len()
}

/// The turn from what the buffer held.
pub fn collected(messages: Vec<InboundMessage>) -> (r: CollectedTurn)
    ensures
        turn_of(r, messages@),
{
    CollectedTurn { messages: sort_by_created_at(messages) }
}

/// The keys that are deleted once the buffer of a conversation is drained: the
/// buffer, its count of characters, the time of its first message.
pub fn drained_keys(conv_id: i64) -> (r: [String; 3])
    ensures
        r@[0]@ == "buf:"@ + text::int_text(conv_id as int),
        r@[1]@ == "buf:chars:"@ + text::int_text(conv_id as int),
        r@[2]@ == "buf:first:"@ + text::int_text(conv_id as int),
{
    let n = text::i64_text(conv_id);
    [
        crate::buffer_key(conv_id),
        "buf:chars:".to_string().concat(n.as_str()),
        "buf:first:".to_string().concat(n.as_str()),
    ]
}

// ---------------------------------------------------------------------------
// Size
// ---------------------------------------------------------------------------

/// A text cut to `max` characters and marked with `[...]` where it is longer.
pub open spec fn limited(s: Seq<char>, max: int) -> Seq<char> {
    if s.len() > max {
        s.take(max) + "[...]"@
    } else {
        s
    }
}

/// Cuts every message to `max_chars` characters.
pub fn apply_input_limit(msgs: &mut Vec<InboundMessage>, max_chars: usize)
    ensures
        final(msgs)@.len() == old(msgs)@.len(),
        forall|i: int|
            0 <= i < old(msgs)@.len() ==> {
                let m = old(msgs)@[i];
                let n = #[trigger] final(msgs)@[i];
                &&& n.content@ == limited(m.content@, max_chars as int)
                &&& n.id == m.id
                &&& n.sender_kind == m.sender_kind
                &&& n.created_at == m.created_at
                &&& n.has_attachment == m.has_attachment
                &&& n.attachments == m.attachments
            },
{
    let mut i: usize = 0;
    while i < msgs.len()
        invariant
            i <= msgs@.len() == old(msgs)@.len(),
            forall|k: int|
                0 <= k < i ==> {
                    let m = old(msgs)@[k];
                    let n = #[trigger] msgs@[k];
                    &&& n.content@ == limited(m.content@, max_chars as int)
                    &&& n.id == m.id
                    &&& n.sender_kind == m.sender_kind
                    &&& n.created_at == m.created_at
                    &&& n.has_attachment == m.has_attachment
                    &&& n.attachments == m.attachments
                },
            forall|k: int| i <= k < msgs@.len() ==> #[trigger] msgs@[k] == old(msgs)@[k],
        decreases msgs@.len() - i,
    {
        let n = msgs[i].content.as_str().unicode_len();
        if n > max_chars {
            let mut kept = text::take_chars(msgs[i].content.as_str(), max_chars);
            kept.append("[...]");
            msgs[i].content = kept;
        }
        i += 1;
    }
}

/// Messages closer than this count as simultaneous.
pub fn order_skew() -> (r: Duration)
    ensures
        r == milliseconds(1000),
{
    Duration::from_millis(ORDER_SKEW_MS)
}

/// A limited text is never longer than the limit and the mark.
pub proof fn law_limited_text_is_short(s: Seq<char>, max: int)
    requires
        max >= 0,
    ensures
        limited(s, max).len() <= max + 5,
        s.len() <= max ==> limited(s, max) == s,
{
    reveal_strlit("[...]");
}

/// Limiting twice is limiting once.
pub proof fn law_limiting_is_idempotent(s: Seq<char>, max: int)
    requires
        max >= 0,
    ensures
        limited(limited(s, max), max) == limited(s, max),
{
    reveal_strlit("[...]");
    if s.len() > max {
        assert(limited(s, max).take(max) =~= s.take(max));
    }
}

/// Sorting loses no message and invents none: the messages of each time are the
/// same before and after, so a message is in the result just where it was in
/// the buffer.
pub proof fn law_sorting_keeps_messages(a: Seq<InboundMessage>, b: Seq<InboundMessage>, m: InboundMessage)
    requires
        forall|t: Seq<char>| #[trigger] at_time(a, t) == at_time(b, t),
    ensures
        a.contains(m) == b.contains(m),
{
    let t = m.created_at@;
    let p = of_time(t);
    assert(at_time(a, t) == at_time(b, t));
    if a.contains(m) {
        let i = choose|i: int| 0 <= i < a.len() && a[i] == m;
        a.lemma_filter_contains(p, i);
        b.lemma_filter_contains_rev(p, m);
    }
    if b.contains(m) {
        let i = choose|i: int| 0 <= i < b.len() && b[i] == m;
        b.lemma_filter_contains(p, i);
        a.lemma_filter_contains_rev(p, m);
    }
}

/// A message that is too long keeps its beginning, all that the limit allows,
/// and the mark shows that it was cut.
pub proof fn law_cut_messages_keep_their_beginning(s: Seq<char>, max: int)
    requires
        0 <= max < s.len(),
    ensures
        limited(s, max).len() == max + 5,
        limited(s, max).take(max) == s.take(max),
        limited(s, max).skip(max) == "[...]"@,
{
    reveal_strlit("[...]");
    assert(limited(s, max).take(max) =~= s.take(max));
    assert(limited(s, max).skip(max) =~= "[...]"@);
}

/// A turn holds what the buffer held, no message more and none fewer, the earlier
/// ones first; messages of one time keep the order in which they came.
pub proof fn law_turns_are_in_order(
    messages: Vec<InboundMessage>,
    r: CollectedTurn,
    i: int,
    j: int,
    m: InboundMessage,
    t: Seq<char>,
)
    requires
        call_ensures(collected, (messages,), r),
        0 <= i < j < r.messages@.len(),
    ensures
        !before(r.messages@[j].created_at@, r.messages@[i].created_at@),
        r.messages@.len() == messages@.len(),
        r.messages@.contains(m) <==> messages@.contains(m),
        r.messages@.filter(|x: InboundMessage| x.created_at@ == t) == messages@.filter(
            |x: InboundMessage| x.created_at@ == t,
        ),
{
    law_sorting_keeps_messages(r.messages@, messages@, m);
    assert(at_time(r.messages@, t) == at_time(messages@, t));
    assert(of_time(t) =~= (|x: InboundMessage| x.created_at@ == t));
}

/// What is deleted after a turn was taken is what the intake had written for it:
/// the buffer, the count of its characters and the time of its first message.
pub proof fn law_what_was_buffered_is_drained(
    conv_id: i64,
    r: [String; 3],
    buffer: String,
    meta: (String, String),
)
    requires
        call_ensures(drained_keys, (conv_id,), r),
        call_ensures(crate::buffer_key, (conv_id,), buffer),
        call_ensures(crate::api::buffer_meta_keys, (conv_id,), meta),
    ensures
        r@[0]@ == buffer@,
        r@[1]@ == meta.1@,
        r@[2]@ == meta.0@,
{
}

/// The ids, the texts and the files of a turn are those of its messages.
pub proof fn law_turns_are_summed_up(
    turn: CollectedTurn,
    r: Vec<i64>,
    file: bool,
    text: String,
    i: int,
)
    requires
        call_ensures(CollectedTurn::message_ids, (&turn,), r),
        call_ensures(CollectedTurn::has_attachment, (&turn,), file),
        call_ensures(CollectedTurn::coalesced_text, (&turn,), text),
        0 <= i < turn.messages@.len(),
    ensures
        r@.len() == turn.messages@.len(),
        r@[i] == turn.messages@[i].id,
        turn.messages@[i].has_attachment || turn.messages@[i].attachments@.len() > 0 ==> file,
        (forall|k: int|
            0 <= k < turn.messages@.len() ==> !(#[trigger] turn.messages@[k]).has_attachment
                && turn.messages@[k].attachments@.len() == 0) ==> !file,
        turn.messages@.len() == 1 ==> text@ == turn.messages@[0].content@,
        turn.messages@.len() == 2 ==> text@ == turn.messages@[0].content@ + "\n"@
            + turn.messages@[1].content@,
{
    if turn.messages@[i].has_attachment || turn.messages@[i].attachments@.len() > 0 {
        assert(attached(turn.messages@[i]));
    }
    let c = contents(turn.messages@);
    if c.len() == 2 {
        assert(c.drop_last()[0] == turn.messages@[0].content@);
        assert(c.last() == turn.messages@[1].content@);
        assert(joined(c.drop_last(), "\n"@) == c[0]);
    }
}

/// One message more adds the characters of its text, no fewer and no more.
pub proof fn law_characters_add_up(
    turn: CollectedTurn,
    longer: CollectedTurn,
    m: InboundMessage,
    a: usize,
    b: usize,
)
    requires
        longer.messages@ == turn.messages@.push(m),
        char_sum(longer.messages@) <= usize::MAX,
        call_ensures(CollectedTurn::total_chars, (&turn,), a),
        call_ensures(CollectedTurn::total_chars, (&longer,), b),
    ensures
        b == a + m.content@.len(),
        turn.messages@.len() == 0 ==> a == 0,
{
    assert(longer.messages@.drop_last() =~= turn.messages@);
}

/// Every message of a turn is cut to the limit where it is longer; nothing else
/// of it changes, and no message is lost.
pub proof fn law_only_long_messages_are_cut(
    msgs: &mut Vec<InboundMessage>,
    max_chars: usize,
    i: int,
)
    requires
        call_ensures(apply_input_limit, (msgs, max_chars), ()),
        0 <= i < old(msgs)@.len(),
    ensures
        final(msgs)@.len() == old(msgs)@.len(),
        old(msgs)@[i].content@.len() <= max_chars ==> final(msgs)@[i].content@
            == old(msgs)@[i].content@,
        old(msgs)@[i].content@.len() > max_chars ==> final(msgs)@[i].content@
            == old(msgs)@[i].content@.take(max_chars as int) + "[...]"@,
        final(msgs)@[i].id == old(msgs)@[i].id,
        final(msgs)@[i].sender_kind == old(msgs)@[i].sender_kind,
        final(msgs)@[i].created_at == old(msgs)@[i].created_at,
        final(msgs)@[i].has_attachment == old(msgs)@[i].has_attachment,
        final(msgs)@[i].attachments == old(msgs)@[i].attachments,
{
}

/// Messages within a second of each other count as simultaneous.
pub proof fn law_a_second_is_no_order(r: Duration)
    requires
        call_ensures(order_skew, (), r),
    ensures
        r == milliseconds(1000),
{
}

} // verus!
