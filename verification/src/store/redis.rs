//! What is kept in Redis: buffer, debounce set, locks, queue and limiters.
use crate::ids::{AccountId, ContactId, ConversationId};
use crate::json::{lemma_object, members, of_i64, push_member, F64Bits, Json, JsonValue};
use crate::ratelimit::RateLimits;
use crate::text;
use crate::text::{int_text, parsed_int, texts, within};
use vstd::prelude::*;

verus! {

/// How long a buffer lives, in seconds.
pub const BUFFER_TTL_SECS: u64 = 300;

/// How long a message is remembered, in seconds.
pub const DEDUP_TTL_SECS: u64 = 86400;

/// How long a lock lives, in milliseconds.
pub const LOCK_TTL_MS: u64 = 90000;

/// Codes of the limiters.
pub const L1_CONV: &'static str = "L1";

pub const L2_CONTACT: &'static str = "L2";

pub const L3_OUT: &'static str = "L3";

pub const L4_ACCOUNT: &'static str = "L4";

pub const L5_CONCURRENCY: &'static str = "L5";

pub const L6_BUDGET: &'static str = "L6";

/// Extends a lock where the token is its own.
pub const EXTEND_LOCK_LUA: &'static str = "
if redis.call(\"get\", KEYS[1]) == ARGV[1] then
    return redis.call(\"pexpire\", KEYS[1], ARGV[2])
else
    return 0
end
";

/// Counts into a window: 1 where it fits, 0 where the window is full.
/// `ARGV[1]` is the most, `ARGV[2]` the window in seconds.
pub const BUCKET_LUA: &'static str = "
local current = redis.call(\"INCR\", KEYS[1])
if current == 1 then
    redis.call(\"EXPIRE\", KEYS[1], ARGV[2])
end
if current > tonumber(ARGV[1]) then
    return 0
end
return 1
";

/// Takes a slot: 1 where one was free, 0 where none was. `ARGV[1]` is the
/// number of slots, `ARGV[2]` how long one is held, in seconds.
pub const SEMAPHORE_LUA: &'static str = "
local current = redis.call(\"GET\", KEYS[1])
local n = 0
if current then n = tonumber(current) end
if n >= tonumber(ARGV[1]) then
    return 0
end
redis.call(\"INCR\", KEYS[1])
redis.call(\"EXPIRE\", KEYS[1], ARGV[2])
return 1
";

/// Looks at the budget: 1 where some is left, 0 where none is. `ARGV[1]` is the
/// budget.
pub const BUDGET_LUA: &'static str = "
local spent = redis.call(\"GET\", KEYS[1])
local s = 0
if spent then s = tonumber(spent) end
if s >= tonumber(ARGV[1]) then
    return 0
end
return 1
";

// ---------------------------------------------------------------------------
// Debounce, queue, locks
// ---------------------------------------------------------------------------

/// Conversation of a member of the debounce set.
pub open spec fn member_id(s: Seq<char>) -> Option<int> {
    within(parsed_int(s), i64::MIN as int, i64::MAX as int)
}

/// Conversations of members of the debounce set, in order; what is no number is
/// left out.
pub open spec fn due_ids(items: Seq<Seq<char>>) -> Seq<int>
    decreases items.len(),
{
    if items.len() == 0 {
        Seq::empty()
    } else {
        let rest = due_ids(items.drop_last());
        match member_id(items.last()) {
            Some(n) => rest.push(n),
            None => rest,
        }
    }
}

/// Conversations whose time has come, from the members that Redis returned.
pub fn poll_due(items: &Vec<String>) -> (r: Vec<ConversationId>)
    ensures
        r@.map_values(|n: i64| n as int) == due_ids(texts(items@)),
{
    let ghost all = texts(items@);
    let mut r: Vec<ConversationId> = Vec::new();
    let mut i: usize = 0;
    while i < items.len()
        invariant
            i <= items@.len(),
            all == texts(items@),
            r@.map_values(|n: i64| n as int) =~= due_ids(all.take(i as int)),
        decreases items@.len() - i,
    {
        assert(all.take(i as int + 1).drop_last() =~= all.take(i as int));
        assert(all.take(i as int + 1).last() == items@[i as int]@);
        if let Some(n) = text::parse_i64(items[i].as_str()) {
            r.push(n);
        }
        i += 1;
    }
    assert(all.take(i as int) =~= all);
    r
}

/// A job of the queue.
pub fn queue_job(conv_id: ConversationId, reason: &str, trace_id: &str) -> (r: JsonValue)
    ensures
        r@ == Json::Object(
            seq![
                ("conv_id"@, Json::Int(conv_id as int)),
                ("reason"@, Json::Str(reason@)),
                ("trace_id"@, Json::Str(trace_id@)),
            ],
        ),
{
    let mut m: Vec<(String, JsonValue)> = Vec::new();
    push_member(&mut m, "conv_id", of_i64(conv_id));
    push_member(&mut m, "reason", JsonValue::Str(reason.to_string()));
    push_member(&mut m, "trace_id", JsonValue::Str(trace_id.to_string()));
    proof {
        lemma_object(m);
        assert(members(m@) =~= seq![
            ("conv_id"@, Json::Int(conv_id as int)),
            ("reason"@, Json::Str(reason@)),
            ("trace_id"@, Json::Str(trace_id@)),
        ]);
    }
    JsonValue::Object(m)
}

/// Whether a script on a lock did its work.
pub fn lock_touched(n: i64) -> (r: bool)
    ensures
        r == (n == 1),
{
    n == 1
}

/// Whether a key that is set only once was set: it was new.
pub fn was_set(reply: Option<&str>) -> (r: bool)
    ensures
        r == reply is Some,
{
    reply.is_some()
}

// ---------------------------------------------------------------------------
// Limiters
// ---------------------------------------------------------------------------

/// One limiter to ask.
#[derive(Debug, Clone)]
pub enum LimitCheck {
    /// [`BUCKET_LUA`] on `key`.
    Bucket { key: String, max: u32, window_secs: u64 },
    /// [`SEMAPHORE_LUA`] on `key`.
    Semaphore { key: String, max: u32, slot_ttl_secs: u64 },
    /// [`BUDGET_LUA`] on `key`.
    Budget { key: String, budget_usd: F64Bits },
    /// [`BUDGET_LUA`] on `key`, with a count in place of a sum: is it below `max`?
    /// Nothing is counted.
    Look { key: String, max: u32 },
}

/// What a limiter is asked.
pub enum LimitCheckV {
    Bucket(Seq<char>, int, int),
    Semaphore(Seq<char>, int, int),
    Budget(Seq<char>, u64),
    Look(Seq<char>, int),
}

impl View for LimitCheck {
    type V = LimitCheckV;

    open spec fn view(&self) -> LimitCheckV {
        match self {
            LimitCheck::Bucket { key, max, window_secs } => LimitCheckV::Bucket(
                key@,
                *max as int,
                *window_secs as int,
            ),
            LimitCheck::Semaphore { key, max, slot_ttl_secs } => LimitCheckV::Semaphore(
                key@,
                *max as int,
                *slot_ttl_secs as int,
            ),
            LimitCheck::Budget { key, budget_usd } => LimitCheckV::Budget(key@, budget_usd.bits),
            LimitCheck::Look { key, max } => LimitCheckV::Look(key@, *max as int),
        }
    }
}

/// The limiters of a run, in the order in which they are asked. The count
/// of outgoing messages is only looked at.
pub open spec fn cascade(
    conv: ConversationId,
    contact: ContactId,
    account: AccountId,
    limits: RateLimits,
    today: Seq<char>,
) -> Seq<LimitCheckV> {
    seq![
        LimitCheckV::Bucket(
            "rl:conv:"@ + int_text(conv as int),
            limits.conv_runs_per_min as int,
            60,
        ),
        LimitCheckV::Bucket(
            "rl:contact:"@ + int_text(contact as int),
            limits.contact_runs_per_hour as int,
            3600,
        ),
        LimitCheckV::Look(
            "rl:out:"@ + int_text(conv as int),
            limits.out_msgs_per_conv_per_hour as int,
        ),
        LimitCheckV::Bucket(
            "rl:account:"@ + int_text(account as int),
            limits.account_runs_per_min as int,
            60,
        ),
        LimitCheckV::Semaphore("sem:agent"@, limits.max_concurrent_runs as int, 15),
        LimitCheckV::Budget("budget:"@ + today, limits.daily_budget_usd.bits),
    ]
}

/// The limiters of a run, in the order in which they are asked.
pub fn check_all(
    conv_id: ConversationId,
    contact_id: ContactId,
    account_id: AccountId,
    limits: &RateLimits,
    today: &str,
) -> (r: Vec<LimitCheck>)
    ensures
        r@.map_values(|c: LimitCheck| c@) == cascade(
            conv_id,
            contact_id,
            account_id,
            *limits,
            today@,
        ),
{
    let r: Vec<LimitCheck> = vec![
        LimitCheck::Bucket {
            key: RateLimits::conv_key(conv_id),
            max: limits.conv_runs_per_min,
            window_secs: 60,
        },
        LimitCheck::Bucket {
            key: RateLimits::contact_key(contact_id),
            max: limits.contact_runs_per_hour,
            window_secs: 3600,
        },
        LimitCheck::Look {
            key: RateLimits::out_key(conv_id),
            max: limits.out_msgs_per_conv_per_hour,
        },
        LimitCheck::Bucket {
            key: RateLimits::account_key(account_id),
            max: limits.account_runs_per_min,
            window_secs: 60,
        },
        LimitCheck::Semaphore {
            key: RateLimits::SEMAPHORE_KEY.to_string(),
            max: limits.max_concurrent_runs,
            slot_ttl_secs: 15,
        },
        LimitCheck::Budget {
            key: RateLimits::budget_key(today),
            budget_usd: limits.daily_budget_usd,
        },
    ];
    assert(r@.map_values(|c: LimitCheck| c@) =~= cascade(
        conv_id,
        contact_id,
        account_id,
        *limits,
        today@,
    ));
    r
}

/// The code of a limiter by its place in the cascade.
pub open spec fn limiter_code(i: int) -> Seq<char> {
    if i == 0 {
        "L1"@
    } else if i == 1 {
        "L2"@
    } else if i == 2 {
        "L3"@
    } else if i == 3 {
        "L4"@
    } else if i == 4 {
        "L5"@
    } else {
        "L6"@
    }
}

/// The codes of the limiters among the first `n` that refused, in order: those
/// that answered 0.
pub open spec fn breaches(answers: Seq<i64>, n: int) -> Seq<Seq<char>>
    decreases n,
{
    if n <= 0 {
        Seq::empty()
    } else if answers[n - 1] == 0 {
        breaches(answers, n - 1).push(limiter_code(n - 1))
    } else {
        breaches(answers, n - 1)
    }
}

fn code_of(i: usize) -> (r: &'static str)
    ensures
        r@ == limiter_code(i as int),
{
    match i {
        0 => L1_CONV,
        1 => L2_CONTACT,
        2 => L3_OUT,
        3 => L4_ACCOUNT,
        4 => L5_CONCURRENCY,
        _ => L6_BUDGET,
    }
}

/// The codes of the limiters that refused, given what each of them answered.
pub fn breached(answers: &[i64; 6]) -> (r: Vec<String>)
    ensures
        texts(r@) == breaches(answers@, 6),
{
    let mut r: Vec<String> = Vec::new();
    let mut i: usize = 0;
    assert(texts(r@) =~= breaches(answers@, 0));
    while i < 6
        invariant
            i <= 6,
            texts(r@) == breaches(answers@, i as int),
        decreases 6 - i,
    {
        let ghost start = texts(r@);
        if answers[i] == 0 {
            r.push(code_of(i).to_string());
            assert(texts(r@) =~= start.push(limiter_code(i as int)));
        }
        i += 1;
    }
    r
}

/// What a freed slot leaves behind: where the counter fell below zero, it is
/// set to this value.
pub fn release_concurrency_slot(n: i64) -> (r: Option<i64>)
    ensures
        r == if n < 0 {
            Some(0i64)
        } else {
            None
        },
{
    if n < 0 {
        Some(0)
    } else {
        None
    }
}

/// Messages that went out in the window.
pub fn out_msgs_used(stored: Option<i64>) -> (r: i64)
    ensures
        r == (match stored {
            Some(n) => n,
            None => 0,
        }),
{
    match stored {
        Some(n) => n,
        None => 0,
    }
}

/// The key that a limiter looks at.
pub open spec fn limiter_key(c: LimitCheckV) -> Seq<char> {
    match c {
        LimitCheckV::Bucket(key, _, _) => key,
        LimitCheckV::Semaphore(key, _, _) => key,
        LimitCheckV::Budget(key, _) => key,
        LimitCheckV::Look(key, _) => key,
    }
}

/// Asking the limiters counts no message: the count of what went out is looked
/// at and not touched.
pub proof fn law_asking_counts_no_message(
    conv: ConversationId,
    contact: ContactId,
    account: AccountId,
    limits: RateLimits,
    today: Seq<char>,
    i: int,
)
    requires
        0 <= i < 6,
        limiter_key(cascade(conv, contact, account, limits, today)[i]) == "rl:out:"@ + int_text(
            conv as int,
        ),
    ensures
        cascade(conv, contact, account, limits, today)[i] is Look,
{
    reveal_strlit("rl:conv:");
    reveal_strlit("rl:contact:");
    reveal_strlit("rl:out:");
    reveal_strlit("rl:account:");
    reveal_strlit("sem:agent");
    reveal_strlit("budget:");
    let out = "rl:out:"@ + int_text(conv as int);
    let key = limiter_key(cascade(conv, contact, account, limits, today)[i]);
    assert(out[0] == 'r' && out[3] == 'o');
    assert(i == 0 ==> key[3] == 'c');
    assert(i == 1 ==> key[3] == 'c');
    assert(i == 3 ==> key[3] == 'a');
    assert(i == 4 ==> key[0] == 's');
    assert(i == 5 ==> key[0] == 'b');
}

/// A run is free to go exactly where no limiter answered 0.
pub proof fn law_no_breach_means_all_allowed(answers: Seq<i64>)
    requires
        answers.len() == 6,
    ensures
        breaches(answers, 6).len() == 0 <==> forall|i: int| 0 <= i < 6 ==> answers[i] != 0,
{
    lemma_breaches(answers, 6);
}

proof fn lemma_breaches(answers: Seq<i64>, n: int)
    requires
        0 <= n <= answers.len(),
    ensures
        breaches(answers, n).len() == 0 <==> forall|i: int| 0 <= i < n ==> answers[i] != 0,
    decreases n,
{
    if n > 0 {
        lemma_breaches(answers, n - 1);
    }
}

/// The members of the debounce set for a list of conversations.
pub open spec fn scheduled(ids: Seq<i64>) -> Seq<Seq<char>> {
    ids.map_values(|n: i64| int_text(n as int))
}

/// Conversations that were put into the debounce set come out of it as they
/// went in.
pub proof fn law_scheduled_conversations_come_due(ids: Seq<i64>)
    ensures
        due_ids(scheduled(ids)) == ids.map_values(|n: i64| n as int),
    decreases ids.len(),
{
    if ids.len() > 0 {
        let rest = ids.drop_last();
        law_scheduled_conversations_come_due(rest);
        assert(scheduled(ids).drop_last() =~= scheduled(rest));
        text::law_numbers_read_back(ids.last() as int);
        assert(due_ids(scheduled(ids)) =~= ids.map_values(|n: i64| n as int));
    } else {
        assert(due_ids(scheduled(ids)) =~= ids.map_values(|n: i64| n as int));
    }
}

/// Each limit is held against its own count: runs of the conversation and of the
/// account within a minute, runs of the contact and messages out within an hour,
/// runs at one time over all, money within the day.
pub proof fn law_each_limit_has_its_own_count(
    conv: ConversationId,
    contact: ContactId,
    account: AccountId,
    limits: RateLimits,
    today: &str,
    r: Vec<LimitCheck>,
)
    requires
        call_ensures(check_all, (conv, contact, account, &limits, today), r),
    ensures
        r@.len() == 6,
        r@[0] matches LimitCheck::Bucket { key, max, window_secs } && key@ == "rl:conv:"@
            + int_text(conv as int) && max == limits.conv_runs_per_min && window_secs == 60,
        r@[1] matches LimitCheck::Bucket { key, max, window_secs } && key@ == "rl:contact:"@
            + int_text(contact as int) && max == limits.contact_runs_per_hour && window_secs == 3600,
        r@[2] matches LimitCheck::Look { key, max } && key@ == "rl:out:"@ + int_text(conv as int)
            && max == limits.out_msgs_per_conv_per_hour,
        r@[3] matches LimitCheck::Bucket { key, max, window_secs } && key@ == "rl:account:"@
            + int_text(account as int) && max == limits.account_runs_per_min && window_secs == 60,
        r@[4] matches LimitCheck::Semaphore { key, max, slot_ttl_secs } && key@ == "sem:agent"@
            && max == limits.max_concurrent_runs && slot_ttl_secs == 15,
        r@[5] matches LimitCheck::Budget { key, budget_usd } && key@ == "budget:"@ + today@
            && budget_usd == limits.daily_budget_usd,
{
    let v = r@.map_values(|c: LimitCheck| c@);
    let w = cascade(conv, contact, account, limits, today@);
    assert(v.len() == r@.len() && w.len() == 6);
    assert(v[0] == r@[0]@ && v[1] == r@[1]@ && v[2] == r@[2]@);
    assert(v[3] == r@[3]@ && v[4] == r@[4]@ && v[5] == r@[5]@);
    assert(w[0] is Bucket && w[1] is Bucket && w[2] is Look);
    assert(w[3] is Bucket && w[4] is Semaphore && w[5] is Budget);
}

proof fn lemma_breached(answers: Seq<i64>, n: int, c: Seq<char>)
    requires
        0 <= n <= answers.len(),
    ensures
        breaches(answers, n).contains(c) <==> exists|i: int|
            0 <= i < n && answers[i] == 0 && #[trigger] limiter_code(i) == c,
    decreases n,
{
    if n > 0 {
        lemma_breached(answers, n - 1, c);
        let head = breaches(answers, n - 1);
        let all = breaches(answers, n);
        if all.contains(c) {
            let k = choose|k: int| 0 <= k < all.len() && all[k] == c;
            if k < head.len() {
                assert(head[k] == c);
            } else {
                assert(limiter_code(n - 1) == c);
            }
        }
        if exists|i: int| 0 <= i < n && answers[i] == 0 && #[trigger] limiter_code(i) == c {
            let i = choose|i: int| 0 <= i < n && answers[i] == 0 && #[trigger] limiter_code(i) == c;
            if i < n - 1 {
                assert(head.contains(c));
                let k = choose|k: int| 0 <= k < head.len() && head[k] == c;
                assert(all[k] == c);
            } else {
                assert(all[head.len() as int] == c);
            }
        }
    } else {
        assert(breaches(answers, n).len() == 0);
    }
}

/// A limiter is named among those that refused exactly where it answered 0.
pub proof fn law_refusals_are_named(answers: [i64; 6], r: Vec<String>)
    requires
        call_ensures(breached, (&answers,), r),
    ensures
        texts(r@).contains("L1"@) <==> answers@[0] == 0,
        texts(r@).contains("L2"@) <==> answers@[1] == 0,
        texts(r@).contains("L3"@) <==> answers@[2] == 0,
        texts(r@).contains("L4"@) <==> answers@[3] == 0,
        texts(r@).contains("L5"@) <==> answers@[4] == 0,
        texts(r@).contains("L6"@) <==> answers@[5] == 0,
{
    reveal_strlit("L1");
    reveal_strlit("L2");
    reveal_strlit("L3");
    reveal_strlit("L4");
    reveal_strlit("L5");
    reveal_strlit("L6");
    assert("L1"@[1] == '1' && "L2"@[1] == '2' && "L3"@[1] == '3');
    assert("L4"@[1] == '4' && "L5"@[1] == '5' && "L6"@[1] == '6');
    lemma_breached(answers@, 6, "L1"@);
    lemma_breached(answers@, 6, "L2"@);
    lemma_breached(answers@, 6, "L3"@);
    lemma_breached(answers@, 6, "L4"@);
    lemma_breached(answers@, 6, "L5"@);
    lemma_breached(answers@, 6, "L6"@);
    assert(limiter_code(0) == "L1"@ && limiter_code(1) == "L2"@ && limiter_code(2) == "L3"@);
    assert(limiter_code(3) == "L4"@ && limiter_code(4) == "L5"@ && limiter_code(5) == "L6"@);
}

/// A slot that is given back leaves the counter alone, unless it fell below
/// zero: then it starts at zero again.
pub proof fn law_freed_slots_never_count_below_zero(n: i64, r: Option<i64>)
    requires
        call_ensures(release_concurrency_slot, (n,), r),
    ensures
        n >= 0 <==> r is None,
        r matches Some(m) ==> m == 0,
{
}

/// What the store answers: a key was new where it was set, a lock was touched
/// where the script says so, and no count means that nothing went out.
pub proof fn law_what_the_store_answers(
    reply: Option<&str>,
    n: i64,
    stored: Option<i64>,
    set: bool,
    touched: bool,
    used: i64,
)
    requires
        call_ensures(was_set, (reply,), set),
        call_ensures(lock_touched, (n,), touched),
        call_ensures(out_msgs_used, (stored,), used),
    ensures
        set <==> reply is Some,
        touched <==> n == 1,
        stored is None ==> used == 0,
        stored matches Some(k) ==> used == k,
{
}

/// A conversation comes due exactly where its number stands among the members
/// that Redis returned.
pub proof fn law_members_come_due(items: Vec<String>, r: Vec<ConversationId>, n: i64)
    requires
        call_ensures(poll_due, (&items,), r),
    ensures
        r@.contains(n) <==> exists|i: int|
            0 <= i < items@.len() && parsed_int((#[trigger] items@[i])@) == Some(n as int),
        r@.len() <= items@.len(),
{
    let all = texts(items@);
    let ints = r@.map_values(|n: i64| n as int);
    lemma_due(all, n as int);
    if r@.contains(n) {
        let k = choose|k: int| 0 <= k < r@.len() && r@[k] == n;
        assert(ints[k] == n as int);
        let i = choose|i: int| 0 <= i < all.len() && parsed_int(#[trigger] all[i]) == Some(n as int);
        assert(items@[i]@ == all[i]);
    }
    if exists|i: int|
        0 <= i < items@.len() && parsed_int((#[trigger] items@[i])@) == Some(n as int) {
        let i = choose|i: int|
            0 <= i < items@.len() && parsed_int((#[trigger] items@[i])@) == Some(n as int);
        assert(all[i] == items@[i]@);
        let k = choose|k: int| 0 <= k < ints.len() && ints[k] == n as int;
        assert(r@[k] == n);
    }
}

proof fn lemma_due(items: Seq<Seq<char>>, n: int)
    requires
        i64::MIN <= n <= i64::MAX,
    ensures
        due_ids(items).contains(n) <==> exists|i: int|
            0 <= i < items.len() && parsed_int(#[trigger] items[i]) == Some(n),
        due_ids(items).len() <= items.len(),
    decreases items.len(),
{
    if items.len() > 0 {
        let rest = items.drop_last();
        lemma_due(rest, n);
        let head = due_ids(rest);
        let all = due_ids(items);
        assert(items[items.len() - 1] == items.last());
        if all.contains(n) {
            let k = choose|k: int| 0 <= k < all.len() && all[k] == n;
            if k < head.len() {
                assert(head[k] == n);
                let i = choose|i: int| 0 <= i < rest.len() && parsed_int(#[trigger] rest[i]) == Some(n);
                assert(items[i] == rest[i]);
            } else {
                assert(parsed_int(items[items.len() - 1]) == Some(n));
            }
        }
        if exists|i: int| 0 <= i < items.len() && parsed_int(#[trigger] items[i]) == Some(n) {
            let i = choose|i: int| 0 <= i < items.len() && parsed_int(#[trigger] items[i]) == Some(n);
            if i < rest.len() {
                assert(rest[i] == items[i]);
                let k = choose|k: int| 0 <= k < head.len() && head[k] == n;
                assert(all[k] == n);
            } else {
                assert(all[head.len() as int] == n);
            }
        }
    }
}

/// A job in the queue carries its conversation, its reason and its trace.
pub proof fn law_queued_jobs_carry_their_trace(
    conv_id: ConversationId,
    reason: &str,
    trace_id: &str,
    r: JsonValue,
)
    requires
        call_ensures(queue_job, (conv_id, reason, trace_id), r),
    ensures
        crate::json::member(r@, "conv_id"@) == Some(Json::Int(conv_id as int)),
        crate::json::member(r@, "reason"@) == Some(Json::Str(reason@)),
        crate::json::member(r@, "trace_id"@) == Some(Json::Str(trace_id@)),
{
    reveal_strlit("conv_id");
    reveal_strlit("reason");
    reveal_strlit("trace_id");
    assert("conv_id"@.len() == 7 && "reason"@.len() == 6 && "trace_id"@.len() == 8);
    reveal_with_fuel(crate::json::first_member, 4);
    let m = r@->Object_0;
    let m1 = m.drop_first();
    let m2 = m1.drop_first();
    assert(m1[0] == m[1] && m2[0] == m[2]);
}

/// What is kept lives as long as those who write it say: buffer, marks and locks
/// are kept alike on both sides.
pub proof fn law_lifetimes_agree()
    ensures
        BUFFER_TTL_SECS == crate::api::BUFFER_TTL_SECS,
        DEDUP_TTL_SECS == crate::api::DEDUP_TTL_SECS,
        LOCK_TTL_MS == crate::worker::acquire_lock::LOCK_TTL_MS,
        BUFFER_TTL_SECS == 5 * 60,
        DEDUP_TTL_SECS == 24 * 60 * 60,
        LOCK_TTL_MS == 90 * 1000,
{
}

} // verus!
