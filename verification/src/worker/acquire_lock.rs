//! One run at a time for each conversation: the lock and its rules.
use crate::duration::seconds;
use crate::ids::hyphenated;
use crate::text;
use crate::text::int_text;
use std::time::Duration;
use vstd::prelude::*;

verus! {

/// How long a lock lives, in milliseconds.
pub const LOCK_TTL_MS: u64 = 90000;

/// A run younger than this needs no longer lock, in seconds.
pub const WATCHDOG_GRACE_SECS: u64 = 60;

/// A run that found the lock taken is tried again after this time.
pub const RETRY_DELAY_MS: i64 = 2000;

/// Deletes the lock where the token is the one that took it.
pub const RELEASE_SCRIPT: &'static str =
    "\nif redis.call('get', KEYS[1]) == ARGV[1] then\n    return redis.call('del', KEYS[1])\nelse\n    return 0\nend\n";

/// Prolongs the lock where the token is the one that took it.
pub const EXTEND_SCRIPT: &'static str =
    "if redis.call('get', KEYS[1]) == ARGV[1] then\n             return redis.call('pexpire', KEYS[1], ARGV[2])\n           else\n             return 0\n           end";

/// Who holds the lock: only the token can release it.
#[derive(Debug, Clone)]
pub struct LockGuard {
    pub conv_id: i64,
    pub token: String,
}

/// What is asked of the store to take a lock: set `key` to `token` unless it is
/// set, for `ttl_ms`.
#[derive(Debug, Clone)]
pub struct LockRequest {
    pub conv_id: i64,
    pub key: String,
    pub token: String,
    pub ttl_ms: u64,
}

/// The request to lock a conversation, under a fresh token.
pub fn lock_request(conv_id: i64) -> (r: LockRequest)
    ensures
        r.conv_id == conv_id,
        r.key@ == "lock:conv:"@ + int_text(conv_id as int),
        r.ttl_ms == 90000,
        exists|n: u128| r.token@ == hyphenated(n as int),
        r.token@[14] == '7',
{
    LockRequest {
        conv_id,
        key: crate::lock_key(conv_id),
        token: crate::ids::fresh_token(),
        ttl_ms: LOCK_TTL_MS,
    }
}

/// What came of a request for a lock.
#[derive(Debug, Clone)]
pub enum LockOutcome {
    Acquired(LockGuard),
    /// Taken by another run: put `member` into the debounce set with `score`.
    Contended { member: String, score: i64 },
}

/// What follows from the store's answer to a request for a lock. Where the lock
/// is taken the conversation comes up again two seconds after `now_ms`.
pub fn lock_outcome(request: LockRequest, was_set: bool, now_ms: i64) -> (r: LockOutcome)
    requires
        now_ms <= i64::MAX - RETRY_DELAY_MS,
    ensures
        match r {
            LockOutcome::Acquired(g) => was_set && g.conv_id == request.conv_id && g.token
                == request.token,
            LockOutcome::Contended { member, score } => !was_set && member@ == int_text(
                request.conv_id as int,
            ) && score == now_ms + 2000,
        },
{
    if was_set {
        LockOutcome::Acquired(LockGuard { conv_id: request.conv_id, token: request.token })
    } else {
        LockOutcome::Contended {
            member: text::i64_text(request.conv_id),
            score: now_ms + RETRY_DELAY_MS,
        }
    }
}

impl LockGuard {
    /// The key of the lock.
    pub fn key(&self) -> (r: String)
        ensures
            r@ == "lock:conv:"@ + int_text(self.conv_id as int),
    {
        crate::lock_key(self.conv_id)
    }
}

/// A run younger than this needs no longer lock.
pub fn watchdog_grace() -> (r: Duration)
    ensures
        r == seconds(60),
{
    Duration::from_secs(WATCHDOG_GRACE_SECS)
}

/// A run needs no longer lock in its first minute.
pub proof fn law_the_grace_is_a_minute(r: Duration)
    requires
        call_ensures(watchdog_grace, (), r),
    ensures
        r == seconds(60),
{
}

/// A conversation belongs to the run whose request set its lock, under the token
/// of that request. Any other run comes up again two seconds later, under the
/// number of the same conversation.
pub proof fn law_one_run_gets_the_conversation(
    conv_id: i64,
    request: LockRequest,
    was_set: bool,
    now_ms: i64,
    r: LockOutcome,
)
    requires
        call_ensures(lock_request, (conv_id,), request),
        call_ensures(lock_outcome, (request, was_set, now_ms), r),
    ensures
        was_set <==> r is Acquired,
        r matches LockOutcome::Acquired(g) ==> g.conv_id == conv_id && g.token@ == request.token@,
        r matches LockOutcome::Contended { member, score } ==> crate::text::parsed_int(member@)
            == Some(conv_id as int) && score - now_ms == 2000,
{
    text::law_numbers_read_back(conv_id as int);
}

/// A lock is asked for under the key that it is released under, and two
/// conversations share none. It lives for a minute and a half: longer than the
/// time after which a run has to prolong it.
pub proof fn law_locks_are_asked_for_by_conversation(
    a: i64,
    b: i64,
    x: LockRequest,
    y: LockRequest,
    g: LockGuard,
    key: String,
)
    requires
        call_ensures(lock_request, (a,), x),
        call_ensures(lock_request, (b,), y),
        call_ensures(LockGuard::key, (&g,), key),
    ensures
        x.key@ == y.key@ <==> a == b,
        x.key@ == key@ <==> g.conv_id == a,
        x.ttl_ms == 90000,
        x.ttl_ms > WATCHDOG_GRACE_SECS * 1000,
        x.token@.len() == 36,
{
    crate::law_keys_are_told_apart(a as int, 0, b as int, 0);
    crate::law_keys_are_told_apart(a as int, 0, g.conv_id as int, 0);
}

} // verus!
