//! Calls that fail: when to try again, and when to stop calling.
use crate::text;
use crate::text::decimal;
use vstd::prelude::*;

verus! {

/// Errors of a call on the help desk.
#[derive(Debug)]
pub enum ChatwootError {
    ApiError { status: u16, body: String },
    NotFound,
    AuthError,
    RateLimited,
    Timeout,
    CircuitOpen,
    Network(String),
    Serde(String),
}

impl ChatwootError {
    /// The display form.
    pub fn to_string(&self) -> (r: String)
        ensures
            r@ == (match *self {
                ChatwootError::ApiError { status, body } => "api error: "@ + decimal(status as nat)
                    + " "@ + body@,
                ChatwootError::NotFound => "not found"@,
                ChatwootError::AuthError => "auth error"@,
                ChatwootError::RateLimited => "rate limited"@,
                ChatwootError::Timeout => "timeout"@,
                ChatwootError::CircuitOpen => "circuit open"@,
                ChatwootError::Network(m) => "network error: "@ + m@,
                ChatwootError::Serde(m) => "serialization: "@ + m@,
            }),
    {
        match self {
            ChatwootError::ApiError { status, body } => {
                let mut r = "api error: ".to_string();
                r.append(text::u64_text(*status as u64).as_str());
                r.append(" ");
                r.append(body.as_str());
                r
            },
            ChatwootError::NotFound => "not found".to_string(),
            ChatwootError::AuthError => "auth error".to_string(),
            ChatwootError::RateLimited => "rate limited".to_string(),
            ChatwootError::Timeout => "timeout".to_string(),
            ChatwootError::CircuitOpen => "circuit open".to_string(),
            ChatwootError::Network(m) => "network error: ".to_string().concat(m.as_str()),
            ChatwootError::Serde(m) => "serialization: ".to_string().concat(m.as_str()),
        }
    }
}

// ---------------------------------------------------------------------------
// The circuit breaker
// ---------------------------------------------------------------------------

/// Failures in a row that open the circuit.
pub const FAILURE_THRESHOLD: u32 = 5;

/// How long the circuit stays open, in milliseconds.
pub const OPEN_DURATION_MS: u64 = 60000;

/// The state of the circuit. Times are milliseconds of a clock that never goes
/// back.
#[derive(Debug, Clone, Copy, PartialEq, Eq, Structural)]
pub enum CircuitState {
    /// Calls pass; so many failed in a row.
    Closed { failures: u32 },
    /// Calls are refused until then.
    Open { until_ms: u64 },
    /// The time is over, and one call is trying: others are refused until it is
    /// known what came of it.
    HalfOpen,
}

impl Default for CircuitState {
    fn default() -> (r: Self)
        ensures
            r == (CircuitState::Closed { failures: 0 }),
    {
        CircuitState::Closed { failures: 0 }
    }
}

/// A closed circuit has seen fewer failures than it takes to open it.
pub open spec fn circuit_wf(s: CircuitState) -> bool {
    s matches CircuitState::Closed { failures } ==> failures < FAILURE_THRESHOLD
}

/// Whether a call is refused.
pub open spec fn refuses(s: CircuitState, now_ms: u64) -> bool {
    match s {
        CircuitState::Closed { .. } => false,
        CircuitState::Open { until_ms } => until_ms > now_ms,
        CircuitState::HalfOpen => true,
    }
}

/// The state once a call asked to pass: the first one after the time is over is
/// the one that tries.
pub open spec fn let_through(s: CircuitState, now_ms: u64) -> CircuitState {
    if s is Open && !refuses(s, now_ms) {
        CircuitState::HalfOpen
    } else {
        s
    }
}

/// The state after a call that was refused for good.
pub open spec fn after_refusal(s: CircuitState, now_ms: u64) -> CircuitState {
    match s {
        CircuitState::HalfOpen => CircuitState::Open { until_ms: now_ms },
        _ => s,
    }
}

/// The state after a failure.
pub open spec fn after_failure(s: CircuitState, now_ms: u64) -> CircuitState {
    match s {
        CircuitState::Closed { failures } => if failures + 1 >= FAILURE_THRESHOLD {
            CircuitState::Open { until_ms: (now_ms + OPEN_DURATION_MS) as u64 }
        } else {
            CircuitState::Closed { failures: (failures + 1) as u32 }
        },
        CircuitState::HalfOpen => CircuitState::Open {
            until_ms: (now_ms + OPEN_DURATION_MS) as u64,
        },
        CircuitState::Open { until_ms } => CircuitState::Open { until_ms },
    }
}

impl CircuitState {
    /// Lets a call through or refuses it.
    pub fn check_circuit(&mut self, now_ms: u64) -> (r: Result<(), ChatwootError>)
        ensures
            match r {
                Ok(_) => !refuses(*old(self), now_ms),
                Err(e) => refuses(*old(self), now_ms) && e is CircuitOpen,
            },
            *final(self) == let_through(*old(self), now_ms),
    {
        match *self {
            CircuitState::Open { until_ms } => if until_ms > now_ms {
                Err(ChatwootError::CircuitOpen)
            } else {
                *self = CircuitState::HalfOpen;
                Ok(())
            },
            CircuitState::HalfOpen => Err(ChatwootError::CircuitOpen),
            CircuitState::Closed { .. } => Ok(()),
        }
    }

    /// A call worked: the circuit is closed.
    pub fn on_success(&mut self)
        ensures
            *final(self) == (CircuitState::Closed { failures: 0 }),
    {
        *self = CircuitState::Closed { failures: 0 };
    }

    /// A call was refused for good, which says nothing of the help desk. Where it
    /// was the one that tried, the next call tries in its place.
    pub fn on_refusal(&mut self, now_ms: u64)
        ensures
            *final(self) == after_refusal(*old(self), now_ms),
    {
        match *self {
            CircuitState::HalfOpen => {
                *self = CircuitState::Open { until_ms: now_ms };
            },
            _ => {},
        }
    }

    /// A call failed.
    pub fn on_failure(&mut self, now_ms: u64)
        requires
            circuit_wf(*old(self)),
            now_ms <= u64::MAX - OPEN_DURATION_MS,
        ensures
            *final(self) == after_failure(*old(self), now_ms),
            circuit_wf(*final(self)),
    {
        match *self {
            CircuitState::Closed { failures } => {
                let f: u32 = failures + 1;
                if f >= FAILURE_THRESHOLD {
                    *self = CircuitState::Open { until_ms: now_ms + OPEN_DURATION_MS };
                } else {
                    *self = CircuitState::Closed { failures: f };
                }
            },
            CircuitState::HalfOpen => {
                *self = CircuitState::Open { until_ms: now_ms + OPEN_DURATION_MS };
            },
            CircuitState::Open { until_ms: _ } => {},
        }
    }
}

// ---------------------------------------------------------------------------
// Trying again
// ---------------------------------------------------------------------------

/// How often a call is tried.
pub const MAX_ATTEMPTS: u32 = 3;

/// How long to wait after each attempt, in milliseconds, before jitter.
pub const BACKOFF_MS: [u64; 3] = [1000, 3000, 9000];

/// What came of one attempt.
#[derive(Debug, Clone)]
pub enum CallReply {
    /// No reply: the time ran out, or the network failed.
    Transport { timed_out: bool, error: String },
    /// A reply with its status; the body is read where it is no success.
    Status { code: u16, body: String },
}

/// Whether a status is a success.
pub open spec fn success(code: u16) -> bool {
    200 <= code < 300
}

/// Whether a failed status is worth another attempt.
pub open spec fn retryable(code: u16) -> bool {
    code == 408 || code == 429 || code >= 500
}

/// What to do after an attempt.
#[derive(Debug)]
pub enum RetryStep {
    /// The call worked.
    Success,
    /// The call is refused for good; the circuit does not count it as a failure.
    Refused(ChatwootError),
    /// The circuit counts a failure; wait so many milliseconds, then try again.
    Again { backoff_ms: u64 },
    /// The circuit counts a failure; there was no attempt left.
    Exhausted(ChatwootError),
}

/// Whether `e` is the error for a failed status.
pub open spec fn status_error(e: ChatwootError, code: u16, body: Seq<char>) -> bool {
    if code == 401 || code == 403 {
        e is AuthError
    } else if code == 404 {
        e is NotFound
    } else if code == 408 {
        e is Timeout
    } else if code == 429 {
        e is RateLimited
    } else {
        e matches ChatwootError::ApiError { status, body: b } && status == code && b@ == body
    }
}

fn error_of_status(code: u16, body: String) -> (r: ChatwootError)
    ensures
        status_error(r, code, body@),
{
    if code == 401 || code == 403 {
        ChatwootError::AuthError
    } else if code == 404 {
        ChatwootError::NotFound
    } else if code == 408 {
        ChatwootError::Timeout
    } else if code == 429 {
        ChatwootError::RateLimited
    } else {
        ChatwootError::ApiError { status: code, body }
    }
}

/// Whether an attempt failed in a way that the circuit counts.
pub open spec fn counts_as_failure(reply: CallReply) -> bool {
    match reply {
        CallReply::Transport { .. } => true,
        CallReply::Status { code, .. } => !success(code) && retryable(code),
    }
}

/// Whether `e` is the error of a failed attempt.
pub open spec fn reply_error(e: ChatwootError, reply: CallReply) -> bool {
    match reply {
        CallReply::Transport { timed_out, error } => if timed_out {
            e is Timeout
        } else {
            e matches ChatwootError::Network(m) && m@ == error@
        },
        CallReply::Status { code, body } => status_error(e, code, body@),
    }
}

/// Whether `step` follows from a reply to attempt number `attempt`.
pub open spec fn step_after(step: RetryStep, attempt: u32, reply: CallReply) -> bool {
    match step {
        RetryStep::Success => reply is Status && success(reply->code),
        RetryStep::Refused(e) => reply is Status && !success(reply->code) && !counts_as_failure(
            reply,
        ) && reply_error(e, reply),
        RetryStep::Again { backoff_ms } => counts_as_failure(reply) && attempt + 1 < MAX_ATTEMPTS
            && backoff_ms == BACKOFF_MS@[attempt as int],
        RetryStep::Exhausted(e) => counts_as_failure(reply) && attempt + 1 == MAX_ATTEMPTS
            && reply_error(e, reply),
    }
}

/// Whether `step` follows from a reply, and the circuit went from `before` to
/// `after` by it.
pub open spec fn replied(
    step: RetryStep,
    attempt: u32,
    reply: CallReply,
    now_ms: u64,
    before: CircuitState,
    after: CircuitState,
) -> bool {
    &&& step_after(step, attempt, reply)
    &&& after == (match step {
        RetryStep::Success => CircuitState::Closed { failures: 0 },
        RetryStep::Refused(_) => after_refusal(before, now_ms),
        _ => after_failure(before, now_ms),
    })
}

/// What to do after attempt number `attempt`, counted from 0.
pub fn after_attempt(attempt: u32, reply: CallReply) -> (r: RetryStep)
    requires
        attempt < MAX_ATTEMPTS,
    ensures
        step_after(r, attempt, reply),
{
    match reply {
        CallReply::Transport { timed_out, error } => {
            if attempt + 1 < MAX_ATTEMPTS {
                RetryStep::Again { backoff_ms: BACKOFF_MS[attempt as usize] }
            } else if timed_out {
                RetryStep::Exhausted(ChatwootError::Timeout)
            } else {
                RetryStep::Exhausted(ChatwootError::Network(error))
            }
        },
        CallReply::Status { code, body } => {
            if 200 <= code && code < 300 {
                RetryStep::Success
            } else if code == 408 || code == 429 || code >= 500 {
                if attempt + 1 < MAX_ATTEMPTS {
                    RetryStep::Again { backoff_ms: BACKOFF_MS[attempt as usize] }
                } else {
                    RetryStep::Exhausted(error_of_status(code, body))
                }
            } else {
                RetryStep::Refused(error_of_status(code, body))
            }
        },
    }
}

/// Notes an attempt in the circuit and says what to do next.
pub fn on_reply(circuit: &mut CircuitState, attempt: u32, reply: CallReply, now_ms: u64) -> (r:
    RetryStep)
    requires
        circuit_wf(*old(circuit)),
        attempt < MAX_ATTEMPTS,
        now_ms <= u64::MAX - OPEN_DURATION_MS,
    ensures
        circuit_wf(*final(circuit)),
        replied(r, attempt, reply, now_ms, *old(circuit), *final(circuit)),
{
    let step = after_attempt(attempt, reply);
    match &step {
        RetryStep::Success => circuit.on_success(),
        RetryStep::Refused(_) => circuit.on_refusal(now_ms),
        RetryStep::Again { backoff_ms: _ } => circuit.on_failure(now_ms),
        RetryStep::Exhausted(_) => circuit.on_failure(now_ms),
    }
    step
}

// ---------------------------------------------------------------------------
// Laws
// ---------------------------------------------------------------------------

/// The state after failures at the given times.
pub open spec fn after_failures(s: CircuitState, times: Seq<u64>) -> CircuitState
    decreases times.len(),
{
    if times.len() == 0 {
        s
    } else {
        after_failure(after_failures(s, times.drop_last()), times.last())
    }
}

/// A fresh circuit opens at the fifth failure in a row and not before; further
/// failures do not prolong it.
pub proof fn law_circuit_opens_at_the_fifth_failure(times: Seq<u64>)
    ensures
        times.len() < 5 ==> after_failures(CircuitState::Closed { failures: 0 }, times)
            == (CircuitState::Closed { failures: times.len() as u32 }),
        times.len() >= 5 ==> after_failures(CircuitState::Closed { failures: 0 }, times)
            == (CircuitState::Open { until_ms: (times[4] + OPEN_DURATION_MS) as u64 }),
    decreases times.len(),
{
    if times.len() > 0 {
        law_circuit_opens_at_the_fifth_failure(times.drop_last());
    }
}

/// An open circuit refuses every call for a minute, then is half open.
pub proof fn law_open_circuit_refuses_for_a_minute(opened_ms: u64, now_ms: u64)
    requires
        opened_ms <= u64::MAX - OPEN_DURATION_MS,
        now_ms <= u64::MAX - OPEN_DURATION_MS,
    ensures
        ({
            let open = CircuitState::Open { until_ms: (opened_ms + OPEN_DURATION_MS) as u64 };
            &&& now_ms < opened_ms + OPEN_DURATION_MS ==> refuses(open, now_ms)
            &&& now_ms >= opened_ms + OPEN_DURATION_MS ==> !refuses(open, now_ms)
                && let_through(open, now_ms) is HalfOpen && refuses(
                after_failure(let_through(open, now_ms), now_ms),
                now_ms,
            )
        }),
{
}

/// A half-open circuit gives one attempt: once the time is over the first check
/// passes, and every later one is refused, whenever it comes, until it is known
/// what came of the attempt.
pub proof fn law_half_open_gives_one_attempt(until_ms: u64, now_ms: u64, later_ms: u64)
    requires
        until_ms <= now_ms,
    ensures
        ({
            let open = CircuitState::Open { until_ms };
            let tried = let_through(open, now_ms);
            &&& !refuses(open, now_ms)
            &&& refuses(tried, later_ms)
            &&& let_through(tried, later_ms) == tried
        }),
{
}

/// What comes of the one attempt: where it fails, the circuit is open for
/// another minute; where it works, the circuit is closed; where it is refused
/// for good, the next call tries.
pub proof fn law_the_attempt_decides(
    step: RetryStep,
    attempt: u32,
    reply: CallReply,
    now_ms: u64,
    after: CircuitState,
    later_ms: u64,
)
    requires
        replied(step, attempt, reply, now_ms, CircuitState::HalfOpen, after),
        now_ms <= u64::MAX - OPEN_DURATION_MS,
        now_ms <= later_ms,
    ensures
        counts_as_failure(reply) ==> refuses(after, later_ms) == (later_ms < now_ms
            + OPEN_DURATION_MS),
        step is Success ==> after == (CircuitState::Closed { failures: 0 }),
        step is Refused ==> !refuses(after, later_ms) && let_through(after, later_ms) is HalfOpen,
{
}

/// A call is tried three times at most: the attempt after which another is due
/// is the first or the second.
pub proof fn law_at_most_three_attempts(attempt: u32)
    requires
        attempt + 1 < MAX_ATTEMPTS,
    ensures
        attempt == 0 || attempt == 1,
        BACKOFF_MS@[attempt as int] == if attempt == 0 {
            1000u64
        } else {
            3000u64
        },
{
}

/// An error of the caller is neither tried again nor held against the help
/// desk.
pub proof fn law_client_errors_do_not_count(
    step: RetryStep,
    attempt: u32,
    code: u16,
    body: String,
    now_ms: u64,
    failures: u32,
    after: CircuitState,
)
    requires
        400 <= code < 500,
        code != 408,
        code != 429,
        replied(
            step,
            attempt,
            CallReply::Status { code, body },
            now_ms,
            CircuitState::Closed { failures },
            after,
        ),
    ensures
        step is Refused,
        after == (CircuitState::Closed { failures }),
{
}

/// A call is tried again where the help desk may recover: it gave no reply, it
/// ran out of time, it was asked too often, or it failed itself. The first wait
/// is a second, the second one three; after the third attempt the call fails.
pub proof fn law_what_is_tried_again(attempt: u32, reply: CallReply, r: RetryStep)
    requires
        attempt < 3,
        call_ensures(after_attempt, (attempt, reply), r),
    ensures
        r is Success <==> (reply matches CallReply::Status { code, body: _ } && 200 <= code < 300),
        r is Again || r is Exhausted <==> (reply is Transport || (reply matches CallReply::Status {
            code,
            body: _,
        } && (code == 408 || code == 429 || code >= 500))),
        r is Again ==> attempt < 2,
        r is Exhausted ==> attempt == 2,
        r matches RetryStep::Again { backoff_ms } ==> (attempt == 0 ==> backoff_ms == 1000) && (
        attempt == 1 ==> backoff_ms == 3000),
{
}

/// The error of a call that failed for good says why: the credential, what was
/// asked for, the time, too many calls, or the status and the words of the help
/// desk.
pub proof fn law_errors_say_why(attempt: u32, reply: CallReply, r: RetryStep, e: ChatwootError)
    requires
        attempt < 3,
        call_ensures(after_attempt, (attempt, reply), r),
        r == RetryStep::Refused(e) || r == RetryStep::Exhausted(e),
    ensures
        reply matches CallReply::Status { code, body } ==> {
            &&& e is AuthError <==> code == 401 || code == 403
            &&& e is NotFound <==> code == 404
            &&& e is Timeout <==> code == 408
            &&& e is RateLimited <==> code == 429
            &&& e matches ChatwootError::ApiError { status, body: said } ==> status == code
                && said@ == body@
            &&& !(e is CircuitOpen) && !(e is Network) && !(e is Serde)
        },
        reply matches CallReply::Transport { timed_out, error } ==> {
            &&& timed_out <==> e is Timeout
            &&& !timed_out <==> e is Network
            &&& e matches ChatwootError::Network(m) ==> m@ == error@
        },
{
}

/// A fresh circuit is closed and lets every call through.
pub proof fn law_a_fresh_circuit_is_closed(s: CircuitState, now_ms: u64)
    requires
        call_ensures(CircuitState::default, (), s),
    ensures
        !refuses(s, now_ms),
        s == (CircuitState::Closed { failures: 0 }),
{
}

/// A closed circuit lets every call through and stays as it is. An open one
/// refuses every call until its time is over; the first call after that passes,
/// and while it tries the others are refused.
pub proof fn law_who_is_let_through(
    c: &mut CircuitState,
    now_ms: u64,
    r: Result<(), ChatwootError>,
)
    requires
        call_ensures(CircuitState::check_circuit, (c, now_ms), r),
    ensures
        *old(c) is Closed ==> r is Ok && *final(c) == *old(c),
        *old(c) is HalfOpen ==> r is Err && *final(c) == *old(c),
        *old(c) matches CircuitState::Open { until_ms } ==> {
            &&& now_ms < until_ms ==> r is Err && *final(c) == *old(c)
            &&& now_ms >= until_ms ==> r is Ok && *final(c) is HalfOpen
        },
        r matches Err(e) ==> e is CircuitOpen,
{
}

/// The fifth failure in a row opens a closed circuit for a minute; fewer are only
/// counted. A failed attempt of a half-open circuit opens it for another minute,
/// and a circuit that is open stays so for as long as it was to.
pub proof fn law_what_a_failure_does(c: &mut CircuitState, now_ms: u64)
    requires
        now_ms <= u64::MAX - 60000,
        call_ensures(CircuitState::on_failure, (c, now_ms), ()),
    ensures
        *old(c) matches CircuitState::Closed { failures } ==> {
            &&& failures < 4 ==> *final(c) == (CircuitState::Closed {
                failures: (failures + 1) as u32,
            })
            &&& failures == 4 ==> *final(c) == (CircuitState::Open {
                until_ms: (now_ms + 60000) as u64,
            })
        },
        *old(c) is HalfOpen ==> *final(c) == (CircuitState::Open {
            until_ms: (now_ms + 60000) as u64,
        }),
        *old(c) is Open ==> *final(c) == *old(c),
{
}

/// A success closes the circuit and forgets all failures. A call that is refused
/// for good says nothing of the help desk: only where it was the one that tried
/// does the next one try at once.
pub proof fn law_what_a_success_and_a_refusal_do(
    c: &mut CircuitState,
    d: &mut CircuitState,
    now_ms: u64,
)
    requires
        call_ensures(CircuitState::on_success, (c,), ()),
        call_ensures(CircuitState::on_refusal, (d, now_ms), ()),
    ensures
        *final(c) == (CircuitState::Closed { failures: 0 }),
        *old(d) is HalfOpen ==> *final(d) == (CircuitState::Open { until_ms: now_ms }),
        !(*old(d) is HalfOpen) ==> *final(d) == *old(d),
{
}

/// A reply moves the circuit as what came of it does: a success as a success, a
/// failure as a failure, a refusal as a refusal.
pub proof fn law_replies_move_the_circuit(
    c: &mut CircuitState,
    failing: &mut CircuitState,
    refused: &mut CircuitState,
    attempt: u32,
    reply: CallReply,
    now_ms: u64,
    r: RetryStep,
)
    requires
        *old(c) == *old(failing),
        *old(c) == *old(refused),
        attempt < 3,
        now_ms <= u64::MAX - 60000,
        call_ensures(on_reply, (c, attempt, reply, now_ms), r),
        call_ensures(CircuitState::on_failure, (failing, now_ms), ()),
        call_ensures(CircuitState::on_refusal, (refused, now_ms), ()),
    ensures
        r is Success ==> *final(c) == (CircuitState::Closed { failures: 0 }),
        r is Again || r is Exhausted ==> *final(c) == *final(failing),
        r is Refused ==> *final(c) == *final(refused),
        r is Success <==> (reply matches CallReply::Status { code, body: _ } && 200 <= code < 300),
        reply is Transport ==> r is Again || r is Exhausted,
{
}

/// Each error is shown by its kind, with what is known of it.
pub proof fn law_call_errors_are_shown_by_kind(e: ChatwootError, r: String)
    requires
        call_ensures(ChatwootError::to_string, (&e,), r),
    ensures
        e matches ChatwootError::ApiError { status, body } ==> r@ == "api error: "@ + decimal(
            status as nat,
        ) + " "@ + body@,
        e is NotFound ==> r@ == "not found"@,
        e is AuthError ==> r@ == "auth error"@,
        e is RateLimited ==> r@ == "rate limited"@,
        e is Timeout ==> r@ == "timeout"@,
        e is CircuitOpen ==> r@ == "circuit open"@,
        e matches ChatwootError::Network(m) ==> r@ == "network error: "@ + m@,
        e matches ChatwootError::Serde(m) ==> r@ == "serialization: "@ + m@,
{
}

} // verus!
