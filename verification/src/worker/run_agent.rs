//! Running the agent: the daily budget first, then the primary provider, then
//! the fallback once.
use crate::error::AgentError;
use crate::json::F64Bits;
use crate::model::agent::AgentResponse;
use vstd::prelude::*;

verus! {

/// Whether the bits are those of no number.
pub open spec fn is_nan(f: F64Bits) -> bool {
    f.bits % 0x8000000000000000 > 0x7FF0000000000000
}

/// An integer by which doubles are ordered: the bits of the magnitude, negative
/// where the sign is. Both zeros are 0.
pub open spec fn order_key(f: F64Bits) -> int {
    if f.bits >= 0x8000000000000000 {
        -((f.bits % 0x8000000000000000) as int)
    } else {
        f.bits as int
    }
}

/// `a >= b` for doubles: false where one is not a number.
pub open spec fn f64_ge(a: F64Bits, b: F64Bits) -> bool {
    !is_nan(a) && !is_nan(b) && order_key(a) >= order_key(b)
}

fn at_least(a: F64Bits, b: F64Bits) -> (r: bool)
    ensures
        r == f64_ge(a, b),
{
    let ma: u64 = a.bits % 0x8000000000000000;
    let mb: u64 = b.bits % 0x8000000000000000;
    if ma > 0x7FF0000000000000 || mb > 0x7FF0000000000000 {
        return false;
    }
    let na = a.bits >= 0x8000000000000000;
    let nb = b.bits >= 0x8000000000000000;
    if na && nb {
        ma <= mb
    } else if na {
        ma == 0 && mb == 0
    } else if nb {
        true
    } else {
        ma >= mb
    }
}

/// What to do before the agent runs.
#[derive(Debug)]
pub enum AgentStep {
    /// The budget is spent: no agent runs.
    Refuse(AgentError),
    RunPrimary,
}

/// What to do before the agent runs. `spent` is what was spent today, where it
/// could be read; an unknown amount stops nothing.
pub fn before_run(spent: Option<F64Bits>, budget: F64Bits) -> (r: AgentStep)
    ensures
        match r {
            AgentStep::Refuse(e) => e is BudgetExceeded && spent is Some && f64_ge(
                spent->Some_0,
                budget,
            ),
            AgentStep::RunPrimary => spent is None || !f64_ge(spent->Some_0, budget),
        },
{
    match spent {
        Some(s) => if at_least(s, budget) {
            AgentStep::Refuse(AgentError::BudgetExceeded)
        } else {
            AgentStep::RunPrimary
        },
        None => AgentStep::RunPrimary,
    }
}

/// The result of a run: the primary's answer, else that of the fallback, which
/// runs only where the primary failed.
pub fn run_with_fallback(
    primary: Result<AgentResponse, AgentError>,
    fallback: Option<Result<AgentResponse, AgentError>>,
) -> (r: Result<AgentResponse, AgentError>)
    ensures
        r == (if primary is Err && fallback is Some {
            fallback->Some_0
        } else {
            primary
        }),
{
    match fallback {
        Some(f) => match primary {
            Ok(x) => Ok(x),
            Err(_) => f,
        },
        None => primary,
    }
}

/// `true` where the error may go away by itself.
pub fn is_transient(err: &AgentError) -> (r: bool)
    ensures
        r == (err is Timeout || err is ProviderError || err is RateLimited),
{
    matches!(
        err,
        AgentError::Timeout | AgentError::ProviderError(_) | AgentError::RateLimited
    )
}

/// The name under which an error is kept with its run.
pub fn agent_err_kind(e: &AgentError) -> (r: &'static str)
    ensures
        r@ == (match *e {
            AgentError::Timeout => "timeout"@,
            AgentError::RateLimited => "rate_limited"@,
            AgentError::AuthError => "auth"@,
            AgentError::BudgetExceeded => "budget_exceeded"@,
            AgentError::ProviderError(_) => "provider_error"@,
            AgentError::InvalidResponse(_) => "invalid_response"@,
        }),
{
    match e {
        AgentError::Timeout => "timeout",
        AgentError::RateLimited => "rate_limited",
        AgentError::AuthError => "auth",
        AgentError::BudgetExceeded => "budget_exceeded",
        AgentError::ProviderError(_) => "provider_error",
        AgentError::InvalidResponse(_) => "invalid_response",
    }
}

// ---------------------------------------------------------------------------
// Laws
// ---------------------------------------------------------------------------

/// The daily budget stops a run once it is spent, and not before. Of two amounts
/// that are not negative the one with the larger bits is the larger; an amount
/// that could not be read stops nothing.
pub proof fn law_a_spent_budget_stops_the_run(
    spent: Option<F64Bits>,
    budget: F64Bits,
    r: AgentStep,
)
    requires
        call_ensures(before_run, (spent, budget), r),
    ensures
        spent is None ==> r is RunPrimary,
        spent matches Some(s) ==> (s.bits <= 0x7FF0000000000000 && budget.bits
            <= 0x7FF0000000000000 ==> (r is Refuse <==> s.bits >= budget.bits)),
        r matches AgentStep::Refuse(e) ==> e is BudgetExceeded,
{
}

/// A negative amount is below every amount that is not, and what is no number
/// stops nothing.
pub proof fn law_odd_amounts_stop_nothing(spent: F64Bits, budget: F64Bits, r: AgentStep)
    requires
        call_ensures(before_run, (Some(spent), budget), r),
    ensures
        0x8000000000000000 < spent.bits <= 0xFFF0000000000000 && budget.bits
            <= 0x7FF0000000000000 ==> r is RunPrimary,
        0x7FF0000000000000 < spent.bits < 0x8000000000000000 ==> r is RunPrimary,
        0x7FF0000000000000 < budget.bits < 0x8000000000000000 ==> r is RunPrimary,
        0xFFF0000000000000 < spent.bits || 0xFFF0000000000000 < budget.bits ==> r is RunPrimary,
{
}

/// What the primary provider answered stands; only where it failed does the
/// fallback speak for it, with its answer or its own error.
pub proof fn law_the_fallback_stands_in(
    primary: Result<AgentResponse, AgentError>,
    fallback: Option<Result<AgentResponse, AgentError>>,
    r: Result<AgentResponse, AgentError>,
)
    requires
        call_ensures(run_with_fallback, (primary, fallback), r),
    ensures
        primary is Ok || fallback is None ==> r == primary,
        primary is Err ==> (fallback matches Some(f) ==> r == f),
{
}

/// Each error is kept under a name of its own.
pub proof fn law_errors_are_kept_by_name(e: AgentError, r: &'static str)
    requires
        call_ensures(agent_err_kind, (&e,), r),
    ensures
        e is Timeout <==> r@ == "timeout"@,
        e is RateLimited <==> r@ == "rate_limited"@,
        e is AuthError <==> r@ == "auth"@,
        e is BudgetExceeded <==> r@ == "budget_exceeded"@,
        e is ProviderError <==> r@ == "provider_error"@,
        e is InvalidResponse <==> r@ == "invalid_response"@,
{
    reveal_strlit("timeout");
    reveal_strlit("rate_limited");
    reveal_strlit("auth");
    reveal_strlit("budget_exceeded");
    reveal_strlit("provider_error");
    reveal_strlit("invalid_response");
    assert("timeout"@.len() == 7 && "rate_limited"@.len() == 12 && "auth"@.len() == 4);
    assert("budget_exceeded"@.len() == 15 && "provider_error"@.len() == 14);
    assert("invalid_response"@.len() == 16);
}

/// What will not go away by itself is not worth another attempt: a wrong
/// credential, a spent budget, an answer that cannot be read.
pub proof fn law_lasting_errors_are_not_transient(e: AgentError, r: bool)
    requires
        call_ensures(is_transient, (&e,), r),
    ensures
        e is AuthError || e is BudgetExceeded || e is InvalidResponse ==> !r,
        e is Timeout || e is RateLimited || e is ProviderError ==> r,
{
}

/// Amounts below zero go the other way: of two of them the one with the larger
/// bits is the smaller. A budget below zero is always spent, and the two zeros
/// are the same amount.
pub proof fn law_amounts_below_zero(spent: F64Bits, budget: F64Bits, r: AgentStep)
    requires
        call_ensures(before_run, (Some(spent), budget), r),
    ensures
        0x8000000000000000 <= spent.bits <= 0xFFF0000000000000 && 0x8000000000000000 <= budget.bits
            <= 0xFFF0000000000000 ==> (r is Refuse <==> spent.bits <= budget.bits),
        spent.bits <= 0x7FF0000000000000 && 0x8000000000000000 <= budget.bits
            <= 0xFFF0000000000000 ==> r is Refuse,
        spent.bits == 0x8000000000000000 && budget.bits <= 0x7FF0000000000000 ==> (r is Refuse
            <==> budget.bits == 0),
{
}

} // verus!
