//! Parameters and keys of the cascaded rate limiters.
use crate::ids::{AccountId, ContactId, ConversationId};
use crate::json::F64Bits;
use crate::text;
use vstd::prelude::*;

verus! {

/// Limits of the cascade.
#[derive(Debug, Clone, Copy)]
pub struct RateLimits {
    /// Runs per conversation per minute.
    pub conv_runs_per_min: u32,
    /// Runs per contact per hour.
    pub contact_runs_per_hour: u32,
    /// Outgoing messages per conversation per hour.
    pub out_msgs_per_conv_per_hour: u32,
    /// Runs per account per minute.
    pub account_runs_per_min: u32,
    /// Runs at one time, over all conversations.
    pub max_concurrent_runs: u32,
    /// Turns of the AI in a row without a word of contact or attendant.
    pub max_consecutive_ai_turns: u8,
    /// Daily budget in US dollars.
    pub daily_budget_usd: F64Bits,
}

impl Default for RateLimits {
    fn default() -> (r: Self)
        ensures
            r.conv_runs_per_min == 6,
            r.contact_runs_per_hour == 30,
            r.out_msgs_per_conv_per_hour == 15,
            r.account_runs_per_min == 300,
            r.max_concurrent_runs == 20,
            r.max_consecutive_ai_turns == 4,
            r.daily_budget_usd.bits == 0x4039000000000000,
    {
        RateLimits {
            conv_runs_per_min: 6,
            contact_runs_per_hour: 30,
            out_msgs_per_conv_per_hour: 15,
            account_runs_per_min: 300,
            max_concurrent_runs: 20,
            max_consecutive_ai_turns: 4,
            daily_budget_usd: F64Bits { bits: 0x4039000000000000 },
        }
    }
}

impl RateLimits {
    /// Longest incoming message, in characters.
    pub const MAX_INPUT_CHARS: usize = 4000;

    /// Attachments per turn.
    pub const MAX_ATTACHMENTS_PER_TURN: u32 = 5;

    /// Size of all attachments of a turn, in bytes.
    pub const MAX_ATTACHMENT_BYTES: usize = 20971520;

    pub const SEMAPHORE_KEY: &'static str = "sem:agent";

    /// `rl:conv:{conv}`.
    pub fn conv_key(conv: ConversationId) -> (r: String)
        ensures
            r@ == "rl:conv:"@ + text::int_text(conv as int),
    {
        let mut r = "rl:conv:".to_string();
        r.append(text::i64_text(conv).as_str());
        r
    }

    /// `rl:contact:{contact}`.
    pub fn contact_key(contact: ContactId) -> (r: String)
        ensures
            r@ == "rl:contact:"@ + text::int_text(contact as int),
    {
        let mut r = "rl:contact:".to_string();
        r.append(text::i64_text(contact).as_str());
        r
    }

    /// `rl:out:{conv}`.
    pub fn out_key(conv: ConversationId) -> (r: String)
        ensures
            r@ == "rl:out:"@ + text::int_text(conv as int),
    {
        let mut r = "rl:out:".to_string();
        r.append(text::i64_text(conv).as_str());
        r
    }

    /// `rl:account:{account}`.
    pub fn account_key(account: AccountId) -> (r: String)
        ensures
            r@ == "rl:account:"@ + text::int_text(account as int),
    {
        let mut r = "rl:account:".to_string();
        r.append(text::i64_text(account).as_str());
        r
    }

    /// `budget:{day}`.
    pub fn budget_key(day_ymd: &str) -> (r: String)
        ensures
            r@ == "budget:"@ + day_ymd@,
    {
        let mut r = "budget:".to_string();
        r.append(day_ymd);
        r
    }
}

/// The keys of the limiters, as they are written, and the limits that hold where
/// none are set.
pub proof fn law_limits_and_their_keys(
    conv: ConversationId,
    contact: ContactId,
    account: AccountId,
    day: &str,
    a: String,
    b: String,
    c: String,
    d: String,
    e: String,
    limits: RateLimits,
)
    requires
        call_ensures(RateLimits::conv_key, (conv,), a),
        call_ensures(RateLimits::contact_key, (contact,), b),
        call_ensures(RateLimits::out_key, (conv,), c),
        call_ensures(RateLimits::account_key, (account,), d),
        call_ensures(RateLimits::budget_key, (day,), e),
        call_ensures(RateLimits::default, (), limits),
    ensures
        a@ == "rl:conv:"@ + text::int_text(conv as int),
        b@ == "rl:contact:"@ + text::int_text(contact as int),
        c@ == "rl:out:"@ + text::int_text(conv as int),
        d@ == "rl:account:"@ + text::int_text(account as int),
        e@ == "budget:"@ + day@,
        limits.conv_runs_per_min == 6 && limits.contact_runs_per_hour == 30,
        limits.out_msgs_per_conv_per_hour == 15 && limits.account_runs_per_min == 300,
        limits.max_concurrent_runs == 20 && limits.max_consecutive_ai_turns == 4,
        limits.daily_budget_usd.bits == 0x4039000000000000,
{
}

} // verus!
