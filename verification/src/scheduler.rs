//! The scheduler: timers and their escalation, business hours, reconciliation
//! with the help desk and the purge of old data.
use vstd::prelude::*;

pub mod desk;
pub mod hours;
pub mod notice;
pub mod reconcile;
pub mod sla;
pub mod timer;

verus! {

/// How often the timers are looked at, in seconds.
pub const CHECK_EVERY_SECS: u64 = 30;

/// How often the help desk is compared with what is kept, in seconds.
pub const RECONCILE_EVERY_SECS: u64 = 300;

/// How often old data is purged, in seconds.
pub const PURGE_EVERY_SECS: u64 = 86400;

/// The tables that are purged, each with its statement; `$1` is the cutoff.
pub open spec fn purged_tables() -> Seq<(Seq<char>, Seq<char>)> {
    seq![
        ("message_log"@, "DELETE FROM message_log WHERE created_at < $1"@),
        ("agent_run"@, "DELETE FROM agent_run WHERE started_at < $1"@),
        ("notification_log"@, "DELETE FROM notification_log WHERE created_at < $1"@),
    ]
}

/// The tables that are purged, each with its statement; `$1` is the cutoff.
pub fn purge_statements() -> (r: Vec<(&'static str, &'static str)>)
    ensures
        r@.map_values(|p: (&'static str, &'static str)| (p.0@, p.1@)) == purged_tables(),
{
    let r: Vec<(&'static str, &'static str)> = vec![
        ("message_log", "DELETE FROM message_log WHERE created_at < $1"),
        ("agent_run", "DELETE FROM agent_run WHERE started_at < $1"),
        ("notification_log", "DELETE FROM notification_log WHERE created_at < $1"),
    ];
    assert(r@.map_values(|p: (&'static str, &'static str)| (p.0@, p.1@)) =~= purged_tables());
    r
}

/// Data from before this time is purged. Times are in Unix seconds.
pub fn purge_cutoff(now_secs: i64, retention_days: u32) -> (r: i64)
    requires
        now_secs - retention_days * 86400 >= i64::MIN,
    ensures
        r == now_secs - retention_days * 86400,
{
    now_secs - retention_days as i64 * 86400
}

/// The audit log is never purged.
pub proof fn law_audit_log_is_kept(i: int)
    requires
        0 <= i < purged_tables().len(),
    ensures
        purged_tables()[i].0 != "audit_log"@,
{
    reveal_strlit("message_log");
    reveal_strlit("agent_run");
    reveal_strlit("notification_log");
    reveal_strlit("audit_log");
    assert("message_log"@.len() == 11 && "agent_run"@.len() == 9 && "audit_log"@.len() == 9);
    assert("notification_log"@.len() == 16);
    assert("agent_run"@[1] == 'g' && "audit_log"@[1] == 'u');
}

/// What is kept is as old as the retention allows, to the second: with no
/// retention nothing from before this moment is kept, and each day more keeps a
/// day more.
pub proof fn law_data_is_kept_for_its_days(now_secs: i64, days: u32, a: i64, b: i64)
    requires
        days < u32::MAX,
        now_secs - (days + 1) * 86400 >= i64::MIN,
        call_ensures(purge_cutoff, (now_secs, days), a),
        call_ensures(purge_cutoff, (now_secs, (days + 1) as u32), b),
    ensures
        days == 0 ==> a == now_secs,
        a - b == 24 * 3600,
        a <= now_secs,
{
}

/// The logs of messages, runs and notifications are purged, each by a statement
/// of its own, and nothing else is.
pub proof fn law_what_is_purged(r: Vec<(&'static str, &'static str)>, i: int)
    requires
        call_ensures(purge_statements, (), r),
        0 <= i < r@.len(),
    ensures
        r@.len() == 3,
        r@[i].0@ == "message_log"@ || r@[i].0@ == "agent_run"@ || r@[i].0@ == "notification_log"@,
        r@[i].0@ == "message_log"@ ==> r@[i].1@
            == "DELETE FROM message_log WHERE created_at < $1"@,
        r@[i].0@ == "agent_run"@ ==> r@[i].1@ == "DELETE FROM agent_run WHERE started_at < $1"@,
        r@[i].0@ == "notification_log"@ ==> r@[i].1@
            == "DELETE FROM notification_log WHERE created_at < $1"@,
        forall|j: int| 0 <= j < r@.len() && j != i ==> (#[trigger] r@[j]).0@ != r@[i].0@,
{
    reveal_strlit("message_log");
    reveal_strlit("agent_run");
    reveal_strlit("notification_log");
    assert("message_log"@.len() == 11 && "agent_run"@.len() == 9);
    assert("notification_log"@.len() == 16);
    let p = r@.map_values(|p: (&'static str, &'static str)| (p.0@, p.1@));
    assert(p.len() == r@.len());
    assert(forall|k: int| 0 <= k < r@.len() ==> p[k].0 == (#[trigger] r@[k]).0@ && p[k].1 == r@[k].1@);
}

} // verus!
