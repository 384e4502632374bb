//! Jobs of the queue.
use crate::api::intake_job;
use crate::json::{i64_in, lemma_object, member, members, string_in, Json, JsonValue};
use crate::store::redis::member_id;
use crate::text;
use crate::text::{int_text, opt_text};
use crate::worker::state::WorkerError;
use vstd::prelude::*;

verus! {

/// How long the consumer waits for a job, in seconds.
pub const POP_TIMEOUT_SECS: u64 = 5;

/// How many consumers run.
pub const WORKERS: u8 = 2;

/// A run to do: the conversation, and why.
#[derive(Debug, Clone)]
pub struct AgentRunJob {
    pub conversation_id: i64,
    pub reason: Option<String>,
    pub trace_id: Option<String>,
}

impl AgentRunJob {
    /// Why the run is done; an unnamed job comes from the debounce.
    pub fn trigger_reason(&self) -> (r: String)
        ensures
            r@ == (match self.reason {
                Some(s) => s@,
                None => "debounce_expired"@,
            }),
    {
        match &self.reason {
            Some(s) => s.clone(),
            None => "debounce_expired".to_string(),
        }
    }
}

/// The error for a job that cannot be read.
pub fn invalid_job(error: &str) -> (r: WorkerError)
    ensures
        r matches WorkerError::Io(m) && m@ == "invalid job payload: "@ + error@,
{
    WorkerError::Io("invalid job payload: ".to_string().concat(error))
}

/// The conversation that a job names: a number, or the text of one as the
/// sweeper of the debounce set writes it.
pub open spec fn job_conversation(j: Json) -> Option<int> {
    match member(j, "conversation_id"@) {
        Some(Json::Str(s)) => member_id(s),
        v => i64_in(v),
    }
}

/// Whether an optional text of a job can be read: it is missing, null or a
/// text.
pub open spec fn optional_text(j: Json, key: Seq<char>) -> bool {
    match member(j, key) {
        Some(v) => v is Null || v is Str,
        None => true,
    }
}

/// What is wrong with a job, if anything.
pub open spec fn job_fault(j: Json) -> Option<Seq<char>> {
    if !(j is Object) {
        Some("expected an object"@)
    } else if member(j, "conversation_id"@) is None {
        Some("missing field `conversation_id`"@)
    } else if job_conversation(j) is None {
        Some("invalid `conversation_id`"@)
    } else if !optional_text(j, "reason"@) {
        Some("invalid `reason`"@)
    } else if !optional_text(j, "trace_id"@) {
        Some("invalid `trace_id`"@)
    } else {
        None
    }
}

fn read_text(j: &JsonValue, key: &str) -> (r: Result<Option<String>, ()>)
    ensures
        match r {
            Ok(s) => optional_text(j@, key@) && opt_text(s) == string_in(member(j@, key@)),
            Err(_) => !optional_text(j@, key@),
        },
{
    match j.get(key) {
        Some(JsonValue::Null) => Ok(None),
        Some(JsonValue::Str(s)) => Ok(Some(s.clone())),
        Some(_) => Err(()),
        None => Ok(None),
    }
}

/// Reads a job of the queue.
pub fn read_job(j: &JsonValue) -> (r: Result<AgentRunJob, WorkerError>)
    ensures
        match r {
            Ok(job) => job_fault(j@) is None && job_conversation(j@) == Some(
                job.conversation_id as int,
            ) && opt_text(job.reason) == string_in(member(j@, "reason"@)) && opt_text(
                job.trace_id,
            ) == string_in(member(j@, "trace_id"@)),
            Err(e) => job_fault(j@) is Some && e is Io && e->Io_0@ == "invalid job payload: "@
                + job_fault(j@)->Some_0,
        },
{
    match j {
        JsonValue::Object(_) => {},
        _ => return Err(invalid_job("expected an object")),
    }
    let id = match j.get("conversation_id") {
        Some(JsonValue::Str(s)) => text::parse_i64(s.as_str()),
        Some(v) => v.as_i64(),
        None => return Err(invalid_job("missing field `conversation_id`")),
    };
    let conversation_id = match id {
        Some(n) => n,
        None => return Err(invalid_job("invalid `conversation_id`")),
    };
    let reason = match read_text(j, "reason") {
        Ok(s) => s,
        Err(_) => return Err(invalid_job("invalid `reason`")),
    };
    let trace_id = match read_text(j, "trace_id") {
        Ok(s) => s,
        Err(_) => return Err(invalid_job("invalid `trace_id`")),
    };
    Ok(AgentRunJob { conversation_id, reason, trace_id })
}

// ---------------------------------------------------------------------------
// The sweeper of the debounce set
// ---------------------------------------------------------------------------

/// How often the debounce set is swept, in milliseconds.
pub const SWEEP_TICK_MS: u64 = 250;

/// How many conversations one sweep takes.
pub const SWEEP_LIMIT: u64 = 100;

/// The job for a conversation that came out of the debounce set; `None` where
/// another sweeper had removed it first.
pub fn sweep_job(conv_id: String, removed: i64) -> (r: Option<JsonValue>)
    ensures
        match r {
            Some(j) => removed != 0 && j@ == Json::Object(
                seq![("conversation_id"@, Json::Str(conv_id@))],
            ),
            None => removed == 0,
        },
{
    if removed == 0 {
        return None;
    }
    let mut m: Vec<(String, JsonValue)> = Vec::new();
    let ghost id = conv_id@;
    m.push(("conversation_id".to_string(), JsonValue::Str(conv_id)));
    proof {
        lemma_object(m);
        assert(members(m@) =~= seq![("conversation_id"@, Json::Str(id))]);
    }
    Some(JsonValue::Object(m))
}

// ---------------------------------------------------------------------------
// Laws
// ---------------------------------------------------------------------------

/// A conversation that went into the debounce set comes back out of the queue:
/// the sweeper's job names it.
pub proof fn law_swept_jobs_are_read(conv_id: i64)
    ensures
        job_fault(
            Json::Object(seq![("conversation_id"@, Json::Str(int_text(conv_id as int)))]),
        ) is None,
        job_conversation(
            Json::Object(seq![("conversation_id"@, Json::Str(int_text(conv_id as int)))]),
        ) == Some(conv_id as int),
{
    text::law_numbers_read_back(conv_id as int);
    reveal_strlit("conversation_id");
    reveal_strlit("reason");
    reveal_strlit("trace_id");
    assert("conversation_id"@.len() == 15 && "reason"@.len() == 6 && "trace_id"@.len() == 8);
    reveal_with_fuel(crate::json::first_member, 2);
}

/// A job of the webhook intake is read back: conversation and reason.
pub proof fn law_intake_jobs_are_read(conv_id: i64, account_id: i64, reason: Seq<char>, now: i64)
    ensures
        job_fault(intake_job(conv_id, account_id, reason, now)) is None,
        job_conversation(intake_job(conv_id, account_id, reason, now)) == Some(conv_id as int),
        string_in(member(intake_job(conv_id, account_id, reason, now), "reason"@)) == Some(reason),
{
    reveal_strlit("conversation_id");
    reveal_strlit("account_id");
    reveal_strlit("reason");
    reveal_strlit("enqueued_at_ms");
    reveal_strlit("trace_id");
    assert("conversation_id"@.len() == 15 && "reason"@.len() == 6 && "trace_id"@.len() == 8);
    assert("account_id"@.len() == 10 && "enqueued_at_ms"@.len() == 14);
    reveal_with_fuel(crate::json::first_member, 5);
    let m = intake_job(conv_id, account_id, reason, now)->Object_0;
    let m1 = m.drop_first();
    let m2 = m1.drop_first();
    let m3 = m2.drop_first();
    assert(m1[0] == m[1] && m2[0] == m[2] && m3[0] == m[3]);
}

/// A conversation that the sweeper took out of the debounce set is run: the job
/// that it writes is read as a run of that conversation, for the reason of the
/// debounce. Of two sweepers only the one that removed it writes the job.
pub proof fn law_swept_conversations_are_run(
    conv_id: i64,
    name: String,
    removed: i64,
    job: Option<JsonValue>,
    read: Result<AgentRunJob, WorkerError>,
)
    requires
        name@ == int_text(conv_id as int),
        call_ensures(sweep_job, (name, removed), job),
        job matches Some(j) ==> call_ensures(read_job, (&j,), read),
    ensures
        job is Some <==> removed != 0,
        job is Some ==> (read matches Ok(x) && x.conversation_id == conv_id && x.reason is None
            && x.trace_id is None),
{
    if let Some(j) = job {
        law_swept_jobs_are_read(conv_id);
        reveal_strlit("conversation_id");
        reveal_strlit("reason");
        reveal_strlit("trace_id");
        assert("conversation_id"@.len() == 15 && "reason"@.len() == 6 && "trace_id"@.len() == 8);
        reveal_with_fuel(crate::json::first_member, 2);
        assert(member(j@, "reason"@) is None);
        assert(member(j@, "trace_id"@) is None);
    }
}

/// A job names its conversation by a number or by the text of one; without it
/// there is no run.
pub proof fn law_jobs_name_their_conversation(
    j: JsonValue,
    r: Result<AgentRunJob, WorkerError>,
)
    requires
        call_ensures(read_job, (&j,), r),
    ensures
        !(j@ is Object) || member(j@, "conversation_id"@) is None ==> r is Err,
        r matches Ok(x) ==> (member(j@, "conversation_id"@) == Some(
            Json::Int(x.conversation_id as int),
        ) || (string_in(member(j@, "conversation_id"@)) matches Some(s) && text::parsed_int(s)
            == Some(x.conversation_id as int))),
        r matches Ok(x) ==> (x.reason matches Some(s) ==> member(j@, "reason"@) == Some(
            Json::Str(s@),
        )),
        r matches Ok(x) ==> (x.trace_id matches Some(s) ==> member(j@, "trace_id"@) == Some(
            Json::Str(s@),
        )),
        j@ is Object && (member(j@, "conversation_id"@) matches Some(v) && (v matches Json::Int(n)
            && i64::MIN <= n <= i64::MAX)) && member(j@, "reason"@) is None && member(
            j@,
            "trace_id"@,
        ) is None ==> r is Ok,
{
}

/// A job that gives no reason comes from the debounce; any other keeps its own.
pub proof fn law_runs_know_their_reason(job: AgentRunJob, r: String)
    requires
        call_ensures(AgentRunJob::trigger_reason, (&job,), r),
    ensures
        job.reason is None ==> r@ == "debounce_expired"@,
        job.reason matches Some(s) ==> r@ == s@,
{
}

/// A job that cannot be read is refused, and the refusal says what is wrong with
/// it.
pub proof fn law_refused_jobs_say_why(j: JsonValue, r: Result<AgentRunJob, WorkerError>)
    requires
        call_ensures(read_job, (&j,), r),
    ensures
        !(j@ is Object) ==> (r matches Err(WorkerError::Io(m)) && m@ == "invalid job payload: "@
            + "expected an object"@),
        j@ is Object && member(j@, "conversation_id"@) is None ==> (r matches Err(
            WorkerError::Io(m),
        ) && m@ == "invalid job payload: "@ + "missing field `conversation_id`"@),
        member(j@, "conversation_id"@) matches Some(v) ==> (v is Null || v is Bool || v is Float
            || v is Array || v is Object ==> (r matches Err(WorkerError::Io(m)) && m@
            == "invalid job payload: "@ + "invalid `conversation_id`"@)),
        r matches Err(e) ==> e is Io,
{
}

} // verus!
