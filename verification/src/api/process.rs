//! The order in which a webhook is dealt with.
//!
//! The work goes through fixed stages. At each one the stores say something (the
//! mark was new, the row was written, how much the buffer holds, ...), and the
//! next action follows. A store that fails ends the work with an error.
use crate::api::{
    account_event, account_event_of, account_of, buffer_meta_keys, buffer_step, buffered,
    buffered_message, content_len_of, conversation_dedup_key, duplicate_reply, event_mark,
    inbound_log, intake, intake_job, intake_of, intake_reply, intake_result, logs,
    processed_reply, refusal_reply, refusal_result, reply, run_job, run_reason, wait_ms,
    window_start, AccountEvent, BufferStep, InboundLog, Intake, BUFFER_TTL_SECS, DEDUP_TTL_SECS,
};
use crate::chatwoot::payload::AgentBotWebhookPayload;
use crate::config::BufferConfig;
use crate::json::{Json, JsonValue};
use crate::text;
use crate::text::{int_text, opt_str, opt_text};
use crate::{buffer_key, buffer_text, dedup_key, dedup_text};
use vstd::prelude::*;

verus! {

/// Where the work on a webhook of the agent bot stands.
#[derive(Debug, Clone, Copy, PartialEq, Eq, Structural)]
pub enum IntakeStage {
    /// Nothing is done yet.
    Arriving,
    /// Waits for the answer to the mark.
    Marking,
    /// Waits until the row is written.
    Logging,
    /// Waits for what the buffer holds.
    Buffering,
    /// Waits until the run is queued or put off.
    Placing,
    Answered,
}

/// What the stores say.
#[derive(Debug)]
pub enum IntakeEvent {
    Begin,
    /// Whether the mark was new; the time is in nanoseconds since the epoch.
    Marked { new: bool, now_nanos: i128 },
    Logged,
    /// Messages and bytes in the buffer, the kept start of its window, and the
    /// time in milliseconds.
    Counted { messages: i64, bytes: i64, first: Option<String>, now_ms: i64 },
    Placed,
}

/// What is written into the buffer of a conversation.
#[derive(Debug)]
pub struct BufferWrite {
    /// The message goes to the end of the list under this key.
    pub key: String,
    pub message: JsonValue,
    /// The time goes here where nothing stands yet.
    pub first_key: String,
    /// The length is added here.
    pub chars_key: String,
    pub added: i64,
    /// How long all three live, in seconds.
    pub ttl_secs: u64,
}

/// What is to be done.
#[derive(Debug)]
pub enum IntakeAction {
    /// Answer with this, counted under this label.
    Answer { body: JsonValue, result: Option<&'static str> },
    /// Set the key for this time, unless it is set.
    Mark { key: String, ttl_secs: u64 },
    Log(InboundLog),
    Buffer(BufferWrite),
    /// Put the job into the queue, and take the conversation out of the debounce
    /// set.
    Enqueue { job: JsonValue, reason: &'static str, member: String },
    /// Put the conversation into the debounce set.
    Wait { member: String, score_ms: i64 },
    /// The event does not belong to the stage.
    Ignore,
}

/// Whether an action answers with this.
pub open spec fn answers(a: IntakeAction, body: Json, result: Option<Seq<char>>) -> bool {
    a matches IntakeAction::Answer { body: b, result: r } && b@ == body && opt_str(r) == result
}

/// Whether an action writes this word into the buffer.
pub open spec fn buffers(
    a: IntakeAction,
    p: AgentBotWebhookPayload,
    msg_id: i64,
    conv: i64,
    account: i64,
) -> bool {
    &&& a matches IntakeAction::Buffer(w)
    &&& w.key@ == buffer_text(conv as int)
    &&& w.message@ == buffered(p, msg_id, account, conv)
    &&& w.first_key@ == "buf:first:"@ + int_text(conv as int)
    &&& w.chars_key@ == "buf:chars:"@ + int_text(conv as int)
    &&& w.added == content_len_of(p)
    &&& w.ttl_secs == BUFFER_TTL_SECS
}

/// Whether an action is the one that follows from what the buffer holds: a run
/// where it is full or old enough, else more waiting.
pub open spec fn places(
    a: IntakeAction,
    cfg: BufferConfig,
    conv: i64,
    account: i64,
    messages: i64,
    bytes: i64,
    first: Option<Seq<char>>,
    now_ms: i64,
) -> bool {
    let start = window_start(first, now_ms as int);
    match run_reason(messages, bytes, start, now_ms as int, cfg) {
        Some(why) => {
            &&& a matches IntakeAction::Enqueue { job, reason, member }
            &&& reason@ == why
            &&& job@ == intake_job(conv, account, why, now_ms)
            &&& member@ == int_text(conv as int)
        },
        None => {
            &&& a matches IntakeAction::Wait { member, score_ms }
            &&& member@ == int_text(conv as int)
            &&& score_ms == now_ms + wait_ms(start, now_ms as int, cfg)
        },
    }
}

/// How the work on a webhook of the agent bot goes on.
pub open spec fn intake_moves(
    p: AgentBotWebhookPayload,
    cfg: BufferConfig,
    stage: IntakeStage,
    event: IntakeEvent,
    next: IntakeStage,
    action: IntakeAction,
) -> bool {
    match intake_of(p) {
        Intake::Process { msg_id, conversation_id: conv, account_id: account } => match (
            stage,
            event,
        ) {
            (IntakeStage::Arriving, IntakeEvent::Begin) => {
                &&& next is Marking
                &&& action matches IntakeAction::Mark { key, ttl_secs }
                &&& key@ == dedup_text(account as int, msg_id as int)
                &&& ttl_secs == DEDUP_TTL_SECS
            },
            (IntakeStage::Marking, IntakeEvent::Marked { new, now_nanos }) => if new {
                &&& next is Logging
                &&& action matches IntakeAction::Log(row)
                &&& logs(row, p, msg_id, conv, now_nanos)
            } else {
                &&& next is Answered
                &&& answers(
                    action,
                    Json::Object(seq![("ok"@, Json::Bool(true)), ("duplicate"@, Json::Bool(true))]),
                    Some("duplicate"@),
                )
            },
            (IntakeStage::Logging, IntakeEvent::Logged) => next is Buffering && buffers(
                action,
                p,
                msg_id,
                conv,
                account,
            ),
            (
                IntakeStage::Buffering,
                IntakeEvent::Counted { messages, bytes, first, now_ms },
            ) => next is Placing && places(
                action,
                cfg,
                conv,
                account,
                messages,
                bytes,
                opt_text(first),
                now_ms,
            ),
            (IntakeStage::Placing, IntakeEvent::Placed) => next is Answered && answers(
                action,
                Json::Object(seq![("ok"@, Json::Bool(true))]),
                Some("processed"@),
            ),
            _ => next == stage && action is Ignore,
        },
        other => if stage is Arriving && event is Begin {
            next is Answered && answers(
                action,
                refusal_reply(other, p.event@),
                refusal_result(other),
            )
        } else {
            next == stage && action is Ignore
        },
    }
}

/// How the work on a webhook of the agent bot goes on.
pub fn process_agent_bot_payload(
    payload: &AgentBotWebhookPayload,
    cfg: BufferConfig,
    stage: IntakeStage,
    event: IntakeEvent,
) -> (r: (IntakeStage, IntakeAction))
    requires
        event matches IntakeEvent::Counted { messages: _, bytes: _, first: _, now_ms } ==> now_ms
            + (cfg.debounce_ms as i64) <= i64::MAX,
    ensures
        intake_moves(*payload, cfg, stage, event, r.0, r.1),
{
    let what = intake(payload);
    let (msg_id, conv, account): (i64, i64, i64) = match what {
        Intake::Process { msg_id, conversation_id, account_id } => (
            msg_id,
            conversation_id,
            account_id,
        ),
        _ => {
            return match (stage, event) {
                (IntakeStage::Arriving, IntakeEvent::Begin) => match intake_reply(
                    &what,
                    payload.event.as_str(),
                ) {
                    Some(body) => (
                        IntakeStage::Answered,
                        IntakeAction::Answer { body, result: intake_result(&what) },
                    ),
                    None => (stage, IntakeAction::Ignore),
                },
                _ => (stage, IntakeAction::Ignore),
            };
        },
    };
    match (stage, event) {
        (IntakeStage::Arriving, IntakeEvent::Begin) => (
            IntakeStage::Marking,
            IntakeAction::Mark { key: dedup_key(account, msg_id), ttl_secs: DEDUP_TTL_SECS },
        ),
        (IntakeStage::Marking, IntakeEvent::Marked { new, now_nanos }) => {
            if new {
                (
                    IntakeStage::Logging,
                    IntakeAction::Log(inbound_log(payload, msg_id, conv, now_nanos)),
                )
            } else {
                (
                    IntakeStage::Answered,
                    IntakeAction::Answer { body: duplicate_reply(), result: Some("duplicate") },
                )
            }
        },
        (IntakeStage::Logging, IntakeEvent::Logged) => {
            let row = inbound_log(payload, msg_id, conv, 0);
            let (first_key, chars_key) = buffer_meta_keys(conv);
            let write = BufferWrite {
                key: buffer_key(conv),
                message: buffered_message(payload, msg_id, account, conv),
                first_key,
                chars_key,
                added: row.content_len as i64,
                ttl_secs: BUFFER_TTL_SECS,
            };
            (IntakeStage::Buffering, IntakeAction::Buffer(write))
        },
        (IntakeStage::Buffering, IntakeEvent::Counted { messages, bytes, first, now_ms }) => {
            let kept = match &first {
                Some(s) => Some(s.as_str()),
                None => None,
            };
            let member = text::i64_text(conv);
            let action = match buffer_step(messages, bytes, kept, now_ms, cfg) {
                BufferStep::Run(reason) => IntakeAction::Enqueue {
                    job: run_job(conv, account, reason, now_ms),
                    reason,
                    member,
                },
                BufferStep::Wait { score_ms } => IntakeAction::Wait { member, score_ms },
            };
            (IntakeStage::Placing, action)
        },
        (IntakeStage::Placing, IntakeEvent::Placed) => (
            IntakeStage::Answered,
            IntakeAction::Answer { body: processed_reply(), result: Some("processed") },
        ),
        _ => (stage, IntakeAction::Ignore),
    }
}

// ---------------------------------------------------------------------------
// The account's webhook
// ---------------------------------------------------------------------------

/// What is to be done with a webhook of the account.
#[derive(Debug)]
pub enum AccountAction {
    Answer(JsonValue),
    /// Set the key for this time, unless it is set.
    Mark { key: String, ttl_secs: u64 },
    /// Deal with the event, then answer.
    Handle { event: AccountEvent, account_id: i64 },
}

/// What is to be done with a webhook of the account. `marked` says whether its
/// mark was new, once it was set.
pub fn process_account_payload(payload: &AgentBotWebhookPayload, marked: Option<bool>) -> (r:
    AccountAction)
    ensures
        match payload.conversation {
            None => r matches AccountAction::Answer(b) && b@ == Json::Object(
                seq![("ok"@, Json::Bool(true)), ("ignored"@, Json::Str("no_conversation"@))],
            ),
            Some(c) => match marked {
                None => r matches AccountAction::Mark { key, ttl_secs } && key@ == event_mark(
                    c.id as int,
                    payload.event@,
                    opt_text(payload.created_at),
                ) && ttl_secs == DEDUP_TTL_SECS,
                Some(false) => r matches AccountAction::Answer(b) && b@ == Json::Object(
                    seq![("ok"@, Json::Bool(true)), ("duplicate"@, Json::Bool(true))],
                ),
                Some(true) => r == AccountAction::Handle {
                    event: account_event_of(*payload),
                    account_id: account_of(*payload),
                },
            },
        },
{
    let conv_id = match &payload.conversation {
        Some(c) => c.id,
        None => {
            return AccountAction::Answer(
                reply(Some(("ignored", JsonValue::Str("no_conversation".to_string())))),
            );
        },
    };
    match marked {
        None => {
            let at = match &payload.created_at {
                Some(s) => Some(s.as_str()),
                None => None,
            };
            AccountAction::Mark {
                key: conversation_dedup_key(conv_id, payload.event.as_str(), at),
                ttl_secs: DEDUP_TTL_SECS,
            }
        },
        Some(false) => AccountAction::Answer(duplicate_reply()),
        Some(true) => AccountAction::Handle {
            event: account_event(payload),
            account_id: match &payload.account {
                Some(a) => a.id,
                None => 0,
            },
        },
    }
}

// ---------------------------------------------------------------------------
// Laws
// ---------------------------------------------------------------------------

/// A webhook that came before is answered and not dealt with again: neither log
/// nor buffer is touched.
pub proof fn law_duplicates_are_only_answered(
    p: AgentBotWebhookPayload,
    cfg: BufferConfig,
    now_nanos: i128,
    next: IntakeStage,
    action: IntakeAction,
)
    requires
        intake_of(p) is Process,
        intake_moves(
            p,
            cfg,
            IntakeStage::Marking,
            IntakeEvent::Marked { new: false, now_nanos },
            next,
            action,
        ),
    ensures
        next is Answered,
        action is Answer,
{
}

/// What is not a word of a contact touches no store.
pub proof fn law_only_words_of_contacts_touch_the_stores(
    p: AgentBotWebhookPayload,
    cfg: BufferConfig,
    stage: IntakeStage,
    event: IntakeEvent,
    next: IntakeStage,
    action: IntakeAction,
)
    requires
        intake_moves(p, cfg, stage, event, next, action),
        !(action is Answer) && !(action is Ignore),
    ensures
        intake_of(p) is Process,
{
}

/// How many stages lie ahead.
pub open spec fn ahead(s: IntakeStage) -> int {
    match s {
        IntakeStage::Arriving => 5,
        IntakeStage::Marking => 4,
        IntakeStage::Logging => 3,
        IntakeStage::Buffering => 2,
        IntakeStage::Placing => 1,
        IntakeStage::Answered => 0,
    }
}

/// Every webhook is answered, and once only: each event that belongs to its
/// stage brings the answer closer, and the answer is the last action.
pub proof fn law_every_webhook_is_answered_once(
    p: AgentBotWebhookPayload,
    cfg: BufferConfig,
    stage: IntakeStage,
    event: IntakeEvent,
    next: IntakeStage,
    action: IntakeAction,
)
    requires
        intake_moves(p, cfg, stage, event, next, action),
    ensures
        action is Ignore || 0 <= ahead(next) < ahead(stage),
        action is Answer <==> next is Answered && !(stage is Answered),
        stage is Answered ==> action is Ignore,
{
}

/// A word of a contact goes all the way: it is marked as seen for a day, logged,
/// put into the buffer of its conversation, and answered once its run is placed.
pub proof fn law_words_go_all_the_way(
    p: AgentBotWebhookPayload,
    cfg: BufferConfig,
    msg_id: i64,
    conv: i64,
    account: i64,
    now_nanos: i128,
    mark: String,
    buffer: String,
    meta: (String, String),
    begun: (IntakeStage, IntakeAction),
    marked: (IntakeStage, IntakeAction),
    logged: (IntakeStage, IntakeAction),
    placed: (IntakeStage, IntakeAction),
)
    requires
        call_ensures(
            intake,
            (&p,),
            Intake::Process { msg_id, conversation_id: conv, account_id: account },
        ),
        call_ensures(dedup_key, (account, msg_id), mark),
        call_ensures(buffer_key, (conv,), buffer),
        call_ensures(buffer_meta_keys, (conv,), meta),
        call_ensures(
            process_agent_bot_payload,
            (&p, cfg, IntakeStage::Arriving, IntakeEvent::Begin),
            begun,
        ),
        call_ensures(
            process_agent_bot_payload,
            (&p, cfg, IntakeStage::Marking, IntakeEvent::Marked { new: true, now_nanos }),
            marked,
        ),
        call_ensures(
            process_agent_bot_payload,
            (&p, cfg, IntakeStage::Logging, IntakeEvent::Logged),
            logged,
        ),
        call_ensures(
            process_agent_bot_payload,
            (&p, cfg, IntakeStage::Placing, IntakeEvent::Placed),
            placed,
        ),
    ensures
        begun.0 is Marking && (begun.1 matches IntakeAction::Mark { key, ttl_secs } && key@
            == mark@ && ttl_secs == 86400),
        marked.0 is Logging && (marked.1 matches IntakeAction::Log(row) && row.chatwoot_msg_id
            == msg_id && row.conversation_id == conv && row.direction@ == "inbound"@
            && row.sender_kind@ == "contact"@ && !row.is_private),
        logged.0 is Buffering && (logged.1 matches IntakeAction::Buffer(w) && w.key@ == buffer@
            && w.first_key@ == meta.0@ && w.chars_key@ == meta.1@ && w.ttl_secs == 300),
        placed.0 is Answered && (placed.1 matches IntakeAction::Answer { body, result } && body@
            == Json::Object(seq![("ok"@, Json::Bool(true))]) && opt_str(result) == Some(
            "processed"@,
        )),
{
}

/// A run is queued where the buffer asks for one, and put off where it does not;
/// either way it is the run of the conversation that was spoken in, and the
/// answer waits until it is placed.
pub proof fn law_runs_are_placed_as_the_buffer_asks(
    p: AgentBotWebhookPayload,
    cfg: BufferConfig,
    msg_id: i64,
    conv: i64,
    account: i64,
    messages: i64,
    bytes: i64,
    first: Option<String>,
    kept: Option<&str>,
    now_ms: i64,
    step: BufferStep,
    r: (IntakeStage, IntakeAction),
)
    requires
        now_ms + (cfg.debounce_ms as i64) <= i64::MAX,
        opt_str(kept) == opt_text(first),
        call_ensures(
            intake,
            (&p,),
            Intake::Process { msg_id, conversation_id: conv, account_id: account },
        ),
        call_ensures(buffer_step, (messages, bytes, kept, now_ms, cfg), step),
        call_ensures(
            process_agent_bot_payload,
            (
                &p,
                cfg,
                IntakeStage::Buffering,
                IntakeEvent::Counted { messages, bytes, first, now_ms },
            ),
            r,
        ),
    ensures
        r.0 is Placing,
        step is Run <==> r.1 is Enqueue,
        step is Wait <==> r.1 is Wait,
        r.1 matches IntakeAction::Enqueue { job, reason, member } ==> (step matches BufferStep::Run(
            why,
        ) && reason@ == why@) && text::parsed_int(member@) == Some(conv as int)
            && crate::worker::consumer::job_conversation(job@) == Some(conv as int),
        r.1 matches IntakeAction::Wait { member, score_ms } ==> (step matches BufferStep::Wait {
            score_ms: s,
        } && score_ms == s) && text::parsed_int(member@) == Some(conv as int),
{
    text::law_numbers_read_back(conv as int);
    if let IntakeAction::Enqueue { job, reason, member } = r.1 {
        crate::worker::consumer::law_intake_jobs_are_read(conv, account, reason@, now_ms);
    }
}

/// A word that came before is answered as a duplicate, and nothing else happens.
/// What is no word of a contact is answered at once.
pub proof fn law_other_webhooks_are_answered_at_once(
    p: AgentBotWebhookPayload,
    cfg: BufferConfig,
    what: Intake,
    now_nanos: i128,
    begun: (IntakeStage, IntakeAction),
    again: (IntakeStage, IntakeAction),
)
    requires
        call_ensures(intake, (&p,), what),
        call_ensures(
            process_agent_bot_payload,
            (&p, cfg, IntakeStage::Arriving, IntakeEvent::Begin),
            begun,
        ),
        call_ensures(
            process_agent_bot_payload,
            (&p, cfg, IntakeStage::Marking, IntakeEvent::Marked { new: false, now_nanos }),
            again,
        ),
    ensures
        !(what is Process) <==> begun.1 is Answer,
        begun.1 is Answer ==> begun.0 is Answered,
        what is Process ==> again.0 is Answered && (again.1 matches IntakeAction::Answer {
            body,
            result,
        } && body@ == Json::Object(
            seq![("ok"@, Json::Bool(true)), ("duplicate"@, Json::Bool(true))],
        ) && opt_str(result) == Some("duplicate"@)),
{
}

/// An event of the account is marked before it is dealt with, and dealt with
/// only where the mark was new. One without a conversation is answered at once.
pub proof fn law_account_events_are_dealt_with_once(
    p: AgentBotWebhookPayload,
    event: AccountEvent,
    fresh: AccountAction,
    unmarked: AccountAction,
    again: AccountAction,
)
    requires
        call_ensures(account_event, (&p,), event),
        call_ensures(process_account_payload, (&p, None), unmarked),
        call_ensures(process_account_payload, (&p, Some(true)), fresh),
        call_ensures(process_account_payload, (&p, Some(false)), again),
    ensures
        p.conversation is None <==> fresh is Answer,
        p.conversation is Some <==> unmarked is Mark,
        again is Answer,
        unmarked matches AccountAction::Mark { key: _, ttl_secs } ==> ttl_secs == 86400,
        fresh matches AccountAction::Handle { event: e, account_id } ==> e == event && account_id
            == (match p.account {
            Some(a) => a.id,
            None => 0,
        }),
        p.conversation is Some ==> fresh is Handle,
{
}

} // verus!
