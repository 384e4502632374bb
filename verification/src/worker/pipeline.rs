//! The order of a run.
//!
//! A run goes through fixed stages. Each stage holds what the run has gathered
//! so far and waits for one word from the world (the lock was free, the buffer
//! held these messages, the agent answered, ...). The word decides the next stage
//! and the one thing to do on the way. What is only a note or a courtesy may
//! fail without stopping the run.
use crate::config::Config;
use crate::error::{agent_error_text, AgentError};
use crate::ids::{hyphenated, ConversationId, RunId};
use crate::json::{
    jsons, lemma_array, one_member, text_list, F64Bits, Json, JsonValue,
};
use crate::model::agent::{messages_of, AgentRequest, AgentResponse, InboundMessage};
use crate::pattern::regex_compiles;
use crate::text;
use crate::text::{int_text, notes_of, opt_text};
use crate::worker::ack::{
    ack_key, ack_ttl, ack_ttl_secs, likely_slow, muted, pick_ack, should_ack, ContactRecency,
    ACK_TEXTS,
    IDLE_SECS,
};
use crate::worker::acquire_lock::{
    lock_outcome, lock_request, LockGuard, LockOutcome, LockRequest, RETRY_DELAY_MS,
};
use crate::worker::apply_actions::{answer_script, apply, degrade_on_failure, failure_script};
use crate::worker::build_context::{build_agent_request, context_of, turn_for_agent};
use crate::worker::collect_turn::{collected, drained_keys, ids, turn_of, CollectedTurn};
use crate::worker::consumer::AgentRunJob;
use crate::worker::finalize::{closes, finalize, FinalizePlan};
use crate::worker::inbound_gate;
use crate::worker::inbound_gate::{turn_actions, turn_block, GateDecision};
use crate::worker::outbound_gate::{
    last_note, last_outbound_key, record, recorded, reviews, try_evaluate, GateRecord,
    ReviewedResponse, PII_PATTERN,
};
use crate::worker::run_agent::{
    agent_err_kind, before_run, f64_ge, run_with_fallback, AgentStep,
};
use crate::worker::script::{steps_of, DeskStep};
use crate::worker::state::{
    conversation_state_of, state_of, ConversationState, StateColumns,
};
use vstd::prelude::*;

verus! {

/// What is fixed for a run.
#[derive(Debug, Clone)]
pub struct RunSetup {
    pub job: AgentRunJob,
    pub run_id: RunId,
    /// The name of the primary provider.
    pub provider: &'static str,
    pub has_fallback: bool,
}

/// How a run ended.
#[derive(Debug, Clone)]
pub enum Outcome {
    /// Another run holds the conversation.
    Contention,
    /// The buffer was empty.
    EmptyBuffer,
    /// The conversation is not known.
    UnknownConversation,
    /// The inbound gate blocked the turn.
    Blocked { rule: String, reason: String },
    /// The agents failed and the contact was told so.
    Degraded,
    /// The turn was answered.
    Completed,
    /// Something failed on the way.
    Failed,
}

/// A turn that the inbound gate let through.
#[derive(Debug)]
pub struct TakenTurn {
    pub lock: LockGuard,
    pub turn: CollectedTurn,
    pub conv: ConversationState,
    pub request: AgentRequest,
}

/// What a run has gathered, and what it waits for.
#[derive(Debug)]
pub enum RunStage {
    /// The answer to the request for the lock.
    Locking(LockRequest),
    /// The end of the delay of a conversation that another run holds.
    Requeueing,
    /// The messages of the buffer.
    Draining(LockGuard),
    /// The row of the conversation.
    Loading { lock: LockGuard, turn: CollectedTurn },
    /// The note on a blocked turn.
    Noting { lock: LockGuard, rule: String, reason: String },
    /// The row of the run.
    Starting(TakenTurn),
    /// When the contact was last heard.
    Greeting(TakenTurn),
    /// The end of the word that the contact gets ahead of the answer.
    Acking(TakenTurn),
    /// What was spent today.
    Budgeting(TakenTurn),
    /// The answer of the primary provider.
    Asking(TakenTurn),
    /// The answer of the fallback, and the error of the primary provider.
    AskingFallback { taken: TakenTurn, error: AgentError },
    /// The end of the degradation.
    Degrading { lock: LockGuard, error: AgentError },
    /// The end of the row of a run that failed.
    FinishingFailed(LockGuard),
    /// The last text that went out.
    Reviewing { lock: LockGuard, conv: ConversationState, response: AgentResponse },
    /// The note on the reviewed answer.
    Filing { lock: LockGuard, conv: ConversationState, reviewed: ReviewedResponse },
    /// The end of the calls on the help desk.
    Applying { lock: LockGuard, conv: ConversationState, reviewed: ReviewedResponse },
    /// The new state of the conversation.
    Saving { lock: LockGuard, plan: FinalizePlan },
    /// The end of the row of the run.
    Finishing { lock: LockGuard, plan: FinalizePlan },
    /// The release of the lock.
    Leaving(Outcome),
    Ended(Outcome),
}

/// What the world says.
#[derive(Debug)]
pub enum RunEvent {
    /// Whether the lock was set; the time is in milliseconds.
    LockReply { set: bool, now_ms: i64 },
    Drained(Vec<InboundMessage>),
    Loaded(Option<StateColumns>),
    Heard { recency: ContactRecency, acked_recently: bool },
    /// What was spent today, where it could be read.
    Spent(Option<F64Bits>),
    Answered(Result<AgentResponse, AgentError>),
    /// The last text that went out, where there is one.
    LastText(Option<String>),
    /// It was done; the time is since the run began.
    Done { elapsed_ms: u64 },
    /// It could not be done.
    Failed { elapsed_ms: u64 },
}

/// A note on what a gate decided.
#[derive(Debug)]
pub struct GateNote {
    pub gate: &'static str,
    pub rule: String,
    pub decision: String,
    pub detail: JsonValue,
}

/// What is written into the row of a run at its end.
#[derive(Debug, Clone, Copy)]
pub struct RunEnd {
    pub status: &'static str,
    pub error_kind: Option<&'static str>,
    pub latency_ms: i32,
}

/// The one thing to do.
#[derive(Debug)]
pub enum RunAction {
    /// Put the conversation into the debounce set.
    Requeue { member: String, score: i64 },
    /// Read the list under the first key, then delete all three where it held
    /// something.
    Drain { keys: [String; 3] },
    LoadState,
    Note(GateNote),
    InsertRun { provider: &'static str, reason: String, message_ids: Vec<i64> },
    /// Find out when the contact was last heard, and whether the key is set.
    FindRecency { key: String },
    /// Send the text, then set the key for this time.
    SendAck { text: &'static str, key: String, ttl_secs: u64 },
    ReadSpent,
    /// Send the request of the stage to the primary provider.
    RunPrimary,
    /// Send the request of the stage to the fallback.
    RunFallback,
    /// Play the script that tells the contact of the failure.
    Degrade(Vec<DeskStep>),
    FinishRun(RunEnd),
    ReadLastText { key: String },
    /// Play the script of the reviewed answer.
    Apply(Vec<DeskStep>),
    /// Write the plan of the stage into the row of the conversation.
    SaveState,
    Release(LockGuard),
    /// Nothing more: the run is over.
    Stop,
    /// The event does not belong to the stage.
    Ignore,
}

// ---------------------------------------------------------------------------
// What the stages work with
// ---------------------------------------------------------------------------

/// What the inbound gate makes of a turn.
#[derive(Debug, Clone)]
pub enum TurnPlan {
    Blocked { rule: String, reason: String },
    Run(AgentRequest),
}

/// Whether a request is the one for a turn.
pub open spec fn request_for(
    r: AgentRequest,
    config: Config,
    run_id: RunId,
    conv_id: ConversationId,
    state: ConversationState,
    turn: CollectedTurn,
) -> bool {
    &&& r.run_id == run_id
    &&& r.session_key@ == "cw:"@ + int_text(state.account_id as int) + ":"@ + int_text(
        conv_id as int,
    )
    &&& r.agent_id is Some
    &&& r.agent_id->Some_0@ == config.agent.openclaw_agent_id@
    &&& messages_of(r.turn@) == turn_for_agent(turn.messages@)
    &&& context_of(r.context, conv_id, state)
    &&& r.allowed_actions@ == turn_actions()
    &&& r.deadline_ms == config.agent.timeout_ms
    &&& r.max_output_chars == config.agent.max_output_chars
    &&& r.locale@ == "pt-BR"@
}

/// Puts a turn through the inbound gate; an allowed turn becomes a request.
pub fn plan_turn(
    config: &Config,
    run_id: RunId,
    conv_id: ConversationId,
    state: &ConversationState,
    turn: &CollectedTurn,
    trigger_reason: Option<&str>,
) -> (r: TurnPlan)
    ensures
        match r {
            TurnPlan::Blocked { rule, reason } => turn_block(*state, *config, turn.messages@)
                == Some((rule@, reason@)),
            TurnPlan::Run(q) => turn_block(*state, *config, turn.messages@) is None && request_for(
                q,
                *config,
                run_id,
                conv_id,
                *state,
                *turn,
            ),
        },
{
    match inbound_gate::evaluate(state, config, &turn.messages) {
        Ok(GateDecision::Block { rule, reason }) => TurnPlan::Blocked { rule, reason },
        _ => TurnPlan::Run(
            build_agent_request(config, run_id, conv_id, state, turn, trigger_reason),
        ),
    }
}

/// Whether a note says that the inbound gate blocked a turn.
pub open spec fn notes_block(n: GateNote, rule: Seq<char>, reason: Seq<char>) -> bool {
    &&& n.gate@ == "inbound"@
    &&& n.rule@ == rule
    &&& n.decision@ == "block"@
    &&& n.detail@ == Json::Object(seq![("reason"@, Json::Str(reason))])
}

fn block_note(rule: &str, reason: &str) -> (r: GateNote)
    ensures
        notes_block(r, rule@, reason@),
{
    GateNote {
        gate: "inbound",
        rule: rule.to_string(),
        decision: "block".to_string(),
        detail: one_member("reason", JsonValue::Str(reason.to_string())),
    }
}

/// Whether a note says what the outbound gate made of an answer.
pub open spec fn notes_review(n: GateNote, x: ReviewedResponse) -> bool {
    &&& n.gate@ == "outbound"@
    &&& n.rule@ == last_note(notes_of(x.modifications@))
    &&& if x.blocked {
        &&& n.decision@ == "block"@
        &&& n.detail@ == Json::Object(
            seq![
                (
                    "reason"@,
                    Json::Str(
                        match x.block_reason {
                            Some(s) => s@,
                            None => ""@,
                        },
                    ),
                ),
            ],
        )
    } else {
        &&& n.decision@ == "modify"@
        &&& n.detail@ == Json::Object(
            seq![("applied"@, text_list(notes_of(x.modifications@)))],
        )
    }
}

fn note_list(v: &Vec<&'static str>) -> (r: JsonValue)
    ensures
        r@ == text_list(notes_of(v@)),
{
    let mut a: Vec<JsonValue> = Vec::new();
    let mut i: usize = 0;
    while i < v.len()
        invariant
            i <= v@.len(),
            a@.len() == i,
            forall|k: int| 0 <= k < i ==> (#[trigger] a@[k])@ == Json::Str(v@[k]@),
        decreases v@.len() - i,
    {
        a.push(JsonValue::Str(v[i].to_string()));
        i += 1;
    }
    proof {
        lemma_array(a);
        assert(jsons(a@) =~= notes_of(v@).map_values(|s: Seq<char>| Json::Str(s)));
    }
    JsonValue::Array(a)
}

fn review_note(entry: GateRecord, Ghost(x): Ghost<ReviewedResponse>) -> (r: GateNote)
    requires
        recorded(Some(entry), x),
    ensures
        notes_review(r, x),
{
    let detail = match &entry.reason {
        Some(s) => one_member("reason", JsonValue::Str(s.clone())),
        None => one_member("applied", note_list(&entry.applied)),
    };
    GateNote { gate: "outbound", rule: entry.rule, decision: entry.decision, detail }
}

/// The row of a run whose agents failed, at its end.
pub open spec fn fails(r: RunEnd, e: AgentError, elapsed_ms: u64) -> bool {
    &&& r.status@ == "failed"@
    &&& r.error_kind matches Some(k) && k@ == (match e {
        AgentError::Timeout => "timeout"@,
        AgentError::RateLimited => "rate_limited"@,
        AgentError::AuthError => "auth"@,
        AgentError::BudgetExceeded => "budget_exceeded"@,
        AgentError::ProviderError(_) => "provider_error"@,
        AgentError::InvalidResponse(_) => "invalid_response"@,
    })
    &&& r.latency_ms == elapsed_ms as i32
}

/// The row of a run whose agents failed, at its end.
pub fn failed_run(e: &AgentError, elapsed_ms: u64) -> (r: RunEnd)
    ensures
        fails(r, *e, elapsed_ms),
{
    RunEnd {
        status: "failed",
        error_kind: Some(agent_err_kind(e)),
        latency_ms: #[verifier::truncate]
        (elapsed_ms as i32),
    }
}

// ---------------------------------------------------------------------------
// The moves of a run
// ---------------------------------------------------------------------------

/// Whether the run gives its lock back and ends so.
pub open spec fn releases(
    lock: LockGuard,
    o: Outcome,
    next: RunStage,
    action: RunAction,
) -> bool {
    next == RunStage::Leaving(o) && action == RunAction::Release(lock)
}

/// Whether the run ends with a failure and leaves its lock to run out.
pub open spec fn breaks_off(next: RunStage, action: RunAction) -> bool {
    next == RunStage::Ended(Outcome::Failed) && action is Stop
}

/// What follows once the row of the conversation is there: a turn that the inbound
/// gate blocks is noted, any other becomes a request.
pub open spec fn gated(
    setup: RunSetup,
    config: Config,
    lock: LockGuard,
    turn: CollectedTurn,
    conv: ConversationState,
    next: RunStage,
    action: RunAction,
) -> bool {
    let conv_id = setup.job.conversation_id;
    match turn_block(conv, config, turn.messages@) {
        Some(why) => {
            &&& next matches RunStage::Noting { lock: l, rule, reason }
            &&& l == lock && rule@ == why.0 && reason@ == why.1
            &&& action matches RunAction::Note(n)
            &&& notes_block(n, why.0, why.1)
        },
        None => {
            &&& next matches RunStage::Starting(t)
            &&& t.lock == lock && t.turn == turn && t.conv == conv
            &&& request_for(t.request, config, setup.run_id, conv_id, conv, turn)
            &&& action matches RunAction::InsertRun { provider, reason, message_ids }
            &&& provider@ == setup.provider@
            &&& reason@ == (match setup.job.reason {
                Some(s) => s@,
                None => "debounce_expired"@,
            })
            &&& message_ids@ == ids(turn.messages@)
        },
    }
}

/// What follows once the recency of the contact is known: a word ahead of the
/// answer where one is due, else the budget.
pub open spec fn greets(
    config: Config,
    t: TakenTurn,
    recency: ContactRecency,
    acked_recently: bool,
    next: RunStage,
    action: RunAction,
) -> bool {
    if likely_slow(t.turn) && (recency.first_today || recency.idle_secs > IDLE_SECS)
        && !acked_recently && !muted(t.conv) {
        &&& next == RunStage::Acking(t)
        &&& action matches RunAction::SendAck { text, key, ttl_secs }
        &&& exists|i: int| 0 <= i < 4 && text@ == (#[trigger] ACK_TEXTS@[i])@
        &&& key@ == "ack:conv:"@ + int_text(t.lock.conv_id as int)
        &&& ttl_secs == ack_ttl(config.agent.ack_cooldown_ms as int)
    } else {
        next == RunStage::Budgeting(t) && action is ReadSpent
    }
}

/// Whether the contact is told that the agents failed.
pub open spec fn gives_up(
    setup: RunSetup,
    config: Config,
    lock: LockGuard,
    e: AgentError,
    next: RunStage,
    action: RunAction,
) -> bool {
    &&& next == RunStage::Degrading { lock, error: e }
    &&& action matches RunAction::Degrade(p)
    &&& steps_of(p@) == failure_script(
        config.chatwoot.fallback_team_id,
        setup.run_id,
        agent_error_text(e),
    )
}

/// What follows an answer: the last text is read for the review.
pub open spec fn recalls(
    t: TakenTurn,
    response: AgentResponse,
    next: RunStage,
    action: RunAction,
) -> bool {
    &&& next == RunStage::Reviewing { lock: t.lock, conv: t.conv, response }
    &&& action matches RunAction::ReadLastText { key }
    &&& key@ == "lastout:"@ + int_text(t.lock.conv_id as int)
}

/// Whether a reviewed answer goes to the help desk.
pub open spec fn goes_out(
    config: Config,
    lock: LockGuard,
    conv: ConversationState,
    x: ReviewedResponse,
    next: RunStage,
    action: RunAction,
) -> bool {
    &&& next == RunStage::Applying { lock, conv, reviewed: x }
    &&& action matches RunAction::Apply(p)
    &&& steps_of(p@) == answer_script(x, config.chatwoot.fallback_team_id)
}

/// What follows a review: a note where something was changed or blocked, then
/// the help desk.
pub open spec fn filed(
    config: Config,
    lock: LockGuard,
    conv: ConversationState,
    x: ReviewedResponse,
    next: RunStage,
    action: RunAction,
) -> bool {
    if !x.blocked && x.modifications@.len() == 0 {
        goes_out(config, lock, conv, x, next, action)
    } else {
        &&& next == RunStage::Filing { lock, conv, reviewed: x }
        &&& action matches RunAction::Note(n)
        &&& notes_review(n, x)
    }
}

/// Whether the row of a run is closed with what was planned.
pub open spec fn closes_row(a: RunAction, plan: FinalizePlan) -> bool {
    &&& a matches RunAction::FinishRun(e)
    &&& e.status@ == plan.run_status@
    &&& e.error_kind is None
    &&& e.latency_ms == plan.latency_ms
}

/// How a run goes on.
pub open spec fn run_moves(
    setup: RunSetup,
    config: Config,
    stage: RunStage,
    event: RunEvent,
    next: RunStage,
    action: RunAction,
) -> bool {
    match (stage, event) {
        (RunStage::Locking(q), RunEvent::LockReply { set, now_ms }) => if set {
            &&& next == RunStage::Draining(LockGuard { conv_id: q.conv_id, token: q.token })
            &&& action matches RunAction::Drain { keys }
            &&& keys@[0]@ == "buf:"@ + int_text(q.conv_id as int)
            &&& keys@[1]@ == "buf:chars:"@ + int_text(q.conv_id as int)
            &&& keys@[2]@ == "buf:first:"@ + int_text(q.conv_id as int)
        } else {
            &&& next is Requeueing
            &&& action matches RunAction::Requeue { member, score }
            &&& member@ == int_text(q.conv_id as int)
            &&& score == now_ms + 2000
        },
        (RunStage::Requeueing, RunEvent::Done { .. }) => next == RunStage::Ended(
            Outcome::Contention,
        ) && action is Stop,
        (RunStage::Draining(lock), RunEvent::Drained(messages)) => if messages@.len() == 0 {
            releases(lock, Outcome::EmptyBuffer, next, action)
        } else {
            &&& next matches RunStage::Loading { lock: l, turn }
            &&& l == lock && turn_of(turn, messages@)
            &&& action is LoadState
        },
        (RunStage::Loading { lock, turn }, RunEvent::Loaded(columns)) => match columns {
            None => releases(lock, Outcome::UnknownConversation, next, action),
            Some(c) => exists|conv: ConversationState|
                state_of(conv, setup.job.conversation_id, c) && #[trigger] gated(
                    setup,
                    config,
                    lock,
                    turn,
                    conv,
                    next,
                    action,
                ),
        },
        (
            RunStage::Noting { lock, rule, reason },
            RunEvent::Done { .. } | RunEvent::Failed { .. },
        ) => releases(lock, Outcome::Blocked { rule, reason }, next, action),
        (RunStage::Starting(t), RunEvent::Done { .. } | RunEvent::Failed { .. }) => {
            &&& next == RunStage::Greeting(t)
            &&& action matches RunAction::FindRecency { key }
            &&& key@ == "ack:conv:"@ + int_text(t.lock.conv_id as int)
        },
        (RunStage::Greeting(t), RunEvent::Heard { recency, acked_recently }) => greets(
            config,
            t,
            recency,
            acked_recently,
            next,
            action,
        ),
        (RunStage::Greeting(t), RunEvent::Failed { .. }) => next == RunStage::Budgeting(t)
            && action is ReadSpent,
        (RunStage::Acking(t), RunEvent::Done { .. } | RunEvent::Failed { .. }) => next
            == RunStage::Budgeting(t) && action is ReadSpent,
        (RunStage::Budgeting(t), RunEvent::Spent(spent)) => if spent is Some && f64_ge(
            spent->Some_0,
            config.rate_limits.daily_budget_usd,
        ) {
            gives_up(setup, config, t.lock, AgentError::BudgetExceeded, next, action)
        } else {
            next == RunStage::Asking(t) && action is RunPrimary
        },
        (RunStage::Asking(t), RunEvent::Answered(r)) => match r {
            Ok(response) => recalls(t, response, next, action),
            Err(e) => if setup.has_fallback {
                next == (RunStage::AskingFallback { taken: t, error: e }) && action is RunFallback
            } else {
                gives_up(setup, config, t.lock, e, next, action)
            },
        },
        (RunStage::AskingFallback { taken: t, error: _ }, RunEvent::Answered(r)) => match r {
            Ok(response) => recalls(t, response, next, action),
            Err(e) => gives_up(setup, config, t.lock, e, next, action),
        },
        (RunStage::Degrading { lock, error }, RunEvent::Done { elapsed_ms }) => {
            &&& next == RunStage::FinishingFailed(lock)
            &&& action matches RunAction::FinishRun(end)
            &&& fails(end, error, elapsed_ms)
        },
        (
            RunStage::FinishingFailed(lock),
            RunEvent::Done { .. } | RunEvent::Failed { .. },
        ) => releases(lock, Outcome::Degraded, next, action),
        (RunStage::Reviewing { lock, conv, response }, RunEvent::LastText(last)) => if regex_compiles(
            PII_PATTERN@,
        ) {
            exists|x: ReviewedResponse|
                reviews(
                    x,
                    response,
                    config.agent.max_output_chars as int,
                    opt_text(last),
                ) && #[trigger] filed(config, lock, conv, x, next, action)
        } else {
            breaks_off(next, action)
        },
        (
            RunStage::Filing { lock, conv, reviewed },
            RunEvent::Done { .. } | RunEvent::Failed { .. },
        ) => goes_out(config, lock, conv, reviewed, next, action),
        (RunStage::Applying { lock, conv, reviewed }, RunEvent::Done { elapsed_ms }) => {
            &&& next matches RunStage::Saving { lock: l, plan }
            &&& l == lock && closes(plan, conv, reviewed, elapsed_ms)
            &&& action is SaveState
        },
        (RunStage::Saving { lock, plan }, RunEvent::Done { .. }) => next == (
        RunStage::Finishing { lock, plan }) && closes_row(action, plan),
        (RunStage::Saving { lock, .. }, RunEvent::Failed { .. }) => releases(
            lock,
            Outcome::Failed,
            next,
            action,
        ),
        (RunStage::Finishing { lock, .. }, RunEvent::Done { .. }) => releases(
            lock,
            Outcome::Completed,
            next,
            action,
        ),
        (RunStage::Finishing { lock, .. }, RunEvent::Failed { .. }) => releases(
            lock,
            Outcome::Failed,
            next,
            action,
        ),
        (RunStage::Leaving(o), RunEvent::Done { .. } | RunEvent::Failed { .. }) => next
            == RunStage::Ended(o) && action is Stop,
        (
            RunStage::Locking(_) | RunStage::Requeueing | RunStage::Draining(_)
            | RunStage::Loading { .. } | RunStage::Degrading { .. } | RunStage::Applying { .. },
            RunEvent::Failed { .. },
        ) => breaks_off(next, action),
        _ => next == stage && action is Ignore,
    }
}

fn release(lock: LockGuard, o: Outcome) -> (r: (RunStage, RunAction))
    ensures
        releases(lock, o, r.0, r.1),
{
    (RunStage::Leaving(o), RunAction::Release(lock))
}

fn break_off() -> (r: (RunStage, RunAction))
    ensures
        breaks_off(r.0, r.1),
{
    (RunStage::Ended(Outcome::Failed), RunAction::Stop)
}

fn after_gate(
    setup: &RunSetup,
    config: &Config,
    lock: LockGuard,
    turn: CollectedTurn,
    conv: ConversationState,
) -> (r: (RunStage, RunAction))
    ensures
        gated(*setup, *config, lock, turn, conv, r.0, r.1),
{
    let reason = match &setup.job.reason {
        Some(s) => Some(s.as_str()),
        None => None,
    };
    match plan_turn(config, setup.run_id, setup.job.conversation_id, &conv, &turn, reason) {
        TurnPlan::Blocked { rule, reason } => {
            let note = block_note(rule.as_str(), reason.as_str());
            (RunStage::Noting { lock, rule, reason }, RunAction::Note(note))
        },
        TurnPlan::Run(request) => {
            let action = RunAction::InsertRun {
                provider: setup.provider,
                reason: setup.job.trigger_reason(),
                message_ids: turn.message_ids(),
            };
            (RunStage::Starting(TakenTurn { lock, turn, conv, request }), action)
        },
    }
}

fn after_recency(
    config: &Config,
    t: TakenTurn,
    recency: ContactRecency,
    acked_recently: bool,
) -> (r: (RunStage, RunAction))
    ensures
        greets(*config, t, recency, acked_recently, r.0, r.1),
{
    if should_ack(&t.conv, &t.turn, recency, acked_recently) {
        let action = RunAction::SendAck {
            text: pick_ack(),
            key: ack_key(t.lock.conv_id),
            ttl_secs: ack_ttl_secs(config.agent.ack_cooldown_ms),
        };
        (RunStage::Acking(t), action)
    } else {
        (RunStage::Budgeting(t), RunAction::ReadSpent)
    }
}

fn give_up(setup: &RunSetup, config: &Config, lock: LockGuard, e: AgentError) -> (r: (
    RunStage,
    RunAction,
))
    ensures
        gives_up(*setup, *config, lock, e, r.0, r.1),
{
    let shown = e.to_string();
    let team = config.chatwoot.fallback_team_id;
    let script = degrade_on_failure(team, setup.run_id, shown.as_str());
    (RunStage::Degrading { lock, error: e }, RunAction::Degrade(script))
}

fn recall(t: TakenTurn, response: AgentResponse) -> (r: (RunStage, RunAction))
    ensures
        recalls(t, response, r.0, r.1),
{
    let key = last_outbound_key(t.lock.conv_id);
    (
        RunStage::Reviewing { lock: t.lock, conv: t.conv, response },
        RunAction::ReadLastText { key },
    )
}

fn go_out(
    config: &Config,
    lock: LockGuard,
    conv: ConversationState,
    reviewed: ReviewedResponse,
) -> (r: (RunStage, RunAction))
    ensures
        goes_out(*config, lock, conv, reviewed, r.0, r.1),
{
    let script = apply(&reviewed, config.chatwoot.fallback_team_id);
    (RunStage::Applying { lock, conv, reviewed }, RunAction::Apply(script))
}

fn after_review(
    config: &Config,
    lock: LockGuard,
    conv: ConversationState,
    reviewed: ReviewedResponse,
) -> (r: (RunStage, RunAction))
    ensures
        filed(*config, lock, conv, reviewed, r.0, r.1),
{
    match record(&reviewed) {
        None => go_out(config, lock, conv, reviewed),
        Some(entry) => {
            let note = review_note(entry, Ghost(reviewed));
            (RunStage::Filing { lock, conv, reviewed }, RunAction::Note(note))
        },
    }
}

/// The first stage of a run: a lock is asked for under a fresh token.
pub fn begin(setup: &RunSetup) -> (r: RunStage)
    ensures
        begins(*setup, r),
{
    RunStage::Locking(lock_request(setup.job.conversation_id))
}

/// Whether a run begins so.
pub open spec fn begins(setup: RunSetup, stage: RunStage) -> bool {
    &&& stage matches RunStage::Locking(q)
    &&& q.conv_id == setup.job.conversation_id
    &&& q.key@ == "lock:conv:"@ + int_text(q.conv_id as int)
    &&& q.ttl_ms == 90000
    &&& exists|n: u128| q.token@ == hyphenated(n as int)
    &&& q.token@[14] == '7'
}

/// How a run goes on.
pub fn run(setup: &RunSetup, config: &Config, stage: RunStage, event: RunEvent) -> (r: (
    RunStage,
    RunAction,
))
    requires
        event matches RunEvent::LockReply { set: _, now_ms } ==> now_ms <= i64::MAX
            - RETRY_DELAY_MS,
    ensures
        run_moves(*setup, *config, stage, event, r.0, r.1),
{
    match (stage, event) {
        (RunStage::Locking(q), RunEvent::LockReply { set, now_ms }) => {
            let conv_id = q.conv_id;
            match lock_outcome(q, set, now_ms) {
                LockOutcome::Acquired(lock) => (
                    RunStage::Draining(lock),
                    RunAction::Drain { keys: drained_keys(conv_id) },
                ),
                LockOutcome::Contended { member, score } => (
                    RunStage::Requeueing,
                    RunAction::Requeue { member, score },
                ),
            }
        },
        (RunStage::Requeueing, RunEvent::Done { .. }) => {
            (RunStage::Ended(Outcome::Contention), RunAction::Stop)
        },
        (RunStage::Draining(lock), RunEvent::Drained(messages)) => {
            if messages.len() == 0 {
                release(lock, Outcome::EmptyBuffer)
            } else {
                (RunStage::Loading { lock, turn: collected(messages) }, RunAction::LoadState)
            }
        },
        (RunStage::Loading { lock, turn }, RunEvent::Loaded(columns)) => match columns {
            None => release(lock, Outcome::UnknownConversation),
            Some(c) => {
                let ghost cols = c;
                let conv = conversation_state_of(setup.job.conversation_id, c);
                let ghost held = conv;
                assert(state_of(held, setup.job.conversation_id, cols));
                let r = after_gate(setup, config, lock, turn, conv);
                assert(gated(*setup, *config, lock, turn, held, r.0, r.1));
                r
            },
        },
        (RunStage::Noting { lock, rule, reason }, RunEvent::Done { .. }) => {
            release(lock, Outcome::Blocked { rule, reason })
        },
        (RunStage::Noting { lock, rule, reason }, RunEvent::Failed { .. }) => {
            release(lock, Outcome::Blocked { rule, reason })
        },
        (RunStage::Starting(t), RunEvent::Done { .. }) => {
            let key = ack_key(t.lock.conv_id);
            (RunStage::Greeting(t), RunAction::FindRecency { key })
        },
        (RunStage::Starting(t), RunEvent::Failed { .. }) => {
            let key = ack_key(t.lock.conv_id);
            (RunStage::Greeting(t), RunAction::FindRecency { key })
        },
        (RunStage::Greeting(t), RunEvent::Heard { recency, acked_recently }) => {
            after_recency(config, t, recency, acked_recently)
        },
        (RunStage::Greeting(t), RunEvent::Failed { .. }) => {
            (RunStage::Budgeting(t), RunAction::ReadSpent)
        },
        (RunStage::Acking(t), RunEvent::Done { .. }) => {
            (RunStage::Budgeting(t), RunAction::ReadSpent)
        },
        (RunStage::Acking(t), RunEvent::Failed { .. }) => {
            (RunStage::Budgeting(t), RunAction::ReadSpent)
        },
        (RunStage::Budgeting(t), RunEvent::Spent(spent)) => {
            match before_run(spent, config.rate_limits.daily_budget_usd) {
                AgentStep::Refuse(e) => give_up(setup, config, t.lock, e),
                AgentStep::RunPrimary => (RunStage::Asking(t), RunAction::RunPrimary),
            }
        },
        (RunStage::Asking(t), RunEvent::Answered(result)) => {
            match result {
                Ok(response) => recall(t, response),
                Err(error) => if setup.has_fallback {
                    (RunStage::AskingFallback { taken: t, error }, RunAction::RunFallback)
                } else {
                    give_up(setup, config, t.lock, error)
                },
            }
        },
        (RunStage::AskingFallback { taken, error }, RunEvent::Answered(result)) => {
            match run_with_fallback(Err(error), Some(result)) {
                Ok(response) => recall(taken, response),
                Err(e) => give_up(setup, config, taken.lock, e),
            }
        },
        (RunStage::Degrading { lock, error }, RunEvent::Done { elapsed_ms }) => {
            let end = failed_run(&error, elapsed_ms);
            (RunStage::FinishingFailed(lock), RunAction::FinishRun(end))
        },
        (RunStage::FinishingFailed(lock), RunEvent::Done { .. }) => {
            release(lock, Outcome::Degraded)
        },
        (RunStage::FinishingFailed(lock), RunEvent::Failed { .. }) => {
            release(lock, Outcome::Degraded)
        },
        (RunStage::Reviewing { lock, conv, response }, RunEvent::LastText(last)) => {
            let before = match &last {
                Some(s) => Some(s.as_str()),
                None => None,
            };
            match try_evaluate(&response, &conv, config, before) {
                Some(x) => {
                    let ghost held = x;
                    let r = after_review(config, lock, conv, x);
                    assert(filed(*config, lock, conv, held, r.0, r.1));
                    r
                },
                None => break_off(),
            }
        },
        (RunStage::Filing { lock, conv, reviewed }, RunEvent::Done { .. }) => {
            go_out(config, lock, conv, reviewed)
        },
        (RunStage::Filing { lock, conv, reviewed }, RunEvent::Failed { .. }) => {
            go_out(config, lock, conv, reviewed)
        },
        (RunStage::Applying { lock, conv, reviewed }, RunEvent::Done { elapsed_ms }) => {
            let plan = finalize(&conv, &reviewed, elapsed_ms);
            (RunStage::Saving { lock, plan }, RunAction::SaveState)
        },
        (RunStage::Saving { lock, plan }, RunEvent::Done { .. }) => {
            let end = RunEnd {
                status: plan.run_status,
                error_kind: None,
                latency_ms: plan.latency_ms,
            };
            (RunStage::Finishing { lock, plan }, RunAction::FinishRun(end))
        },
        (RunStage::Saving { lock, .. }, RunEvent::Failed { .. }) => {
            release(lock, Outcome::Failed)
        },
        (RunStage::Finishing { lock, .. }, RunEvent::Done { .. }) => {
            release(lock, Outcome::Completed)
        },
        (RunStage::Finishing { lock, .. }, RunEvent::Failed { .. }) => {
            release(lock, Outcome::Failed)
        },
        (RunStage::Leaving(o), RunEvent::Done { .. }) => (RunStage::Ended(o), RunAction::Stop),
        (RunStage::Leaving(o), RunEvent::Failed { .. }) => (RunStage::Ended(o), RunAction::Stop),
        (RunStage::Locking(_), RunEvent::Failed { .. }) => break_off(),
        (RunStage::Requeueing, RunEvent::Failed { .. }) => break_off(),
        (RunStage::Draining(_), RunEvent::Failed { .. }) => break_off(),
        (RunStage::Loading { .. }, RunEvent::Failed { .. }) => break_off(),
        (RunStage::Degrading { .. }, RunEvent::Failed { .. }) => break_off(),
        (RunStage::Applying { .. }, RunEvent::Failed { .. }) => break_off(),
        (stage, _) => (stage, RunAction::Ignore),
    }
}

// ---------------------------------------------------------------------------
// Laws
// ---------------------------------------------------------------------------

/// The lock that a run holds.
pub open spec fn held_lock(s: RunStage) -> Option<LockGuard> {
    match s {
        RunStage::Draining(lock) | RunStage::FinishingFailed(lock) => Some(lock),
        RunStage::Loading { lock, .. }
        | RunStage::Noting { lock, .. }
        | RunStage::Degrading { lock, .. }
        | RunStage::Reviewing { lock, .. }
        | RunStage::Filing { lock, .. }
        | RunStage::Applying { lock, .. }
        | RunStage::Saving { lock, .. }
        | RunStage::Finishing { lock, .. } => Some(lock),
        RunStage::Starting(t)
        | RunStage::Greeting(t)
        | RunStage::Acking(t)
        | RunStage::Budgeting(t)
        | RunStage::Asking(t) => Some(t.lock),
        RunStage::AskingFallback { taken, .. } => Some(taken.lock),
        _ => None,
    }
}

/// The turn that a run works on, once it was let through.
pub open spec fn taken_turn(s: RunStage) -> Option<TakenTurn> {
    match s {
        RunStage::Starting(t)
        | RunStage::Greeting(t)
        | RunStage::Acking(t)
        | RunStage::Budgeting(t)
        | RunStage::Asking(t) => Some(t),
        RunStage::AskingFallback { taken, .. } => Some(taken),
        _ => None,
    }
}

/// The reviewed answer of a run.
pub open spec fn held_review(s: RunStage) -> Option<ReviewedResponse> {
    match s {
        RunStage::Filing { reviewed, .. } | RunStage::Applying { reviewed, .. } => Some(reviewed),
        _ => None,
    }
}

/// Whether the inbound gate lets a turn through and the request is the one for it.
pub open spec fn let_through(setup: RunSetup, config: Config, t: TakenTurn) -> bool {
    &&& turn_block(t.conv, config, t.turn.messages@) is None
    &&& request_for(
        t.request,
        config,
        setup.run_id,
        setup.job.conversation_id,
        t.conv,
        t.turn,
    )
}

/// Whether an answer passed the outbound gate.
pub open spec fn passed(config: Config, x: ReviewedResponse) -> bool {
    exists|response: AgentResponse, last: Option<Seq<char>>| #[trigger]
        reviews(x, response, config.agent.max_output_chars as int, last)
}

/// What holds of every stage of a run that began with the token.
pub open spec fn sound(setup: RunSetup, config: Config, token: Seq<char>, s: RunStage) -> bool {
    &&& s matches RunStage::Locking(q) ==> q.conv_id == setup.job.conversation_id && q.token@
        == token
    &&& held_lock(s) matches Some(g) ==> g.conv_id == setup.job.conversation_id && g.token@
        == token
    &&& taken_turn(s) matches Some(t) ==> let_through(setup, config, t)
    &&& held_review(s) matches Some(x) ==> passed(config, x)
}

/// What holds of a stage holds of the next: the run keeps its lock, works only
/// on a turn that was let through, and hands on only what was reviewed.
pub proof fn law_moves_are_sound(
    setup: RunSetup,
    config: Config,
    token: Seq<char>,
    stage: RunStage,
    event: RunEvent,
    next: RunStage,
    action: RunAction,
)
    requires
        sound(setup, config, token, stage),
        run_moves(setup, config, stage, event, next, action),
    ensures
        sound(setup, config, token, next),
        action matches RunAction::Release(l) ==> l.conv_id == setup.job.conversation_id
            && l.token@ == token,
        action is RunPrimary || action is RunFallback ==> taken_turn(next) is Some && let_through(
            setup,
            config,
            taken_turn(next)->Some_0,
        ),
        action matches RunAction::Apply(p) ==> held_review(next) is Some && passed(
            config,
            held_review(next)->Some_0,
        ) && steps_of(p@) == answer_script(
            held_review(next)->Some_0,
            config.chatwoot.fallback_team_id,
        ),
{
}

/// The stages, words and actions of a run, from its beginning.
pub open spec fn is_run(
    setup: RunSetup,
    config: Config,
    stages: Seq<RunStage>,
    events: Seq<RunEvent>,
    actions: Seq<RunAction>,
) -> bool {
    &&& stages.len() == events.len() + 1
    &&& actions.len() == events.len()
    &&& begins(setup, stages[0])
    &&& forall|i: int|
        #![trigger events[i]]
        0 <= i < events.len() ==> run_moves(
            setup,
            config,
            stages[i],
            events[i],
            stages[i + 1],
            actions[i],
        )
}

proof fn lemma_prefix(
    setup: RunSetup,
    config: Config,
    stages: Seq<RunStage>,
    events: Seq<RunEvent>,
    actions: Seq<RunAction>,
)
    requires
        is_run(setup, config, stages, events, actions),
        events.len() > 0,
    ensures
        is_run(setup, config, stages.drop_last(), events.drop_last(), actions.drop_last()),
        run_moves(
            setup,
            config,
            stages.drop_last().last(),
            events.last(),
            stages.last(),
            actions.last(),
        ),
{
    assert(run_moves(
        setup,
        config,
        stages[events.len() - 1],
        events[events.len() - 1],
        stages[events.len() as int],
        actions[events.len() - 1],
    ));
    assert forall|i: int|
        #![trigger events.drop_last()[i]]
        0 <= i < events.drop_last().len() implies run_moves(
        setup,
        config,
        stages.drop_last()[i],
        events.drop_last()[i],
        stages.drop_last()[i + 1],
        actions.drop_last()[i],
    ) by {
        assert(events[i] == events.drop_last()[i]);
    }
}

/// All through a run its lock is its own, and its stages are sound.
pub proof fn law_runs_are_sound(
    setup: RunSetup,
    config: Config,
    stages: Seq<RunStage>,
    events: Seq<RunEvent>,
    actions: Seq<RunAction>,
)
    requires
        is_run(setup, config, stages, events, actions),
    ensures
        sound(setup, config, stages[0]->Locking_0.token@, stages.last()),
    decreases events.len(),
{
    if events.len() > 0 {
        lemma_prefix(setup, config, stages, events, actions);
        law_runs_are_sound(
            setup,
            config,
            stages.drop_last(),
            events.drop_last(),
            actions.drop_last(),
        );
        assert(stages.drop_last()[0] == stages[0]);
        law_moves_are_sound(
            setup,
            config,
            stages[0]->Locking_0.token@,
            stages.drop_last().last(),
            events.last(),
            stages.last(),
            actions.last(),
        );
    }
}

/// How many actions of a run are of a kind.
pub open spec fn releases_in(actions: Seq<RunAction>) -> nat {
    actions.filter(|a: RunAction| a is Release).len()
}

/// How often the primary provider was asked.
pub open spec fn asked_in(actions: Seq<RunAction>) -> nat {
    actions.filter(|a: RunAction| a is RunPrimary).len()
}

/// How often an answer went to the help desk.
pub open spec fn applied_in(actions: Seq<RunAction>) -> nat {
    actions.filter(|a: RunAction| a is Apply).len()
}

/// How often the contact was told that the agents failed.
pub open spec fn degraded_in(actions: Seq<RunAction>) -> nat {
    actions.filter(|a: RunAction| a is Degrade).len()
}

proof fn lemma_counts(actions: Seq<RunAction>)
    ensures
        actions.len() == 0 ==> releases_in(actions) == 0 && asked_in(actions) == 0 && applied_in(
            actions,
        ) == 0 && degraded_in(actions) == 0,
        actions.len() > 0 ==> ({
            let rest = actions.drop_last();
            let a = actions.last();
            &&& releases_in(actions) == releases_in(rest) + if a is Release {
                1nat
            } else {
                0nat
            }
            &&& asked_in(actions) == asked_in(rest) + if a is RunPrimary {
                1nat
            } else {
                0nat
            }
            &&& applied_in(actions) == applied_in(rest) + if a is Apply {
                1nat
            } else {
                0nat
            }
            &&& degraded_in(actions) == degraded_in(rest) + if a is Degrade {
                1nat
            } else {
                0nat
            }
        }),
{
    reveal(Seq::filter);
}

/// The lock is released at most once and only when the run leaves; a run that
/// ended otherwise than by a failure or by contention has released it exactly
/// once.
pub proof fn law_lock_is_released_once(
    setup: RunSetup,
    config: Config,
    stages: Seq<RunStage>,
    events: Seq<RunEvent>,
    actions: Seq<RunAction>,
)
    requires
        is_run(setup, config, stages, events, actions),
    ensures
        match stages.last() {
            RunStage::Leaving(_) => releases_in(actions) == 1,
            RunStage::Ended(Outcome::Contention) => releases_in(actions) == 0,
            RunStage::Ended(Outcome::Failed) => releases_in(actions) <= 1,
            RunStage::Ended(_) => releases_in(actions) == 1,
            _ => releases_in(actions) == 0,
        },
        stages.last() matches RunStage::Leaving(o) ==> !(o is Contention),
    decreases events.len(),
{
    lemma_counts(actions);
    if events.len() > 0 {
        lemma_prefix(setup, config, stages, events, actions);
        law_lock_is_released_once(
            setup,
            config,
            stages.drop_last(),
            events.drop_last(),
            actions.drop_last(),
        );
    }
}

/// The primary provider is asked at most once, and never in a run that ended
/// before the inbound gate let its turn through.
pub proof fn law_agent_runs_only_when_allowed(
    setup: RunSetup,
    config: Config,
    stages: Seq<RunStage>,
    events: Seq<RunEvent>,
    actions: Seq<RunAction>,
)
    requires
        is_run(setup, config, stages, events, actions),
    ensures
        asked_in(actions) <= 1,
        match stages.last() {
            RunStage::Leaving(o) | RunStage::Ended(o) => match o {
                Outcome::Contention
                | Outcome::EmptyBuffer
                | Outcome::UnknownConversation
                | Outcome::Blocked { .. } => asked_in(actions) == 0,
                Outcome::Completed => asked_in(actions) == 1,
                _ => true,
            },
            RunStage::Asking(_)
            | RunStage::AskingFallback { .. }
            | RunStage::Reviewing { .. }
            | RunStage::Filing { .. }
            | RunStage::Applying { .. }
            | RunStage::Saving { .. }
            | RunStage::Finishing { .. } => asked_in(actions) == 1,
            RunStage::Degrading { .. } | RunStage::FinishingFailed(_) => true,
            _ => asked_in(actions) == 0,
        },
    decreases events.len(),
{
    lemma_counts(actions);
    if events.len() > 0 {
        lemma_prefix(setup, config, stages, events, actions);
        law_agent_runs_only_when_allowed(
            setup,
            config,
            stages.drop_last(),
            events.drop_last(),
            actions.drop_last(),
        );
    }
}

/// A contact whose turn was taken up is never left in silence: a run that
/// completed has sent one reviewed answer, and one whose agents failed has told
/// the contact so, once. No run does both.
pub proof fn law_taken_turns_are_answered(
    setup: RunSetup,
    config: Config,
    stages: Seq<RunStage>,
    events: Seq<RunEvent>,
    actions: Seq<RunAction>,
)
    requires
        is_run(setup, config, stages, events, actions),
    ensures
        applied_in(actions) + degraded_in(actions) <= 1,
        match stages.last() {
            RunStage::Applying { .. } | RunStage::Saving { .. } | RunStage::Finishing { .. } =>
            applied_in(actions) == 1,
            RunStage::Degrading { .. } | RunStage::FinishingFailed(_) => degraded_in(actions) == 1,
            RunStage::Leaving(o) | RunStage::Ended(o) => match o {
                Outcome::Completed => applied_in(actions) == 1,
                Outcome::Degraded => degraded_in(actions) == 1,
                Outcome::Failed => true,
                _ => applied_in(actions) == 0 && degraded_in(actions) == 0,
            },
            _ => applied_in(actions) == 0 && degraded_in(actions) == 0,
        },
    decreases events.len(),
{
    lemma_counts(actions);
    if events.len() > 0 {
        lemma_prefix(setup, config, stages, events, actions);
        law_taken_turns_are_answered(
            setup,
            config,
            stages.drop_last(),
            events.drop_last(),
            actions.drop_last(),
        );
    }
}

/// How many steps a run can still take.
pub open spec fn steps_ahead(s: RunStage) -> nat {
    match s {
        RunStage::Locking(_) => 16,
        RunStage::Draining(_) => 15,
        RunStage::Loading { .. } => 14,
        RunStage::Starting(_) => 13,
        RunStage::Greeting(_) => 12,
        RunStage::Acking(_) => 11,
        RunStage::Budgeting(_) => 10,
        RunStage::Asking(_) => 9,
        RunStage::AskingFallback { .. } => 8,
        RunStage::Reviewing { .. } => 7,
        RunStage::Filing { .. } => 6,
        RunStage::Applying { .. } => 5,
        RunStage::Saving { .. } => 4,
        RunStage::Degrading { .. } => 4,
        RunStage::Finishing { .. } => 3,
        RunStage::FinishingFailed(_) => 3,
        RunStage::Noting { .. } => 3,
        RunStage::Requeueing => 2,
        RunStage::Leaving(_) => 1,
        RunStage::Ended(_) => 0,
    }
}

/// A run never turns back: every step that is not ignored brings it nearer to
/// its end, and one that ended does nothing more.
pub proof fn law_runs_go_forward(
    setup: RunSetup,
    config: Config,
    stage: RunStage,
    event: RunEvent,
    next: RunStage,
    action: RunAction,
)
    requires
        run_moves(setup, config, stage, event, next, action),
    ensures
        action is Ignore ==> next == stage,
        !(action is Ignore) ==> steps_ahead(next) < steps_ahead(stage),
        stage is Ended ==> action is Ignore,
{
}

/// A conversation whose lock was free is taken under the token that asked for it;
/// one that another run holds comes up again two seconds later, under its own
/// number.
pub proof fn law_a_held_conversation_comes_up_again(
    setup: RunSetup,
    config: Config,
    q: LockRequest,
    set: bool,
    now_ms: i64,
    r: (RunStage, RunAction),
)
    requires
        call_ensures(
            run,
            (&setup, &config, RunStage::Locking(q), RunEvent::LockReply { set, now_ms }),
            r,
        ),
    ensures
        set <==> r.1 is Drain,
        !set <==> r.1 is Requeue,
        r.0 is Draining <==> set,
        r.0 matches RunStage::Draining(g) ==> g.conv_id == q.conv_id && g.token@ == q.token@,
        r.1 matches RunAction::Requeue { member, score } ==> text::parsed_int(member@) == Some(
            q.conv_id as int,
        ) && score == now_ms + 2000,
{
    text::law_numbers_read_back(q.conv_id as int);
}

/// A run without messages or without a conversation gives its lock back and asks
/// no agent; any other takes all messages of the buffer.
pub proof fn law_a_run_needs_words_and_a_conversation(
    setup: RunSetup,
    config: Config,
    lock: LockGuard,
    turn: CollectedTurn,
    messages: Vec<InboundMessage>,
    drained: (RunStage, RunAction),
    unknown: (RunStage, RunAction),
)
    requires
        call_ensures(
            run,
            (&setup, &config, RunStage::Draining(lock), RunEvent::Drained(messages)),
            drained,
        ),
        call_ensures(
            run,
            (&setup, &config, RunStage::Loading { lock, turn }, RunEvent::Loaded(None)),
            unknown,
        ),
    ensures
        messages@.len() == 0 ==> drained.0 == RunStage::Leaving(Outcome::EmptyBuffer)
            && drained.1 == RunAction::Release(lock),
        messages@.len() > 0 ==> drained.1 is LoadState && (drained.0 matches RunStage::Loading {
            lock: l,
            turn: t,
        } && l == lock && t.messages@.len() == messages@.len()),
        unknown.0 == RunStage::Leaving(Outcome::UnknownConversation),
        unknown.1 == RunAction::Release(lock),
{
}

/// The inbound gate decides over a turn: a block is noted under its rule, and
/// what passes is entered as a run of the primary provider over the messages of
/// the turn.
pub proof fn law_the_inbound_gate_decides(
    setup: RunSetup,
    config: Config,
    lock: LockGuard,
    turn: CollectedTurn,
    c: StateColumns,
    r: (RunStage, RunAction),
)
    requires
        call_ensures(
            run,
            (&setup, &config, RunStage::Loading { lock, turn }, RunEvent::Loaded(Some(c))),
            r,
        ),
    ensures
        r.1 is Note || r.1 is InsertRun,
        r.1 matches RunAction::Note(n) ==> n.gate@ == "inbound"@ && n.decision@ == "block"@ && (
        r.0 matches RunStage::Noting { lock: l, rule, reason } && l == lock && n.rule@ == rule@
            && n.detail@ == Json::Object(seq![("reason"@, Json::Str(reason@))])),
        r.1 matches RunAction::InsertRun { provider, reason, message_ids } ==> {
            &&& provider@ == setup.provider@
            &&& setup.job.reason matches Some(s) ==> reason@ == s@
            &&& setup.job.reason is None ==> reason@ == "debounce_expired"@
            &&& message_ids@.len() == turn.messages@.len()
            &&& forall|i: int|
                0 <= i < message_ids@.len() ==> #[trigger] message_ids@[i] == turn.messages@[i].id
            &&& r.0 matches RunStage::Starting(t) && t.lock == lock && t.turn == turn && turn_block(
                t.conv,
                config,
                turn.messages@,
            ) is None && t.conv.account_id == (match c.account_id {
                Some(n) => n,
                None => 0,
            })
        },
{
}

/// A word ahead of the answer is sent exactly where it is due, under the key at
/// which it is looked up, and either way the budget comes next.
pub proof fn law_words_are_sent_when_due(
    setup: RunSetup,
    config: Config,
    t: TakenTurn,
    heard: ContactRecency,
    acked_recently: bool,
    elapsed_ms: u64,
    due: bool,
    key: String,
    ttl: u64,
    found: (RunStage, RunAction),
    r: (RunStage, RunAction),
    sent: (RunStage, RunAction),
    unsent: (RunStage, RunAction),
)
    requires
        call_ensures(should_ack, (&t.conv, &t.turn, heard, acked_recently), due),
        call_ensures(ack_key, (t.lock.conv_id,), key),
        call_ensures(ack_ttl_secs, (config.agent.ack_cooldown_ms,), ttl),
        call_ensures(
            run,
            (&setup, &config, RunStage::Starting(t), RunEvent::Done { elapsed_ms }),
            found,
        ),
        call_ensures(
            run,
            (
                &setup,
                &config,
                RunStage::Greeting(t),
                RunEvent::Heard { recency: heard, acked_recently },
            ),
            r,
        ),
        call_ensures(
            run,
            (&setup, &config, RunStage::Acking(t), RunEvent::Done { elapsed_ms }),
            sent,
        ),
        call_ensures(
            run,
            (&setup, &config, RunStage::Acking(t), RunEvent::Failed { elapsed_ms }),
            unsent,
        ),
    ensures
        found.1 matches RunAction::FindRecency { key: k } && k@ == key@,
        due <==> r.1 is SendAck,
        !due ==> r.0 == RunStage::Budgeting(t) && r.1 is ReadSpent,
        r.1 matches RunAction::SendAck { text: _, key: k, ttl_secs } ==> k@ == key@ && ttl_secs
            == ttl && r.0 == RunStage::Acking(t),
        sent.0 == RunStage::Budgeting(t) && sent.1 is ReadSpent,
        unsent.0 == RunStage::Budgeting(t) && unsent.1 is ReadSpent,
{
}

/// The agent runs only within the budget; beyond it the contact is told, and an
/// attendant takes over.
pub proof fn law_the_budget_comes_first(
    setup: RunSetup,
    config: Config,
    t: TakenTurn,
    spent: Option<F64Bits>,
    step: AgentStep,
    r: (RunStage, RunAction),
)
    requires
        call_ensures(before_run, (spent, config.rate_limits.daily_budget_usd), step),
        call_ensures(run, (&setup, &config, RunStage::Budgeting(t), RunEvent::Spent(spent)), r),
    ensures
        step is RunPrimary ==> r.0 == RunStage::Asking(t) && r.1 is RunPrimary,
        step is Refuse ==> r.1 is Degrade && (r.0 matches RunStage::Degrading { lock, error }
            && lock == t.lock && error is BudgetExceeded),
{
}

/// The fallback is asked where there is one and the primary provider failed, and
/// only there. An answer of either is reviewed; where neither answered, the
/// contact is told, with the error of the one that was asked last.
pub proof fn law_the_fallback_is_asked_after_a_failure(
    setup: RunSetup,
    config: Config,
    t: TakenTurn,
    earlier: AgentError,
    answer: Result<AgentResponse, AgentError>,
    first: (RunStage, RunAction),
    second: (RunStage, RunAction),
)
    requires
        call_ensures(run, (&setup, &config, RunStage::Asking(t), RunEvent::Answered(answer)), first),
        call_ensures(
            run,
            (
                &setup,
                &config,
                RunStage::AskingFallback { taken: t, error: earlier },
                RunEvent::Answered(answer),
            ),
            second,
        ),
    ensures
        answer matches Ok(x) ==> first.1 is ReadLastText && second.1 is ReadLastText && first.0
            == second.0 && first.0 == (RunStage::Reviewing {
            lock: t.lock,
            conv: t.conv,
            response: x,
        }),
        first.1 is RunFallback <==> answer is Err && setup.has_fallback,
        first.1 is Degrade <==> answer is Err && !setup.has_fallback,
        answer matches Err(e) ==> second.1 is Degrade && second.0 == (RunStage::Degrading {
            lock: t.lock,
            error: e,
        }),
{
}

/// An answer that was reviewed goes to the help desk, whether or not the review
/// was noted and whether or not the note could be written.
pub proof fn law_reviewed_answers_are_applied(
    setup: RunSetup,
    config: Config,
    lock: LockGuard,
    conv: ConversationState,
    response: AgentResponse,
    reviewed: ReviewedResponse,
    last: Option<String>,
    elapsed_ms: u64,
    r: (RunStage, RunAction),
    noted: (RunStage, RunAction),
    unnoted: (RunStage, RunAction),
)
    requires
        regex_compiles(PII_PATTERN@),
        call_ensures(
            run,
            (
                &setup,
                &config,
                RunStage::Reviewing { lock, conv, response },
                RunEvent::LastText(last),
            ),
            r,
        ),
        call_ensures(
            run,
            (
                &setup,
                &config,
                RunStage::Filing { lock, conv, reviewed },
                RunEvent::Done { elapsed_ms },
            ),
            noted,
        ),
        call_ensures(
            run,
            (
                &setup,
                &config,
                RunStage::Filing { lock, conv, reviewed },
                RunEvent::Failed { elapsed_ms },
            ),
            unnoted,
        ),
    ensures
        r.1 is Apply || r.1 is Note,
        r.1 is Apply ==> (r.0 matches RunStage::Applying { lock: l, conv: c, reviewed: x } && l
            == lock && c == conv && !x.blocked && x.modifications@.len() == 0),
        r.1 matches RunAction::Note(n) ==> n.gate@ == "outbound"@ && (r.0 matches RunStage::Filing {
            lock: l,
            conv: c,
            reviewed: x,
        } && l == lock && c == conv && (x.blocked || x.modifications@.len() > 0) && (x.blocked
            ==> n.decision@ == "block"@) && (!x.blocked ==> n.decision@ == "modify"@)),
        noted.1 is Apply && noted.0 == (RunStage::Applying { lock, conv, reviewed }),
        unnoted.1 is Apply && unnoted.0 == (RunStage::Applying { lock, conv, reviewed }),
{
}

/// A run that answered is saved, closed as it was planned, and gives its lock
/// back; one whose agents failed is closed as failed, under the name of the
/// error, and gives its lock back too.
pub proof fn law_runs_are_closed(
    setup: RunSetup,
    config: Config,
    lock: LockGuard,
    conv: ConversationState,
    reviewed: ReviewedResponse,
    plan: FinalizePlan,
    error: AgentError,
    elapsed_ms: u64,
    kind: &'static str,
    applied: (RunStage, RunAction),
    saved: (RunStage, RunAction),
    finished: (RunStage, RunAction),
    degraded: (RunStage, RunAction),
    ended: (RunStage, RunAction),
)
    requires
        call_ensures(agent_err_kind, (&error,), kind),
        call_ensures(
            run,
            (
                &setup,
                &config,
                RunStage::Applying { lock, conv, reviewed },
                RunEvent::Done { elapsed_ms },
            ),
            applied,
        ),
        call_ensures(
            run,
            (&setup, &config, RunStage::Saving { lock, plan }, RunEvent::Done { elapsed_ms }),
            saved,
        ),
        call_ensures(
            run,
            (&setup, &config, RunStage::Finishing { lock, plan }, RunEvent::Done { elapsed_ms }),
            finished,
        ),
        call_ensures(
            run,
            (&setup, &config, RunStage::Degrading { lock, error }, RunEvent::Done { elapsed_ms }),
            degraded,
        ),
        call_ensures(
            run,
            (&setup, &config, RunStage::FinishingFailed(lock), RunEvent::Done { elapsed_ms }),
            ended,
        ),
    ensures
        applied.1 is SaveState && (applied.0 matches RunStage::Saving { lock: l, plan: p } && l
            == lock && p.run_status@ == "succeeded"@ && p.ai_state is AiActive
            && p.prior_ai_turns_in_row == 1),
        saved.0 == (RunStage::Finishing { lock, plan }),
        saved.1 matches RunAction::FinishRun(e) && e.status@ == plan.run_status@
            && e.error_kind is None && e.latency_ms == plan.latency_ms,
        finished.0 == RunStage::Leaving(Outcome::Completed),
        finished.1 == RunAction::Release(lock),
        degraded.0 == RunStage::FinishingFailed(lock),
        degraded.1 matches RunAction::FinishRun(e) && e.status@ == "failed"@ && (
        e.error_kind matches Some(k) && k@ == kind@) && (elapsed_ms <= i32::MAX ==> e.latency_ms
            == elapsed_ms),
        ended.0 == RunStage::Leaving(Outcome::Degraded),
        ended.1 == RunAction::Release(lock),
{
    crate::worker::finalize::law_a_run_ends_active(conv.ai_state);
}

/// Whether a stage waits for something that a run can do without: a note, the
/// row of the run, a courtesy, or the release of a lock that runs out by itself.
pub open spec fn can_do_without(s: RunStage) -> bool {
    s is Noting || s is Starting || s is Greeting || s is Acking || s is Filing
        || s is FinishingFailed || s is Leaving
}

/// What is only a note or a courtesy may fail: the run goes on as if it had been
/// done. Where the lock, the buffer, the row of the conversation or the calls on
/// the help desk fail, the run fails.
pub proof fn law_courtesies_may_fail(
    setup: RunSetup,
    config: Config,
    stage: RunStage,
    elapsed_ms: u64,
    failed: (RunStage, RunAction),
    done: (RunStage, RunAction),
)
    requires
        call_ensures(run, (&setup, &config, stage, RunEvent::Failed { elapsed_ms }), failed),
        call_ensures(run, (&setup, &config, stage, RunEvent::Done { elapsed_ms }), done),
    ensures
        can_do_without(stage) && !(stage is Greeting) ==> failed.0 == done.0,
        stage is Greeting ==> failed.0 is Budgeting && failed.1 is ReadSpent,
        stage is Locking || stage is Requeueing || stage is Draining || stage is Loading
            || stage is Degrading || stage is Applying ==> failed.0 == RunStage::Ended(
            Outcome::Failed,
        ) && failed.1 is Stop,
        stage is Saving || stage is Finishing ==> failed.0 == RunStage::Leaving(Outcome::Failed)
            && failed.1 is Release,
{
}

/// A turn that the inbound gate lets through becomes the request for that turn,
/// and one that it blocks becomes none.
pub proof fn law_turns_become_requests(
    config: Config,
    run_id: RunId,
    conv_id: ConversationId,
    state: ConversationState,
    turn: CollectedTurn,
    why: Option<&str>,
    request: AgentRequest,
    decision: GateDecision,
    r: TurnPlan,
)
    requires
        call_ensures(
            build_agent_request,
            (&config, run_id, conv_id, &state, &turn, why),
            request,
        ),
        call_ensures(inbound_gate::evaluate, (&state, &config, &turn.messages), Ok(decision)),
        call_ensures(plan_turn, (&config, run_id, conv_id, &state, &turn, why), r),
    ensures
        r is Blocked <==> decision is Block,
        r matches TurnPlan::Blocked { rule, reason } ==> (decision matches GateDecision::Block {
            rule: x,
            reason: y,
        } && rule@ == x@ && reason@ == y@),
        r matches TurnPlan::Run(q) ==> {
            &&& q.run_id == request.run_id && q.session_key@ == request.session_key@
            &&& opt_text(q.agent_id) == opt_text(request.agent_id)
            &&& messages_of(q.turn@) == messages_of(request.turn@)
            &&& q.context.conversation_id == request.context.conversation_id
            &&& q.context.inbox_channel@ == request.context.inbox_channel@
            &&& q.allowed_actions@ == request.allowed_actions@
            &&& q.deadline_ms == request.deadline_ms
            &&& q.max_output_chars == request.max_output_chars
            &&& q.locale@ == request.locale@
        },
{
}

/// A failed run is closed with the name of its error and with the time it took.
pub proof fn law_failed_runs_are_closed_by_kind(e: AgentError, elapsed_ms: u64, r: RunEnd)
    requires
        call_ensures(failed_run, (&e, elapsed_ms), r),
    ensures
        r.status@ == "failed"@,
        e is Timeout ==> text::opt_str(r.error_kind) == Some("timeout"@),
        e is RateLimited ==> text::opt_str(r.error_kind) == Some("rate_limited"@),
        e is AuthError ==> text::opt_str(r.error_kind) == Some("auth"@),
        e is BudgetExceeded ==> text::opt_str(r.error_kind) == Some("budget_exceeded"@),
        e is ProviderError ==> text::opt_str(r.error_kind) == Some("provider_error"@),
        e is InvalidResponse ==> text::opt_str(r.error_kind) == Some("invalid_response"@),
        elapsed_ms <= i32::MAX ==> r.latency_ms == elapsed_ms,
{
}

/// A run begins by asking for the lock of its conversation.
pub proof fn law_runs_begin_with_the_lock(setup: RunSetup, r: RunStage)
    requires
        call_ensures(begin, (&setup,), r),
    ensures
        r matches RunStage::Locking(q) && q.conv_id == setup.job.conversation_id && q.key@
            == "lock:conv:"@ + int_text(setup.job.conversation_id as int) && q.ttl_ms == 90000
            && q.token@.len() == 36 && q.token@[14] == '7',
{
}

} // verus!
