//! Reading the structured answer of a model.
use crate::ids::{hyphenated, RunId};
use crate::json::{jsons, member, string_in, F64Bits, Json, JsonValue};
use crate::model::agent::{Action, AgentResponse, HandoffInfo, Reply, Usage};
use crate::text;
use crate::text::trimmed;
use vstd::prelude::*;

verus! {

/// The answer as the model gives it. What the model left out has its neutral
/// value.
#[derive(Debug, Clone)]
pub struct ModelEnvelope {
    pub reply: Option<Reply>,
    pub actions: Vec<Action>,
    pub handoff: HandoffInfo,
    pub confidence: F64Bits,
    pub usage: Option<Usage>,
    pub provider_session_id: Option<String>,
}

impl Default for ModelEnvelope {
    fn default() -> (r: Self)
        ensures
            r.reply is None,
            r.actions@.len() == 0,
            !r.handoff.required,
            r.handoff.reason is None,
            r.handoff.target is None,
            r.confidence.bits == 0,
            r.usage is None,
            r.provider_session_id is None,
    {
        ModelEnvelope {
            reply: None,
            actions: Vec::new(),
            handoff: HandoffInfo { required: false, reason: None, target: None },
            confidence: F64Bits { bits: 0 },
            usage: None,
            provider_session_id: None,
        }
    }
}

/// Whether a response is the one for the text of a model, of which `envelope` is
/// the structured form (`None` where it has none). Loose text becomes a reply of
/// no confidence.
pub open spec fn response_for(
    r: AgentResponse,
    text: Seq<char>,
    envelope: Option<ModelEnvelope>,
    run_id: RunId,
) -> bool {
    &&& r.run_id is Some
    &&& r.run_id->Some_0@ == hyphenated(run_id.0 as int)
    &&& r.result is None
    &&& r.summary_for_supervisor is None
    &&& match envelope {
        Some(e) => r.reply == e.reply && r.actions == e.actions && r.handoff == e.handoff
            && r.confidence == e.confidence && r.usage == e.usage && r.provider_session_id
            == e.provider_session_id,
        None => {
            &&& r.reply is Some
            &&& r.reply->Some_0.text@ == trimmed(text)
            &&& r.reply->Some_0.content_type is Some
            &&& r.reply->Some_0.content_type->Some_0@ == "text"@
            &&& r.actions@.len() == 0
            &&& !r.handoff.required
            &&& r.handoff.reason is None
            &&& r.handoff.target is None
            &&& r.confidence.bits == 0
            &&& r.usage is Some
            &&& r.usage->Some_0.input_tokens == 0
            &&& r.usage->Some_0.output_tokens == 0
            &&& r.usage->Some_0.cost_usd.bits == 0
            &&& r.provider_session_id is None
        },
    }
}

/// The response for the text of a model. `envelope` is the trimmed text read as
/// a structured answer, `None` where it is not one.
pub fn parse_envelope(text: &str, envelope: Option<ModelEnvelope>, run_id: RunId) -> (r:
    AgentResponse)
    ensures
        response_for(r, text@, envelope, run_id),
{
    let shown = run_id.to_string();
    match envelope {
        Some(e) => AgentResponse {
            run_id: Some(shown),
            reply: e.reply,
            actions: e.actions,
            handoff: e.handoff,
            confidence: e.confidence,
            usage: e.usage,
            provider_session_id: e.provider_session_id,
            result: None,
            summary_for_supervisor: None,
        },
        None => AgentResponse {
            run_id: Some(shown),
            reply: Some(
                Reply { text: text::trim(text), content_type: Some("text".to_string()) },
            ),
            actions: Vec::new(),
            handoff: HandoffInfo::default(),
            confidence: F64Bits { bits: 0 },
            usage: Some(Usage::default()),
            provider_session_id: None,
            result: None,
            summary_for_supervisor: None,
        },
    }
}

/// `acc`, then `t` on a new line where `acc` is not empty.
pub open spec fn on_new_line(acc: Seq<char>, t: Seq<char>) -> Seq<char> {
    if acc.len() == 0 {
        t
    } else {
        acc + "\n"@ + t
    }
}

/// The texts of the blocks that have one, on lines of their own.
pub open spec fn block_texts(blocks: Seq<Json>) -> Seq<char>
    decreases blocks.len(),
{
    if blocks.len() == 0 {
        ""@
    } else {
        let acc = block_texts(blocks.drop_last());
        match string_in(member(blocks.last(), "text"@)) {
            Some(t) => on_new_line(acc, t),
            None => acc,
        }
    }
}

/// Appends `t` on a new line where `out` is not empty.
pub fn push_line(out: &mut String, t: &str)
    ensures
        final(out)@ == on_new_line(old(out)@, t@),
{
    let ghost start = out@;
    if out.as_str().is_empty() {
        out.append(t);
        assert(start + t@ =~= t@);
    } else {
        out.append("\n");
        out.append(t);
    }
}

/// The texts of the blocks that have one, on lines of their own.
pub fn join_content_text(content: &Vec<JsonValue>) -> (r: String)
    ensures
        r@ == block_texts(jsons(content@)),
{
    let ghost all = jsons(content@);
    let mut out = "".to_string();
    let mut i: usize = 0;
    while i < content.len()
        invariant
            i <= content@.len(),
            all == jsons(content@),
            out@ == block_texts(all.take(i as int)),
        decreases content@.len() - i,
    {
        assert(all.take(i as int + 1).drop_last() =~= all.take(i as int));
        assert(all.take(i as int + 1).last() == content@[i as int]@);
        if let Some(t) = content[i].get_str("text") {
            push_line(&mut out, t);
        }
        i += 1;
    }
    assert(all.take(i as int) =~= all);
    out
}

// ---------------------------------------------------------------------------
// Laws
// ---------------------------------------------------------------------------

/// What the model answered is what the response says: reply, actions, hand-off,
/// confidence, tokens and session, each from its own place, under the id of the
/// run.
pub proof fn law_structured_answers_are_taken_over(
    text: &str,
    e: ModelEnvelope,
    run_id: RunId,
    shown: String,
    r: AgentResponse,
)
    requires
        call_ensures(RunId::to_string, (&run_id,), shown),
        call_ensures(parse_envelope, (text, Some(e), run_id), r),
    ensures
        r.run_id matches Some(id) && id@ == shown@,
        r.reply == e.reply,
        r.actions == e.actions,
        r.handoff == e.handoff,
        r.confidence == e.confidence,
        r.usage == e.usage,
        r.provider_session_id == e.provider_session_id,
{
}

/// A model that answers with loose text has said that text, without the white
/// space around it, and nothing else: it asks for no action and no attendant,
/// and there is no confidence in it.
pub proof fn law_loose_text_becomes_a_reply(
    text: &str,
    run_id: RunId,
    shown: String,
    r: AgentResponse,
)
    requires
        call_ensures(RunId::to_string, (&run_id,), shown),
        call_ensures(parse_envelope, (text, None, run_id), r),
    ensures
        r.run_id matches Some(id) && id@ == shown@,
        r.reply matches Some(x) && x.text@ == trimmed(text@),
        r.actions@.len() == 0,
        !r.handoff.required,
        r.confidence.bits == 0,
        r.usage matches Some(u) && u.input_tokens == 0 && u.output_tokens == 0,
        r.provider_session_id is None,
{
}

/// The texts of the blocks stand one below the other: a block more adds its text
/// on a new line, and one without a text adds nothing.
pub proof fn law_block_texts_stand_on_lines(
    content: Vec<JsonValue>,
    longer: Vec<JsonValue>,
    block: JsonValue,
    a: String,
    b: String,
)
    requires
        longer@ == content@.push(block),
        call_ensures(join_content_text, (&content,), a),
        call_ensures(join_content_text, (&longer,), b),
    ensures
        string_in(member(block@, "text"@)) is None ==> b@ == a@,
        string_in(member(block@, "text"@)) matches Some(t) ==> b@ == if a@.len() == 0 {
            t
        } else {
            a@ + "\n"@ + t
        },
        content@.len() == 0 ==> a@.len() == 0,
{
    reveal_strlit("");
    let x = jsons(content@);
    let y = jsons(longer@);
    assert(y.drop_last() =~= x);
    assert(y.last() == block@);
    assert(x.len() == content@.len());
}

/// Loose text is plain text, and a model that left everything out has said
/// nothing.
pub proof fn law_what_a_model_leaves_out(
    text: &str,
    run_id: RunId,
    r: AgentResponse,
    e: ModelEnvelope,
)
    requires
        call_ensures(parse_envelope, (text, None, run_id), r),
        call_ensures(ModelEnvelope::default, (), e),
    ensures
        r.reply matches Some(x) && (x.content_type matches Some(t) && t@ == "text"@),
        r.usage matches Some(u) && u.cost_usd.bits == 0,
        r.handoff.reason is None && r.handoff.target is None,
        r.result is None && r.summary_for_supervisor is None,
        e.reply is None && e.actions@.len() == 0 && !e.handoff.required,
        e.handoff.reason is None && e.handoff.target is None,
        e.confidence.bits == 0 && e.usage is None && e.provider_session_id is None,
{
}

} // verus!
