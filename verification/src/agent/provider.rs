//! The dialects of the providers: what is sent, and how the reply is read.
//!
//! The program sends an [`HttpCall`] and hands back status and body; JSON is
//! read on its side and comes in as a value.
use crate::agent::envelope::{
    block_texts, join_content_text, on_new_line, parse_envelope, push_line, response_for,
    ModelEnvelope,
};
use crate::agent::prompt::{build_system_prompt, build_user_message, system_prompt, user_message};
use crate::config::Config;
use crate::error::AgentError;
use crate::http::{headers_of, push_header, HttpCall};
use crate::ids::RunId;
use crate::json::{
    array_in, jsons, lemma_array, lemma_object, member, members, push_member, string_in, u64_in,
    F64Bits, Json, JsonValue,
};
use crate::model::agent::{AgentRequest, AgentResponse, Usage};
use crate::secrets::SecretString;
use crate::text;
use crate::text::{decimal, opt_str, opt_text};
use crate::weburl;
use crate::weburl::{url_joined, url_parsed};
use vstd::prelude::*;

verus! {

/// Shortest time that a provider gets, in milliseconds.
pub const MIN_TIMEOUT_MS: u64 = 1000;

/// The time a provider gets for a request.
pub open spec fn timeout_of(deadline_ms: u64) -> u64 {
    if deadline_ms < MIN_TIMEOUT_MS {
        MIN_TIMEOUT_MS
    } else {
        deadline_ms
    }
}

// ---------------------------------------------------------------------------
// Errors
// ---------------------------------------------------------------------------

/// The text for a reply of the given status.
pub open spec fn http_text(status: u16, body: Seq<char>) -> Seq<char> {
    "http "@ + decimal(status as nat) + ": "@ + body
}

/// The error that a status stands for: authorization, time, rate; a failure of
/// the provider for 5xx; an invalid response for the rest.
pub fn classify_err(status: u16, body: &str) -> (r: AgentError)
    ensures
        status == 401 || status == 403 <==> r is AuthError,
        status == 408 <==> r is Timeout,
        status == 429 <==> r is RateLimited,
        500 <= status < 600 <==> r is ProviderError,
        r matches AgentError::ProviderError(m) ==> m@ == http_text(status, body@),
        r matches AgentError::InvalidResponse(m) ==> m@ == http_text(status, body@),
        !(r is BudgetExceeded),
{
    if status == 401 || status == 403 {
        return AgentError::AuthError;
    }
    if status == 408 {
        return AgentError::Timeout;
    }
    if status == 429 {
        return AgentError::RateLimited;
    }
    let mut m = "http ".to_string();
    m.append(text::u64_text(status as u64).as_str());
    m.append(": ");
    m.append(body);
    if 500 <= status && status < 600 {
        AgentError::ProviderError(m)
    } else {
        AgentError::InvalidResponse(m)
    }
}

/// Whether the reply of a provider can be read: only a status of 200 can.
pub fn check_status(status: u16, body: &str) -> (r: Result<(), AgentError>)
    ensures
        r is Ok <==> status == 200,
        r matches Err(e) ==> {
            &&& status == 401 || status == 403 <==> e is AuthError
            &&& status == 408 <==> e is Timeout
            &&& status == 429 <==> e is RateLimited
            &&& 500 <= status < 600 <==> e is ProviderError
            &&& (e matches AgentError::ProviderError(m) ==> m@ == http_text(status, body@))
            &&& (e matches AgentError::InvalidResponse(m) ==> m@ == http_text(status, body@))
            &&& !(e is BudgetExceeded)
        },
{
    if status != 200 {
        Err(classify_err(status, body))
    } else {
        Ok(())
    }
}

/// The error of a request that never got a reply.
pub fn transport_error(timed_out: bool, error: &str) -> (r: AgentError)
    ensures
        timed_out <==> r is Timeout,
        !timed_out ==> (r matches AgentError::ProviderError(m) && m@ == "transport: "@ + error@),
{
    if timed_out {
        AgentError::Timeout
    } else {
        AgentError::ProviderError("transport: ".to_string().concat(error))
    }
}

/// The error of a reply that is not JSON.
pub fn bad_json(error: &str) -> (r: AgentError)
    ensures
        r matches AgentError::InvalidResponse(m) && m@ == "bad json: "@ + error@,
{
    AgentError::InvalidResponse("bad json: ".to_string().concat(error))
}

/// Whether a provider is up: any reply below 500 will do.
pub fn health_status(status: u16) -> (r: Result<(), AgentError>)
    ensures
        match r {
            Ok(_) => status < 500,
            Err(e) => status >= 500 && e is ProviderError && e->ProviderError_0@ == "health http "@
                + decimal(status as nat),
        },
{
    if status >= 500 {
        let n = text::u64_text(status as u64);
        Err(AgentError::ProviderError("health http ".to_string().concat(n.as_str())))
    } else {
        Ok(())
    }
}

// ---------------------------------------------------------------------------
// OpenResponses
// ---------------------------------------------------------------------------

/// A provider that speaks the OpenResponses dialect.
#[derive(Debug, Clone)]
pub struct OpenResponsesProvider {
    /// `"openclaw"` or `"hermes"`.
    pub id: &'static str,
    /// The address of the gateway, in its normal form.
    pub base_url: String,
    pub token: SecretString,
    pub default_agent_id: Option<String>,
    pub session_header: String,
    pub agent_header: String,
    pub model_alias: String,
}

/// The body of a request in the OpenResponses dialect.
pub open spec fn responses_body(
    model: Seq<char>,
    instructions: Seq<char>,
    user: Seq<char>,
    session: Seq<char>,
) -> Json {
    Json::Object(
        seq![
            ("model"@, Json::Str(model)),
            ("instructions"@, Json::Str(instructions)),
            (
                "input"@,
                Json::Array(
                    seq![
                        Json::Object(
                            seq![("role"@, Json::Str("user"@)), ("content"@, Json::Str(user))],
                        ),
                    ],
                ),
            ),
            ("tools"@, Json::Array(Seq::empty())),
            ("stream"@, Json::Bool(false)),
            ("max_output_tokens"@, Json::Int(600)),
            ("user"@, Json::Str(session)),
        ],
    )
}

/// A list with one message of the user.
fn one_user_message(content: String) -> (r: JsonValue)
    ensures
        r@ == Json::Array(
            seq![
                Json::Object(
                    seq![("role"@, Json::Str("user"@)), ("content"@, Json::Str(content@))],
                ),
            ],
        ),
{
    let mut m: Vec<(String, JsonValue)> = Vec::new();
    let ghost c = content@;
    assert(members(m@) =~= Seq::<(Seq<char>, Json)>::empty());
    push_member(&mut m, "role", JsonValue::Str("user".to_string()));
    push_member(&mut m, "content", JsonValue::Str(content));
    let mut v: Vec<JsonValue> = Vec::new();
    proof {
        lemma_object(m);
        assert(members(m@) =~= seq![("role"@, Json::Str("user"@)), ("content"@, Json::Str(c))]);
    }
    v.push(JsonValue::Object(m));
    proof {
        lemma_array(v);
        assert(jsons(v@) =~= seq![
            Json::Object(seq![("role"@, Json::Str("user"@)), ("content"@, Json::Str(c))]),
        ]);
    }
    JsonValue::Array(v)
}

fn empty_array() -> (r: JsonValue)
    ensures
        r@ == Json::Array(Seq::empty()),
{
    let v: Vec<JsonValue> = Vec::new();
    proof {
        lemma_array(v);
        assert(jsons(v@) =~= Seq::<Json>::empty());
    }
    JsonValue::Array(v)
}

/// The text of a reply in the OpenResponses dialect: `output_text`, else the
/// texts of all contents of `output`.
pub open spec fn responses_text(v: Json) -> Seq<char> {
    match string_in(member(v, "output_text"@)) {
        Some(t) => t,
        None => match array_in(member(v, "output"@)) {
            Some(items) => output_texts(items),
            None => ""@,
        },
    }
}

/// The texts of the contents of a list of items.
pub open spec fn output_texts(items: Seq<Json>) -> Seq<char>
    decreases items.len(),
{
    if items.len() == 0 {
        ""@
    } else {
        let acc = output_texts(items.drop_last());
        match array_in(member(items.last(), "content"@)) {
            Some(content) => on_new_line(acc, block_texts(content)),
            None => acc,
        }
    }
}

fn output_text(items: &Vec<JsonValue>) -> (r: String)
    ensures
        r@ == output_texts(jsons(items@)),
{
    let ghost all = jsons(items@);
    let mut out = "".to_string();
    let mut i: usize = 0;
    while i < items.len()
        invariant
            i <= items@.len(),
            all == jsons(items@),
            out@ == output_texts(all.take(i as int)),
        decreases items@.len() - i,
    {
        assert(all.take(i as int + 1).drop_last() =~= all.take(i as int));
        assert(all.take(i as int + 1).last() == items@[i as int]@);
        if let Some(c) = items[i].get("content") {
            if let Some(content) = c.as_array() {
                let t = join_content_text(content);
                push_line(&mut out, t.as_str());
            }
        }
        i += 1;
    }
    assert(all.take(i as int) =~= all);
    out
}

/// The text of a reply, and the session that the provider opened.
#[derive(Debug, Clone)]
pub struct ProviderOutput {
    pub text: String,
    pub session: Option<String>,
}

impl OpenResponsesProvider {
    /// A provider for the gateway at `base_url`, which must be an address;
    /// [`OpenResponsesProvider::try_new`] tests that.
    pub fn new(
        id: &'static str,
        base_url: &str,
        token: &str,
        default_agent_id: Option<String>,
        session_header: &str,
        agent_header: &str,
        model_alias: &str,
    ) -> (r: Self)
        requires
            url_parsed(base_url@) is Ok,
        ensures
            r.id == id,
            r.base_url@ == url_parsed(base_url@)->Ok_0,
            r.token@ == token@,
            r.default_agent_id == default_agent_id,
            r.session_header@ == session_header@,
            r.agent_header@ == agent_header@,
            r.model_alias@ == model_alias@,
    {
        let base = match weburl::parse(base_url) {
            Ok(s) => s,
            Err(e) => e,
        };
        OpenResponsesProvider {
            id,
            base_url: base,
            token: SecretString::new(token.to_string()),
            default_agent_id,
            session_header: session_header.to_string(),
            agent_header: agent_header.to_string(),
            model_alias: model_alias.to_string(),
        }
    }

    /// A provider for the gateway at `base_url`; `None` where that is no
    /// address.
    pub fn try_new(
        id: &'static str,
        base_url: &str,
        token: &str,
        default_agent_id: Option<String>,
        session_header: &str,
        agent_header: &str,
        model_alias: &str,
    ) -> (r: Option<Self>)
        ensures
            r is Some <==> url_parsed(base_url@) is Ok,
            r matches Some(p) ==> {
                &&& p.id == id
                &&& p.base_url@ == url_parsed(base_url@)->Ok_0
                &&& p.token@ == token@
                &&& p.default_agent_id == default_agent_id
                &&& p.session_header@ == session_header@
                &&& p.agent_header@ == agent_header@
                &&& p.model_alias@ == model_alias@
            },
    {
        if weburl::parse(base_url).is_ok() {
            Some(
                OpenResponsesProvider::new(
                    id,
                    base_url,
                    token,
                    default_agent_id,
                    session_header,
                    agent_header,
                    model_alias,
                ),
            )
        } else {
            None
        }
    }

    /// The agent to ask: that of the request, else that of the provider.
    pub fn resolve_agent_id(&self, req: &AgentRequest) -> (r: Option<String>)
        ensures
            opt_text(r) == (match req.agent_id {
                Some(s) => Some(s@),
                None => opt_text(self.default_agent_id),
            }),
    {
        match &req.agent_id {
            Some(s) => Some(s.clone()),
            None => text::copy_opt(&self.default_agent_id),
        }
    }

    /// The headers of a request.
    pub open spec fn headers(self, session: Seq<char>, agent: Option<Seq<char>>) -> Seq<
        (Seq<char>, Seq<char>),
    > {
        let base = seq![
            ("authorization"@, "Bearer "@ + self.token@),
            (self.session_header@, session),
        ];
        match agent {
            Some(a) => base.push((self.agent_header@, a)),
            None => base,
        }
    }

    /// The request for a turn, given the address to send it to.
    pub fn request_to(&self, url: String, req: &AgentRequest) -> (r: HttpCall)
        ensures
            r.url == url,
            r.timeout_ms == timeout_of(req.deadline_ms),
            headers_of(r.headers@) == self.headers(
                req.session_key@,
                match req.agent_id {
                    Some(s) => Some(s@),
                    None => opt_text(self.default_agent_id),
                },
            ),
            r.body@ == responses_body(
                self.model_alias@,
                system_prompt(req.context),
                user_message(req.turn@),
                req.session_key@,
            ),
    {
        let instructions = build_system_prompt(&req.context);
        let user = build_user_message(&req.context, &req.turn);
        let ghost i = instructions@;
        let ghost u = user@;
        let mut m: Vec<(String, JsonValue)> = Vec::new();
        assert(members(m@) =~= Seq::<(Seq<char>, Json)>::empty());
        push_member(&mut m, "model", JsonValue::Str(self.model_alias.clone()));
        push_member(&mut m, "instructions", JsonValue::Str(instructions));
        push_member(&mut m, "input", one_user_message(user));
        push_member(&mut m, "tools", empty_array());
        push_member(&mut m, "stream", JsonValue::Bool(false));
        push_member(&mut m, "max_output_tokens", JsonValue::PosInt(600));
        push_member(&mut m, "user", JsonValue::Str(req.session_key.clone()));
        proof {
            lemma_object(m);
            assert(members(m@) =~= responses_body(
                self.model_alias@,
                i,
                u,
                req.session_key@,
            )->Object_0);
        }
        let mut headers: Vec<(String, String)> = Vec::new();
        assert(headers_of(headers@) =~= Seq::<(Seq<char>, Seq<char>)>::empty());
        let bearer = "Bearer ".to_string().concat(self.token.expose());
        push_header(&mut headers, "authorization", bearer.as_str());
        push_header(&mut headers, self.session_header.as_str(), req.session_key.as_str());
        let agent = self.resolve_agent_id(req);
        if let Some(a) = &agent {
            push_header(&mut headers, self.agent_header.as_str(), a.as_str());
        }
        proof {
            assert(headers_of(headers@) =~= self.headers(req.session_key@, opt_text(agent)));
        }
        let timeout_ms: u64 = if req.deadline_ms < MIN_TIMEOUT_MS {
            MIN_TIMEOUT_MS
        } else {
            req.deadline_ms
        };
        HttpCall { url, timeout_ms, headers, body: JsonValue::Object(m) }
    }

    /// The request for a turn.
    pub fn request(&self, req: &AgentRequest) -> (r: Result<HttpCall, AgentError>)
        ensures
            match r {
                Ok(c) => url_joined(self.base_url@, "v1/responses"@) == Ok::<
                    Seq<char>,
                    Seq<char>,
                >(c.url@) && c.timeout_ms == timeout_of(req.deadline_ms) && headers_of(c.headers@)
                    == self.headers(
                    req.session_key@,
                    match req.agent_id {
                        Some(s) => Some(s@),
                        None => opt_text(self.default_agent_id),
                    },
                ) && c.body@ == responses_body(
                    self.model_alias@,
                    system_prompt(req.context),
                    user_message(req.turn@),
                    req.session_key@,
                ),
                Err(e) => url_joined(self.base_url@, "v1/responses"@) is Err && e is ProviderError
                    && e->ProviderError_0@ == "bad base_url: "@ + url_joined(
                    self.base_url@,
                    "v1/responses"@,
                )->Err_0,
            },
    {
        match weburl::join(self.base_url.as_str(), "v1/responses") {
            Ok(url) => Ok(self.request_to(url, req)),
            Err(e) => Err(
                AgentError::ProviderError("bad base_url: ".to_string().concat(e.as_str())),
            ),
        }
    }

    /// What a reply holds. An empty text is an error.
    pub fn output(v: &JsonValue) -> (r: Result<ProviderOutput, AgentError>)
        ensures
            match r {
                Ok(o) => responses_text(v@).len() > 0 && o.text@ == responses_text(v@) && opt_text(
                    o.session,
                ) == string_in(member(v@, "id"@)),
                Err(e) => responses_text(v@).len() == 0 && e is InvalidResponse
                    && e->InvalidResponse_0@ == "empty output_text"@,
            },
    {
        let session = match v.get_str("id") {
            Some(s) => Some(s.to_string()),
            None => None,
        };
        let text = match v.get_str("output_text") {
            Some(s) => s.to_string(),
            None => match v.get("output") {
                Some(o) => match o.as_array() {
                    Some(items) => output_text(items),
                    None => "".to_string(),
                },
                None => "".to_string(),
            },
        };
        proof {
            reveal_strlit("");
        }
        if text.as_str().is_empty() {
            Err(AgentError::InvalidResponse("empty output_text".to_string()))
        } else {
            Ok(ProviderOutput { text, session })
        }
    }

    /// The response of the agent: what the model said, with the provider's
    /// session where the model named none.
    pub fn answer(output: ProviderOutput, envelope: Option<ModelEnvelope>, run_id: RunId) -> (r:
        AgentResponse)
        ensures
            exists|base: AgentResponse| #[trigger]
                response_for(base, output.text@, envelope, run_id) && (r
                    == AgentResponse {
                    provider_session_id: if base.provider_session_id is None {
                        output.session
                    } else {
                        base.provider_session_id
                    },
                    ..base
                }),
    {
        let mut r = parse_envelope(output.text.as_str(), envelope, run_id);
        let ghost base = r;
        if r.provider_session_id.is_none() {
            r.provider_session_id = output.session;
        }
        assert(response_for(base, output.text@, envelope, run_id));
        r
    }
}

// ---------------------------------------------------------------------------
// Anthropic
// ---------------------------------------------------------------------------

/// A provider that speaks the Messages API.
#[derive(Debug, Clone)]
pub struct AnthropicProvider {
    pub api_key: SecretString,
    pub model: String,
}

/// The body of a request in the Messages dialect.
pub open spec fn messages_body(model: Seq<char>, system: Seq<char>, user: Seq<char>) -> Json {
    Json::Object(
        seq![
            ("model"@, Json::Str(model)),
            ("max_tokens"@, Json::Int(600)),
            ("temperature"@, Json::Float(0x3FD3333333333333)),
            ("system"@, Json::Str(system)),
            (
                "messages"@,
                Json::Array(
                    seq![
                        Json::Object(
                            seq![("role"@, Json::Str("user"@)), ("content"@, Json::Str(user))],
                        ),
                    ],
                ),
            ),
            ("tools"@, Json::Array(Seq::empty())),
        ],
    )
}

/// The tokens that a reply in the Messages dialect reports.
pub open spec fn reported_usage(v: Json) -> Option<(u32, u32)> {
    match member(v, "usage"@) {
        Some(u) => Some(
            (
                token_count(u64_in(member(u, "input_tokens"@))),
                token_count(u64_in(member(u, "output_tokens"@))),
            ),
        ),
        None => None,
    }
}

/// A count of tokens, kept in 32 bits; 0 where it is absent.
pub open spec fn token_count(n: Option<int>) -> u32 {
    match n {
        Some(x) => (x as u64) as u32,
        None => 0,
    }
}

/// Whether a usage says nothing.
pub open spec fn no_usage(u: Option<Usage>) -> bool {
    match u {
        Some(x) => x.input_tokens == 0 && x.output_tokens == 0,
        None => true,
    }
}

fn tokens(u: &JsonValue, key: &str) -> (r: u32)
    ensures
        r == token_count(u64_in(member(u@, key@))),
{
    match u.get(key) {
        Some(j) => match j.as_u64() {
            Some(n) => #[verifier::truncate]
            (n as u32),
            None => 0,
        },
        None => 0,
    }
}

impl AnthropicProvider {
    pub const ANTHROPIC_API_URL: &'static str = "https://api.anthropic.com/v1/messages";

    pub const ANTHROPIC_VERSION: &'static str = "2023-06-01";

    /// The bits of the double `0.3`: a low temperature, for answers that can be
    /// foreseen.
    pub const TEMPERATURE: u64 = 0x3FD3333333333333;

    /// Longest answer, in tokens.
    pub const MAX_TOKENS: u32 = 600;

    pub fn new(api_key: &str, model: &str) -> (r: Self)
        ensures
            r.api_key@ == api_key@,
            r.model@ == model@,
    {
        AnthropicProvider {
            api_key: SecretString::new(api_key.to_string()),
            model: model.to_string(),
        }
    }

    /// The request for a turn.
    pub fn request(&self, req: &AgentRequest) -> (r: HttpCall)
        ensures
            r.url@ == "https://api.anthropic.com/v1/messages"@,
            r.timeout_ms == timeout_of(req.deadline_ms),
            headers_of(r.headers@) == seq![
                ("x-api-key"@, self.api_key@),
                ("anthropic-version"@, "2023-06-01"@),
            ],
            r.body@ == messages_body(
                self.model@,
                system_prompt(req.context),
                user_message(req.turn@),
            ),
    {
        let system = build_system_prompt(&req.context);
        let user = build_user_message(&req.context, &req.turn);
        let ghost s = system@;
        let ghost u = user@;
        let mut m: Vec<(String, JsonValue)> = Vec::new();
        assert(members(m@) =~= Seq::<(Seq<char>, Json)>::empty());
        push_member(&mut m, "model", JsonValue::Str(self.model.clone()));
        push_member(&mut m, "max_tokens", JsonValue::PosInt(Self::MAX_TOKENS as u64));
        push_member(&mut m, "temperature", JsonValue::Float(F64Bits { bits: Self::TEMPERATURE }));
        push_member(&mut m, "system", JsonValue::Str(system));
        push_member(&mut m, "messages", one_user_message(user));
        push_member(&mut m, "tools", empty_array());
        proof {
            lemma_object(m);
            assert(members(m@) =~= messages_body(self.model@, s, u)->Object_0);
        }
        let mut headers: Vec<(String, String)> = Vec::new();
        assert(headers_of(headers@) =~= Seq::<(Seq<char>, Seq<char>)>::empty());
        push_header(&mut headers, "x-api-key", self.api_key.expose());
        push_header(&mut headers, "anthropic-version", Self::ANTHROPIC_VERSION);
        proof {
            assert(headers_of(headers@) =~= seq![
                ("x-api-key"@, self.api_key@),
                ("anthropic-version"@, "2023-06-01"@),
            ]);
        }
        let timeout_ms: u64 = if req.deadline_ms < MIN_TIMEOUT_MS {
            MIN_TIMEOUT_MS
        } else {
            req.deadline_ms
        };
        HttpCall {
            url: Self::ANTHROPIC_API_URL.to_string(),
            timeout_ms,
            headers,
            body: JsonValue::Object(m),
        }
    }

    /// The text of a reply. A reply without `content`, or with an empty text, is
    /// an error.
    pub fn output(v: &JsonValue) -> (r: Result<String, AgentError>)
        ensures
            match array_in(member(v@, "content"@)) {
                None => r is Err && r->Err_0 is InvalidResponse && r->Err_0->InvalidResponse_0@
                    == "missing content[]"@,
                Some(c) => if block_texts(c).len() == 0 {
                    r is Err && r->Err_0 is InvalidResponse && r->Err_0->InvalidResponse_0@
                        == "empty content text"@
                } else {
                    r is Ok && r->Ok_0@ == block_texts(c)
                },
            },
    {
        let content = match v.get("content") {
            Some(c) => c.as_array(),
            None => None,
        };
        match content {
            None => Err(AgentError::InvalidResponse("missing content[]".to_string())),
            Some(c) => {
                let text = join_content_text(c);
                if text.as_str().is_empty() {
                    Err(AgentError::InvalidResponse("empty content text".to_string()))
                } else {
                    Ok(text)
                }
            },
        }
    }

    /// The response of the agent: what the model said, with the tokens that the
    /// reply reports where the model reported none.
    pub fn answer(text: &str, envelope: Option<ModelEnvelope>, run_id: RunId, v: &JsonValue) -> (r:
        AgentResponse)
        ensures
            exists|base: AgentResponse| #[trigger]
                response_for(base, text@, envelope, run_id) && (r == AgentResponse {
                    usage: match reported_usage(v@) {
                        Some(t) => if no_usage(base.usage) {
                            Some(
                                Usage {
                                    input_tokens: t.0,
                                    output_tokens: t.1,
                                    cost_usd: F64Bits { bits: 0 },
                                },
                            )
                        } else {
                            base.usage
                        },
                        None => base.usage,
                    },
                    ..base
                }),
    {
        let mut r = parse_envelope(text, envelope, run_id);
        let ghost base = r;
        let silent = match &r.usage {
            Some(u) => u.input_tokens == 0 && u.output_tokens == 0,
            None => true,
        };
        if silent {
            if let Some(u) = v.get("usage") {
                r.usage = Some(
                    Usage {
                        input_tokens: tokens(u, "input_tokens"),
                        output_tokens: tokens(u, "output_tokens"),
                        cost_usd: F64Bits { bits: 0 },
                    },
                );
            }
        }
        assert(response_for(base, text@, envelope, run_id));
        r
    }
}

// ---------------------------------------------------------------------------
// Which provider
// ---------------------------------------------------------------------------

/// The model of the direct provider, within the provider's family of models.
pub fn default_anthropic_model(family: &str) -> (r: String)
    ensures
        r@ == family@ + "-sonnet-5-20250610"@,
{
    family.to_string().concat("-sonnet-5-20250610")
}

/// One of the providers.
#[derive(Debug, Clone)]
pub enum Provider {
    OpenResponses(OpenResponsesProvider),
    Anthropic(AnthropicProvider),
}

impl Provider {
    /// The name of the provider.
    pub fn id(&self) -> (r: &'static str)
        ensures
            r@ == (match *self {
                Provider::OpenResponses(p) => p.id@,
                Provider::Anthropic(_) => "anthropic"@,
            }),
    {
        match self {
            Provider::OpenResponses(p) => p.id,
            Provider::Anthropic(_) => "anthropic",
        }
    }
}

/// The address that a named provider needs; `None` where it needs none.
pub open spec fn gateway_of(config: Config, name: Seq<char>) -> Option<Seq<char>> {
    if name == "openclaw"@ {
        Some(config.agent.openclaw_base_url@)
    } else if name == "hermes"@ {
        Some(config.agent.hermes_shim_url@)
    } else {
        None
    }
}

/// The credential with which a named provider is called.
pub open spec fn credential_of(config: Config, name: Seq<char>) -> Seq<char> {
    if name == "openclaw"@ || name == "hermes"@ {
        config.agent.openclaw_token@
    } else {
        config.agent.anthropic_api_key@
    }
}

/// Whether a named provider can be used: it has a credential, and the address of
/// its gateway, where it needs one, is an address.
pub open spec fn usable(config: Config, name: Seq<char>) -> bool {
    &&& credential_of(config, name).len() > 0
    &&& gateway_of(config, name) matches Some(u) ==> url_parsed(u) is Ok
}

/// Whether `p` is the provider of that name; an unknown name means the direct
/// one.
pub open spec fn provider_named(p: Provider, config: Config, name: Seq<char>) -> bool {
    if name == "openclaw"@ {
        &&& p matches Provider::OpenResponses(x)
        &&& x.id@ == "openclaw"@
        &&& url_parsed(config.agent.openclaw_base_url@) == Ok::<Seq<char>, Seq<char>>(x.base_url@)
        &&& x.token@ == config.agent.openclaw_token@
        &&& opt_text(x.default_agent_id) == Some(config.agent.openclaw_agent_id@)
        &&& x.session_header@ == "x-openclaw-session-key"@
        &&& x.agent_header@ == "x-openclaw-agent-id"@
        &&& x.model_alias@ == "openclaw"@
    } else if name == "hermes"@ {
        &&& p matches Provider::OpenResponses(x)
        &&& x.id@ == "hermes"@
        &&& url_parsed(config.agent.hermes_shim_url@) == Ok::<Seq<char>, Seq<char>>(x.base_url@)
        &&& x.token@ == config.agent.openclaw_token@
        &&& x.default_agent_id is None
        &&& x.session_header@ == "x-hermes-session-key"@
        &&& x.agent_header@ == "x-hermes-agent-id"@
        &&& x.model_alias@ == "hermes"@
    } else {
        &&& p matches Provider::Anthropic(x)
        &&& x.api_key@ == config.agent.anthropic_api_key@
        &&& x.model@ == config.agent.anthropic_model_family@ + "-sonnet-5-20250610"@
    }
}

/// The provider of a name; `None` where it cannot be used. Better not to start
/// than to speak to an agent without a credential.
pub fn build_provider_named(config: &Config, name: &str) -> (r: Option<Provider>)
    ensures
        r is Some <==> usable(*config, name@),
        r matches Some(p) ==> provider_named(p, *config, name@),
{
    if text::same(name, "openclaw") {
        if config.agent.openclaw_token.is_empty() {
            return None;
        }
        match OpenResponsesProvider::try_new(
            "openclaw",
            config.agent.openclaw_base_url.as_str(),
            config.agent.openclaw_token.expose(),
            Some(config.agent.openclaw_agent_id.clone()),
            "x-openclaw-session-key",
            "x-openclaw-agent-id",
            "openclaw",
        ) {
            Some(p) => Some(Provider::OpenResponses(p)),
            None => None,
        }
    } else if text::same(name, "hermes") {
        if config.agent.openclaw_token.is_empty() {
            return None;
        }
        match OpenResponsesProvider::try_new(
            "hermes",
            config.agent.hermes_shim_url.as_str(),
            config.agent.openclaw_token.expose(),
            None,
            "x-hermes-session-key",
            "x-hermes-agent-id",
            "hermes",
        ) {
            Some(p) => Some(Provider::OpenResponses(p)),
            None => None,
        }
    } else {
        if config.agent.anthropic_api_key.is_empty() {
            return None;
        }
        Some(
            Provider::Anthropic(
                AnthropicProvider::new(
                    config.agent.anthropic_api_key.expose(),
                    default_anthropic_model(
                        config.agent.anthropic_model_family.as_str(),
                    ).as_str(),
                ),
            ),
        )
    }
}

/// The primary provider.
pub fn build_provider(config: &Config) -> (r: Option<Provider>)
    ensures
        r is Some <==> usable(*config, config.agent.provider@),
        r matches Some(p) ==> provider_named(p, *config, config.agent.provider@),
{
    build_provider_named(config, config.agent.provider.as_str())
}

/// The name of the fallback provider; `None` where it is the primary one.
pub fn fallback_name(config: &Config) -> (r: Option<&str>)
    ensures
        opt_str(r) == if config.agent.provider_fallback@ == config.agent.provider@ {
            None
        } else {
            Some(config.agent.provider_fallback@)
        },
{
    if text::same(config.agent.provider_fallback.as_str(), config.agent.provider.as_str()) {
        None
    } else {
        Some(config.agent.provider_fallback.as_str())
    }
}

// ---------------------------------------------------------------------------
// Laws
// ---------------------------------------------------------------------------

/// Only a status of 200 is an answer. A refused credential, a lapse of time and
/// too many calls are told apart, a failure of the provider is one, and any
/// other status is an answer that cannot be read, with what the provider said.
pub proof fn law_only_success_is_an_answer(
    status: u16,
    body: &str,
    r: Result<(), AgentError>,
)
    requires
        call_ensures(check_status, (status, body), r),
    ensures
        r is Ok <==> status == 200,
        r matches Err(e) ==> {
            &&& e is AuthError <==> status == 401 || status == 403
            &&& e is Timeout <==> status == 408
            &&& e is RateLimited <==> status == 429
            &&& e is ProviderError <==> 500 <= status < 600
            &&& !(e is BudgetExceeded)
            &&& e matches AgentError::ProviderError(m) ==> m@ == "http "@ + decimal(status as nat)
                + ": "@ + body@
            &&& e matches AgentError::InvalidResponse(m) ==> m@ == "http "@ + decimal(
                status as nat,
            ) + ": "@ + body@
        },
{
}

/// A request that got no reply ran out of time, or failed on its way; a provider
/// is up as long as it does not fail itself.
pub proof fn law_failures_on_the_way(
    timed_out: bool,
    error: &str,
    status: u16,
    e: AgentError,
    r: Result<(), AgentError>,
)
    requires
        call_ensures(transport_error, (timed_out, error), e),
        call_ensures(health_status, (status,), r),
    ensures
        timed_out <==> e is Timeout,
        !timed_out <==> e is ProviderError,
        e matches AgentError::ProviderError(m) ==> m@ == "transport: "@ + error@,
        r is Ok <==> status < 500,
        r matches Err(x) ==> x is ProviderError,
{
}

proof fn lemma_responses_members(
    model: Seq<char>,
    instructions: Seq<char>,
    user: Seq<char>,
    session: Seq<char>,
)
    ensures
        ({
            let b = responses_body(model, instructions, user, session);
            &&& member(b, "model"@) == Some(Json::Str(model))
            &&& member(b, "instructions"@) == Some(Json::Str(instructions))
            &&& member(b, "input"@) == Some(
                Json::Array(
                    seq![
                        Json::Object(
                            seq![("role"@, Json::Str("user"@)), ("content"@, Json::Str(user))],
                        ),
                    ],
                ),
            )
            &&& member(b, "tools"@) == Some(Json::Array(Seq::empty()))
            &&& member(b, "stream"@) == Some(Json::Bool(false))
            &&& member(b, "max_output_tokens"@) == Some(Json::Int(600))
            &&& member(b, "user"@) == Some(Json::Str(session))
        }),
{
    reveal_strlit("model");
    reveal_strlit("instructions");
    reveal_strlit("input");
    reveal_strlit("tools");
    reveal_strlit("stream");
    reveal_strlit("max_output_tokens");
    reveal_strlit("user");
    assert("model"@.len() == 5 && "input"@.len() == 5 && "tools"@.len() == 5);
    assert("model"@[0] == 'm' && "input"@[0] == 'i' && "tools"@[0] == 't');
    assert("instructions"@.len() == 12 && "stream"@.len() == 6);
    assert("max_output_tokens"@.len() == 17 && "user"@.len() == 4);
    reveal_with_fuel(crate::json::first_member, 8);
    let m = responses_body(model, instructions, user, session)->Object_0;
    let m1 = m.drop_first();
    let m2 = m1.drop_first();
    let m3 = m2.drop_first();
    let m4 = m3.drop_first();
    let m5 = m4.drop_first();
    let m6 = m5.drop_first();
    assert(m1[0] == m[1] && m2[0] == m[2] && m3[0] == m[3]);
    assert(m4[0] == m[4] && m5[0] == m[5] && m6[0] == m[6]);
}

/// A gateway gets the system prompt of the conversation as its instructions and
/// the turn as the words of the user, under the session of the conversation. It
/// answers in one piece, calls no tool, and has a second at least.
pub proof fn law_gateways_get_prompt_and_turn(
    p: OpenResponsesProvider,
    url: String,
    req: AgentRequest,
    system: String,
    user: String,
    r: HttpCall,
)
    requires
        call_ensures(build_system_prompt, (&req.context,), system),
        call_ensures(build_user_message, (&req.context, &req.turn), user),
        call_ensures(OpenResponsesProvider::request_to, (&p, url, &req), r),
    ensures
        r.url@ == url@,
        req.deadline_ms >= 1000 ==> r.timeout_ms == req.deadline_ms,
        req.deadline_ms < 1000 ==> r.timeout_ms == 1000,
        member(r.body@, "model"@) == Some(Json::Str(p.model_alias@)),
        member(r.body@, "instructions"@) == Some(Json::Str(system@)),
        member(r.body@, "input"@) == Some(
            Json::Array(
                seq![
                    Json::Object(
                        seq![("role"@, Json::Str("user"@)), ("content"@, Json::Str(user@))],
                    ),
                ],
            ),
        ),
        member(r.body@, "tools"@) == Some(Json::Array(Seq::empty())),
        member(r.body@, "stream"@) == Some(Json::Bool(false)),
        member(r.body@, "max_output_tokens"@) == Some(Json::Int(600)),
        member(r.body@, "user"@) == Some(Json::Str(req.session_key@)),
{
    lemma_responses_members(p.model_alias@, system@, user@, req.session_key@);
}

/// A gateway is called with its token, under the session of the conversation,
/// and for the agent of the request, or its own where the request names none.
pub proof fn law_gateways_are_called_with_their_headers(
    p: OpenResponsesProvider,
    url: String,
    req: AgentRequest,
    agent: Option<String>,
    r: HttpCall,
)
    requires
        call_ensures(OpenResponsesProvider::resolve_agent_id, (&p, &req), agent),
        call_ensures(OpenResponsesProvider::request_to, (&p, url, &req), r),
    ensures
        req.agent_id is Some ==> opt_text(agent) == opt_text(req.agent_id),
        req.agent_id is None ==> opt_text(agent) == opt_text(p.default_agent_id),
        r.headers@.len() == if agent is Some {
            3int
        } else {
            2
        },
        r.headers@[0].0@ == "authorization"@ && r.headers@[0].1@ == "Bearer "@ + p.token@,
        r.headers@[1].0@ == p.session_header@ && r.headers@[1].1@ == req.session_key@,
        agent matches Some(a) ==> r.headers@[2].0@ == p.agent_header@ && r.headers@[2].1@ == a@,
{
    let h = headers_of(r.headers@);
    assert(h.len() == r.headers@.len());
    assert(forall|i: int|
        0 <= i < h.len() ==> (#[trigger] h[i]) == (r.headers@[i].0@, r.headers@[i].1@));
    assert(h[0] == ("authorization"@, "Bearer "@ + p.token@));
    assert(h[1] == (p.session_header@, req.session_key@));
    if let Some(a) = agent {
        assert(h[2] == (p.agent_header@, a@));
        assert(h[2] == (r.headers@[2].0@, r.headers@[2].1@));
    }
}

proof fn lemma_messages_members(model: Seq<char>, system: Seq<char>, user: Seq<char>)
    ensures
        ({
            let b = messages_body(model, system, user);
            &&& member(b, "model"@) == Some(Json::Str(model))
            &&& member(b, "max_tokens"@) == Some(Json::Int(600))
            &&& member(b, "temperature"@) == Some(Json::Float(0x3FD3333333333333))
            &&& member(b, "system"@) == Some(Json::Str(system))
            &&& member(b, "messages"@) == Some(
                Json::Array(
                    seq![
                        Json::Object(
                            seq![("role"@, Json::Str("user"@)), ("content"@, Json::Str(user))],
                        ),
                    ],
                ),
            )
            &&& member(b, "tools"@) == Some(Json::Array(Seq::empty()))
        }),
{
    reveal_strlit("model");
    reveal_strlit("max_tokens");
    reveal_strlit("temperature");
    reveal_strlit("system");
    reveal_strlit("messages");
    reveal_strlit("tools");
    assert("model"@.len() == 5 && "tools"@.len() == 5 && "model"@[0] == 'm' && "tools"@[0] == 't');
    assert("max_tokens"@.len() == 10 && "temperature"@.len() == 11);
    assert("system"@.len() == 6 && "messages"@.len() == 8);
    reveal_with_fuel(crate::json::first_member, 7);
    let m = messages_body(model, system, user)->Object_0;
    let m1 = m.drop_first();
    let m2 = m1.drop_first();
    let m3 = m2.drop_first();
    let m4 = m3.drop_first();
    let m5 = m4.drop_first();
    assert(m1[0] == m[1] && m2[0] == m[2] && m3[0] == m[3] && m4[0] == m[4] && m5[0] == m[5]);
}

/// The direct provider gets the same prompt and the same turn, under its own key
/// and for its own model; it calls no tool either, and has a second at least.
pub proof fn law_the_direct_provider_gets_prompt_and_turn(
    p: AnthropicProvider,
    req: AgentRequest,
    system: String,
    user: String,
    r: HttpCall,
)
    requires
        call_ensures(build_system_prompt, (&req.context,), system),
        call_ensures(build_user_message, (&req.context, &req.turn), user),
        call_ensures(AnthropicProvider::request, (&p, &req), r),
    ensures
        r.url@ == "https://api.anthropic.com/v1/messages"@,
        req.deadline_ms >= 1000 ==> r.timeout_ms == req.deadline_ms,
        req.deadline_ms < 1000 ==> r.timeout_ms == 1000,
        member(r.body@, "model"@) == Some(Json::Str(p.model@)),
        member(r.body@, "max_tokens"@) == Some(Json::Int(600)),
        member(r.body@, "temperature"@) == Some(Json::Float(0x3FD3333333333333)),
        member(r.body@, "system"@) == Some(Json::Str(system@)),
        member(r.body@, "messages"@) == Some(
            Json::Array(
                seq![
                    Json::Object(
                        seq![("role"@, Json::Str("user"@)), ("content"@, Json::Str(user@))],
                    ),
                ],
            ),
        ),
        member(r.body@, "tools"@) == Some(Json::Array(Seq::empty())),
        r.headers@.len() == 2,
        r.headers@[0].0@ == "x-api-key"@ && r.headers@[0].1@ == p.api_key@,
        r.headers@[1].0@ == "anthropic-version"@ && r.headers@[1].1@ == "2023-06-01"@,
{
    lemma_messages_members(p.model@, system@, user@);
    let h = headers_of(r.headers@);
    assert(h.len() == r.headers@.len());
    assert(h[0] == (r.headers@[0].0@, r.headers@[0].1@));
    assert(h[1] == (r.headers@[1].0@, r.headers@[1].1@));
}

/// What a gateway said is its `output_text`; where there is none, the text of
/// its output. Silence is an error. The session is the one that the reply names.
pub proof fn law_what_a_gateway_said(v: JsonValue, r: Result<ProviderOutput, AgentError>)
    requires
        call_ensures(OpenResponsesProvider::output, (&v,), r),
    ensures
        string_in(member(v@, "output_text"@)) matches Some(t) ==> (t.len() > 0 <==> r is Ok) && (
        r matches Ok(o) ==> o.text@ == t),
        string_in(member(v@, "output_text"@)) is None && array_in(member(v@, "output"@)) is None
            ==> r is Err,
        string_in(member(v@, "output_text"@)) is None ==> forall|item: Json, block: Json, t: Seq<
            char,
        >|
            array_in(member(v@, "output"@)) == Some(seq![item]) && array_in(
                #[trigger] member(item, "content"@),
            ) == Some(seq![block]) && string_in(#[trigger] member(block, "text"@)) == Some(t)
                && #[trigger] t.len() > 0 ==> (r matches Ok(o) && o.text@ == t),
        r matches Ok(o) ==> opt_text(o.session) == string_in(member(v@, "id"@)) && o.text@.len() > 0,
        r matches Err(e) ==> e is InvalidResponse,
{
    reveal_strlit("");
    if string_in(member(v@, "output_text"@)) is None {
        assert forall|item: Json, block: Json, t: Seq<char>|
            array_in(member(v@, "output"@)) == Some(seq![item]) && array_in(
                #[trigger] member(item, "content"@),
            ) == Some(seq![block]) && string_in(#[trigger] member(block, "text"@)) == Some(t)
                && #[trigger] t.len() > 0 implies (r matches Ok(o) && o.text@ == t) by {
            let items = seq![item];
            let blocks = seq![block];
            assert(items.drop_last() =~= Seq::<Json>::empty() && items.last() == item);
            assert(blocks.drop_last() =~= Seq::<Json>::empty() && blocks.last() == block);
            assert(block_texts(blocks.drop_last()).len() == 0);
            assert(block_texts(blocks) == t);
            assert(output_texts(items.drop_last()).len() == 0);
            assert(output_texts(items) == t);
        }
    }
}

/// What the direct provider said is the text of its content. A reply without
/// content, or without a text in it, is an error.
pub proof fn law_what_the_direct_provider_said(
    v: JsonValue,
    content: Vec<JsonValue>,
    said: String,
    r: Result<String, AgentError>,
)
    requires
        array_in(member(v@, "content"@)) is Some ==> array_in(member(v@, "content"@)) == Some(
            jsons(content@),
        ),
        call_ensures(join_content_text, (&content,), said),
        call_ensures(AnthropicProvider::output, (&v,), r),
    ensures
        array_in(member(v@, "content"@)) is None ==> r is Err,
        array_in(member(v@, "content"@)) is Some ==> (r is Ok <==> said@.len() > 0),
        r matches Ok(t) ==> t@ == said@,
        r matches Err(e) ==> e is InvalidResponse,
{
}

/// The session that the model names counts; only where it names none is it the
/// one that the gateway opened. Nothing else of what the model said is changed.
pub proof fn law_the_session_is_the_models_or_the_gateways(
    output: ProviderOutput,
    envelope: Option<ModelEnvelope>,
    run_id: RunId,
    r: AgentResponse,
)
    requires
        call_ensures(OpenResponsesProvider::answer, (output, envelope, run_id), r),
    ensures
        envelope matches Some(e) ==> {
            &&& e.provider_session_id is Some ==> r.provider_session_id == e.provider_session_id
            &&& e.provider_session_id is None ==> r.provider_session_id == output.session
            &&& r.reply == e.reply && r.actions == e.actions && r.handoff == e.handoff
            &&& r.confidence == e.confidence && r.usage == e.usage
        },
        envelope is None ==> r.provider_session_id == output.session && r.actions@.len() == 0
            && !r.handoff.required,
{
}

/// The tokens that the model reports count; only where it reports none are they
/// those of the reply.
pub proof fn law_the_tokens_are_the_models_or_the_replys(
    text: &str,
    e: ModelEnvelope,
    run_id: RunId,
    v: JsonValue,
    r: AgentResponse,
)
    requires
        call_ensures(AnthropicProvider::answer, (text, Some(e), run_id, &v), r),
    ensures
        e.usage matches Some(u) ==> (u.input_tokens > 0 || u.output_tokens > 0 ==> r.usage
            == e.usage),
        member(v@, "usage"@) is None ==> r.usage == e.usage,
        e.usage is None ==> (member(v@, "usage"@) matches Some(w) ==> (r.usage matches Some(u)
            && forall|n: int|
            0 <= n <= u32::MAX ==> (#[trigger] member(w, "input_tokens"@) == Some(Json::Int(n))
                ==> u.input_tokens == n) && (member(w, "output_tokens"@) == Some(Json::Int(n))
                ==> u.output_tokens == n))),
        r.reply == e.reply && r.actions == e.actions && r.handoff == e.handoff,
{
    assert(forall|n: int| 0 <= n <= u32::MAX ==> #[trigger] ((n as u64) as u32) == n);
    if e.usage is None {
        if let Some(w) = member(v@, "usage"@) {
            assert(r.usage is Some);
            let u = r.usage->Some_0;
            assert(u.input_tokens == token_count(u64_in(member(w, "input_tokens"@))));
            assert(u.output_tokens == token_count(u64_in(member(w, "output_tokens"@))));
        }
    }
}

/// A provider is made from its own settings: a gateway from its address and the
/// token of the gateways, the direct one from its key. Without a credential, or
/// without an address where one is needed, there is none.
pub proof fn law_providers_are_made_from_their_settings(
    config: Config,
    name: &str,
    r: Option<Provider>,
)
    requires
        call_ensures(build_provider_named, (&config, name), r),
    ensures
        name@ == "openclaw"@ ==> (r is Some <==> config.agent.openclaw_token@.len() > 0
            && url_parsed(config.agent.openclaw_base_url@) is Ok),
        name@ == "hermes"@ ==> (r is Some <==> config.agent.openclaw_token@.len() > 0 && url_parsed(
            config.agent.hermes_shim_url@,
        ) is Ok),
        name@ != "openclaw"@ && name@ != "hermes"@ ==> (r is Some
            <==> config.agent.anthropic_api_key@.len() > 0),
        r matches Some(Provider::OpenResponses(p)) ==> {
            &&& p.id@ == name@ && p.model_alias@ == name@
            &&& p.token@ == config.agent.openclaw_token@
            &&& name@ == "openclaw"@ || name@ == "hermes"@
            &&& name@ == "openclaw"@ ==> opt_text(p.default_agent_id) == Some(
                config.agent.openclaw_agent_id@,
            ) && p.session_header@ == "x-openclaw-session-key"@ && p.agent_header@
                == "x-openclaw-agent-id"@ && Ok::<Seq<char>, Seq<char>>(p.base_url@) == url_parsed(
                config.agent.openclaw_base_url@,
            )
            &&& name@ == "hermes"@ ==> p.default_agent_id is None && p.session_header@
                == "x-hermes-session-key"@ && p.agent_header@ == "x-hermes-agent-id"@ && Ok::<
                Seq<char>,
                Seq<char>,
            >(p.base_url@) == url_parsed(config.agent.hermes_shim_url@)
        },
        r matches Some(Provider::Anthropic(p)) ==> p.api_key@ == config.agent.anthropic_api_key@
            && name@ != "openclaw"@ && name@ != "hermes"@,
{
    reveal_strlit("openclaw");
    reveal_strlit("hermes");
    assert("openclaw"@.len() == 8 && "hermes"@.len() == 6);
}

/// The primary provider is the one that the settings name, and the fallback is
/// another one: a provider does not stand in for itself.
pub proof fn law_a_provider_is_not_its_own_fallback(config: Config, r: Option<&str>)
    requires
        call_ensures(fallback_name, (&config,), r),
    ensures
        r is None <==> config.agent.provider_fallback@ == config.agent.provider@,
        r matches Some(name) ==> name@ == config.agent.provider_fallback@ && name@
            != config.agent.provider@,
{
}

/// A gateway is asked for an answer below its own address; where that gives no
/// address, the request fails, and says so.
pub proof fn law_gateways_are_asked_below_their_address(
    p: OpenResponsesProvider,
    req: AgentRequest,
    url: String,
    to: HttpCall,
    r: Result<HttpCall, AgentError>,
)
    requires
        call_ensures(OpenResponsesProvider::request, (&p, &req), r),
        url_joined(p.base_url@, "v1/responses"@) == Ok::<Seq<char>, Seq<char>>(url@),
        call_ensures(OpenResponsesProvider::request_to, (&p, url, &req), to),
    ensures
        r matches Ok(c) && c.url@ == url@ && c.body@ == to.body@ && headers_of(c.headers@)
            == headers_of(to.headers@) && c.timeout_ms == to.timeout_ms,
{
}

/// Without an address there is no request, and the error says why.
pub proof fn law_a_gateway_without_an_address_is_not_asked(
    p: OpenResponsesProvider,
    req: AgentRequest,
    why: Seq<char>,
    r: Result<HttpCall, AgentError>,
)
    requires
        call_ensures(OpenResponsesProvider::request, (&p, &req), r),
        url_joined(p.base_url@, "v1/responses"@) == Err::<Seq<char>, Seq<char>>(why),
    ensures
        r matches Err(e) && (e matches AgentError::ProviderError(m) && m@ == "bad base_url: "@
            + why),
{
}

/// The provider of the settings is the one that they name.
pub proof fn law_the_settings_name_the_provider(
    config: Config,
    name: &str,
    r: Option<Provider>,
    s: Option<Provider>,
    id: &'static str,
)
    requires
        name@ == config.agent.provider@,
        call_ensures(build_provider, (&config,), r),
        call_ensures(build_provider_named, (&config, name), s),
        r matches Some(p) ==> call_ensures(Provider::id, (&p,), id),
    ensures
        r is Some <==> s is Some,
        r is Some && (name@ == "openclaw"@ || name@ == "hermes"@) ==> id@ == name@,
        r is Some && name@ != "openclaw"@ && name@ != "hermes"@ ==> id@ == "anthropic"@,
{
    reveal_strlit("openclaw");
    reveal_strlit("hermes");
    assert("openclaw"@.len() == 8 && "hermes"@.len() == 6);
}

/// A reply that is no JSON is an invalid one, and says why.
pub proof fn law_bad_json_is_no_answer(error: &str, r: AgentError)
    requires
        call_ensures(bad_json, (error,), r),
    ensures
        r matches AgentError::InvalidResponse(m) && m@ == "bad json: "@ + error@,
{
}

} // verus!
