//! The calls on the API of the help desk: address, headers, body.
use crate::chatwoot::circuit;
use crate::chatwoot::circuit::{
    after_failure, circuit_wf, let_through, refuses, replied, CallReply, ChatwootError,
    CircuitState, RetryStep, MAX_ATTEMPTS, OPEN_DURATION_MS,
};
use crate::chatwoot::payload::SelectItem;
use crate::ids::{hyphenated, nibble, RunId};
use crate::json::{
    array_in, jsons, lemma_array, lemma_object, member, members, of_i64, of_texts, one_member,
    push_member, string_in, text_list, Json, JsonValue,
};
use crate::secrets::SecretString;
use crate::text;
use crate::text::{int_text, opt_text, stands_at, texts};
use crate::weburl;
use crate::weburl::{url_joined, url_parsed};
use vstd::prelude::*;

verus! {

/// How long a call may take, in seconds.
pub const CALL_TIMEOUT_SECS: u64 = 10;

/// The header that carries the token.
pub const TOKEN_HEADER: &'static str = "api_access_token";

/// The header that carries the key of a message.
pub const IDEMPOTENCY_HEADER: &'static str = "Idempotency-Key";

/// What a request carries.
#[derive(Debug, Clone)]
pub enum DeskBody {
    Empty,
    Json(JsonValue),
    /// A form with a file.
    Form {
        content: String,
        message_type: String,
        filename: String,
        mime: String,
        bytes: Vec<u8>,
    },
}

/// A request on the API: a post where it carries something, a get where it does
/// not.
#[derive(Debug, Clone)]
pub struct DeskRequest {
    pub url: String,
    pub idempotency_key: Option<String>,
    pub body: DeskBody,
}

/// The client of one account.
#[derive(Debug)]
pub struct ChatwootClient {
    base_url: String,
    bot_token: SecretString,
    account_id: i64,
    circuit: CircuitState,
}

/// An address with a slash at its end.
pub open spec fn slashed(base: Seq<char>) -> Seq<char> {
    if stands_at(base, "/"@, base.len() - "/"@.len()) {
        base
    } else {
        base + "/"@
    }
}

fn with_slash(base: &str) -> (r: String)
    ensures
        r@ == slashed(base@),
{
    if text::ends_with(base, "/") {
        base.to_string()
    } else {
        base.to_string().concat("/")
    }
}

/// The path of a conversation.
pub open spec fn conversation_path(account: int, conv: int, suffix: Seq<char>) -> Seq<char> {
    "api/v1/accounts/"@ + int_text(account) + "/conversations/"@ + int_text(conv) + "/"@ + suffix
}

/// Whether `r` is a request to a path of the API that carries `body`; `None`
/// where the path gives no address.
pub open spec fn posts(
    r: Option<DeskRequest>,
    base: Seq<char>,
    path: Seq<char>,
    body: Json,
) -> bool {
    match url_joined(base, path) {
        Ok(u) => {
            &&& r matches Some(q)
            &&& q.url@ == u
            &&& q.body matches DeskBody::Json(j)
            &&& j@ == body
        },
        Err(_) => r is None,
    }
}

/// Whether `r` is a request that reads a path of the API.
pub open spec fn gets(r: Option<DeskRequest>, base: Seq<char>, path: Seq<char>) -> bool {
    match url_joined(base, path) {
        Ok(u) => {
            &&& r matches Some(q)
            &&& q.url@ == u
            &&& q.body is Empty
            &&& q.idempotency_key is None
        },
        Err(_) => r is None,
    }
}

/// Whether a request carries no key.
pub open spec fn unkeyed(r: Option<DeskRequest>) -> bool {
    r matches Some(q) ==> q.idempotency_key is None
}

/// Whether `key` is `{run_id}:{op}`, with the id of some run (UUID version 4).
pub open spec fn keyed_run(key: Seq<char>, op: Seq<char>) -> bool {
    exists|n: u128|
        {
            &&& key == #[trigger] hyphenated(n as int) + ":"@ + op
            &&& nibble(n as int, 19) == 4
            &&& 8 <= nibble(n as int, 15) <= 11
        }
}

/// Whether a request carries a fresh key for an operation.
pub open spec fn keyed(r: Option<DeskRequest>, op: Seq<char>) -> bool {
    r matches Some(q) ==> {
        &&& q.idempotency_key is Some
        &&& keyed_run(q.idempotency_key->Some_0@, op)
    }
}

/// The body of a message to the contact.
pub open spec fn message_body(content: Seq<char>) -> Json {
    Json::Object(
        seq![
            ("content"@, Json::Str(content)),
            ("message_type"@, Json::Str("outgoing"@)),
            ("content_type"@, Json::Str("text"@)),
            ("private"@, Json::Bool(false)),
        ],
    )
}

/// The body of an internal note.
pub open spec fn note_body(content: Seq<char>) -> Json {
    Json::Object(
        seq![
            ("content"@, Json::Str(content)),
            ("message_type"@, Json::Str("outgoing"@)),
            ("private"@, Json::Bool(true)),
        ],
    )
}

/// The entries of a list to choose from.
pub open spec fn items_json(items: Seq<SelectItem>) -> Seq<Json> {
    items.map_values(
        |i: SelectItem|
            Json::Object(
                seq![("title"@, Json::Str(i.title@)), ("value"@, Json::Str(i.value@))],
            ),
    )
}

/// The body of a message with a list to choose from.
pub open spec fn select_body(content: Seq<char>, items: Seq<SelectItem>) -> Json {
    Json::Object(
        seq![
            ("content"@, Json::Str(content)),
            ("content_type"@, Json::Str("input_select"@)),
            (
                "content_attributes"@,
                Json::Object(seq![("items"@, Json::Array(items_json(items)))]),
            ),
            ("message_type"@, Json::Str("outgoing"@)),
            ("private"@, Json::Bool(false)),
        ],
    )
}

fn items_value(items: &Vec<SelectItem>) -> (r: JsonValue)
    ensures
        r@ == Json::Array(items_json(items@)),
{
    let mut v: Vec<JsonValue> = Vec::new();
    let mut i: usize = 0;
    while i < items.len()
        invariant
            i <= items@.len(),
            v@.len() == i,
            forall|k: int|
                0 <= k < i ==> (#[trigger] v@[k])@ == Json::Object(
                    seq![
                        ("title"@, Json::Str(items@[k].title@)),
                        ("value"@, Json::Str(items@[k].value@)),
                    ],
                ),
        decreases items@.len() - i,
    {
        let mut m: Vec<(String, JsonValue)> = Vec::new();
        assert(members(m@) =~= Seq::<(Seq<char>, Json)>::empty());
        push_member(&mut m, "title", JsonValue::Str(items[i].title.clone()));
        push_member(&mut m, "value", JsonValue::Str(items[i].value.clone()));
        proof {
            lemma_object(m);
            assert(members(m@) =~= seq![
                ("title"@, Json::Str(items@[i as int].title@)),
                ("value"@, Json::Str(items@[i as int].value@)),
            ]);
        }
        v.push(JsonValue::Object(m));
        i += 1;
    }
    proof {
        lemma_array(v);
        assert(jsons(v@) =~= items_json(items@));
    }
    JsonValue::Array(v)
}

impl ChatwootClient {
    /// The address of the help desk, in its normal form.
    pub closed spec fn base(self) -> Seq<char> {
        self.base_url@
    }

    /// The token of the agent bot.
    pub closed spec fn token(self) -> Seq<char> {
        self.bot_token@
    }

    /// The account.
    pub closed spec fn account(self) -> i64 {
        self.account_id
    }

    /// The state of the circuit.
    pub closed spec fn circuit_state(self) -> CircuitState {
        self.circuit
    }

    #[verifier::type_invariant]
    spec fn inv(self) -> bool {
        circuit_wf(self.circuit)
    }

    /// A client for the help desk at `base_url`, which must be an address;
    /// [`ChatwootClient::try_new`] tests that.
    pub fn new(base_url: &str, bot_token: &str, account_id: i64) -> (r: Self)
        requires
            url_parsed(slashed(base_url@)) is Ok,
        ensures
            r.base() == url_parsed(slashed(base_url@))->Ok_0,
            r.token() == bot_token@,
            r.account() == account_id,
            r.circuit_state() == (CircuitState::Closed { failures: 0 }),
    {
        let base = match weburl::parse(with_slash(base_url).as_str()) {
            Ok(s) => s,
            Err(e) => e,
        };
        ChatwootClient {
            base_url: base,
            bot_token: SecretString::new(bot_token.to_string()),
            account_id,
            circuit: CircuitState::Closed { failures: 0 },
        }
    }

    /// A client for the help desk at `base_url`; `None` where that is no
    /// address.
    pub fn try_new(base_url: &str, bot_token: &str, account_id: i64) -> (r: Option<Self>)
        ensures
            r is Some <==> url_parsed(slashed(base_url@)) is Ok,
            r matches Some(c) ==> {
                &&& c.base() == url_parsed(slashed(base_url@))->Ok_0
                &&& c.token() == bot_token@
                &&& c.account() == account_id
                &&& c.circuit_state() == (CircuitState::Closed { failures: 0 })
            },
    {
        if weburl::parse(with_slash(base_url).as_str()).is_ok() {
            Some(ChatwootClient::new(base_url, bot_token, account_id))
        } else {
            None
        }
    }

    pub fn account_id(&self) -> (r: i64)
        ensures
            r == self.account(),
    {
        self.account_id
    }

    pub fn base_url(&self) -> (r: &str)
        ensures
            r@ == self.base(),
    {
        self.base_url.as_str()
    }

    pub fn bot_token(&self) -> (r: &SecretString)
        ensures
            r@ == self.token(),
    {
        &self.bot_token
    }

    /// The state of the circuit.
    pub fn circuit(&self) -> (r: CircuitState)
        ensures
            r == self.circuit_state(),
            circuit_wf(r),
    {
        proof {
            use_type_invariant(self);
        }
        self.circuit
    }

    /// Lets a call through or refuses it.
    pub fn check_circuit(&mut self, now_ms: u64) -> (r: Result<(), ChatwootError>)
        ensures
            match r {
                Ok(_) => !refuses(old(self).circuit_state(), now_ms),
                Err(e) => refuses(old(self).circuit_state(), now_ms) && e is CircuitOpen,
            },
            final(self).circuit_state() == let_through(old(self).circuit_state(), now_ms),
            final(self).base() == old(self).base(),
            final(self).token() == old(self).token(),
            final(self).account() == old(self).account(),
    {
        proof {
            use_type_invariant(&*self);
        }
        let mut circuit = self.circuit;
        let r = circuit.check_circuit(now_ms);
        self.circuit = circuit;
        r
    }

    /// A call worked: the circuit is closed.
    pub fn on_success(&mut self)
        ensures
            final(self).circuit_state() == (CircuitState::Closed { failures: 0 }),
            final(self).base() == old(self).base(),
            final(self).token() == old(self).token(),
            final(self).account() == old(self).account(),
    {
        self.circuit = CircuitState::Closed { failures: 0 };
    }

    /// A call failed.
    pub fn on_failure(&mut self, now_ms: u64)
        requires
            now_ms <= u64::MAX - OPEN_DURATION_MS,
        ensures
            final(self).circuit_state() == after_failure(old(self).circuit_state(), now_ms),
            final(self).base() == old(self).base(),
            final(self).token() == old(self).token(),
            final(self).account() == old(self).account(),
    {
        proof {
            use_type_invariant(&*self);
        }
        let mut circuit = self.circuit;
        circuit.on_failure(now_ms);
        self.circuit = circuit;
    }

    /// Notes an attempt in the circuit and says what to do next.
    pub fn on_reply(&mut self, attempt: u32, reply: CallReply, now_ms: u64) -> (r: RetryStep)
        requires
            attempt < MAX_ATTEMPTS,
            now_ms <= u64::MAX - OPEN_DURATION_MS,
        ensures
            replied(
                r,
                attempt,
                reply,
                now_ms,
                old(self).circuit_state(),
                final(self).circuit_state(),
            ),
            final(self).base() == old(self).base(),
            final(self).token() == old(self).token(),
            final(self).account() == old(self).account(),
    {
        proof {
            use_type_invariant(&*self);
        }
        let mut circuit = self.circuit;
        let r = circuit::on_reply(&mut circuit, attempt, reply, now_ms);
        self.circuit = circuit;
        r
    }

    fn conv_path(&self, conv_id: i64, suffix: &str) -> (r: String)
        ensures
            r@ == conversation_path(self.account() as int, conv_id as int, suffix@),
    {
        let mut p = "api/v1/accounts/".to_string();
        p.append(text::i64_text(self.account_id).as_str());
        p.append("/conversations/");
        p.append(text::i64_text(conv_id).as_str());
        p.append("/");
        p.append(suffix);
        p
    }

    fn post(&self, path: &str, key: Option<String>, body: JsonValue) -> (r: Option<DeskRequest>)
        ensures
            posts(r, self.base(), path@, body@),
            r matches Some(q) ==> q.idempotency_key == key,
    {
        match weburl::join(self.base_url.as_str(), path) {
            Ok(url) => Some(
                DeskRequest { url, idempotency_key: key, body: DeskBody::Json(body) },
            ),
            Err(_) => None,
        }
    }

    fn get(&self, path: &str) -> (r: Option<DeskRequest>)
        ensures
            gets(r, self.base(), path@),
    {
        match weburl::join(self.base_url.as_str(), path) {
            Ok(url) => Some(DeskRequest { url, idempotency_key: None, body: DeskBody::Empty }),
            Err(_) => None,
        }
    }

    /// A fresh key for an operation: `{run_id}:{op}`.
    pub fn idempotency_key(&self, op: &str) -> (r: String)
        ensures
            keyed_run(r@, op@),
    {
        let id = RunId::new();
        let mut r = id.to_string();
        r.append(":");
        r.append(op);
        assert(r@ == hyphenated(id.0 as int) + ":"@ + op@);
        r
    }

    /// Sends a message to the contact.
    pub fn send_message(&self, conv_id: i64, content: &str) -> (r: Option<DeskRequest>)
        ensures
            posts(
                r,
                self.base(),
                conversation_path(self.account() as int, conv_id as int, "messages"@),
                message_body(content@),
            ),
            keyed(r, "send_message"@),
    {
        let key = self.idempotency_key("send_message");
        let mut m: Vec<(String, JsonValue)> = Vec::new();
        assert(members(m@) =~= Seq::<(Seq<char>, Json)>::empty());
        push_member(&mut m, "content", JsonValue::Str(content.to_string()));
        push_member(&mut m, "message_type", JsonValue::Str("outgoing".to_string()));
        push_member(&mut m, "content_type", JsonValue::Str("text".to_string()));
        push_member(&mut m, "private", JsonValue::Bool(false));
        proof {
            lemma_object(m);
            assert(members(m@) =~= message_body(content@)->Object_0);
        }
        self.post(
            self.conv_path(conv_id, "messages").as_str(),
            Some(key),
            JsonValue::Object(m),
        )
    }

    /// Leaves an internal note.
    pub fn send_private_note(&self, conv_id: i64, content: &str) -> (r: Option<DeskRequest>)
        ensures
            posts(
                r,
                self.base(),
                conversation_path(self.account() as int, conv_id as int, "messages"@),
                note_body(content@),
            ),
            keyed(r, "send_private_note"@),
    {
        let key = self.idempotency_key("send_private_note");
        let mut m: Vec<(String, JsonValue)> = Vec::new();
        assert(members(m@) =~= Seq::<(Seq<char>, Json)>::empty());
        push_member(&mut m, "content", JsonValue::Str(content.to_string()));
        push_member(&mut m, "message_type", JsonValue::Str("outgoing".to_string()));
        push_member(&mut m, "private", JsonValue::Bool(true));
        proof {
            lemma_object(m);
            assert(members(m@) =~= note_body(content@)->Object_0);
        }
        self.post(
            self.conv_path(conv_id, "messages").as_str(),
            Some(key),
            JsonValue::Object(m),
        )
    }

    /// Sends a file.
    pub fn send_attachment(
        &self,
        conv_id: i64,
        content: &str,
        file_bytes: Vec<u8>,
        filename: &str,
        mime: &str,
    ) -> (r: Option<DeskRequest>)
        ensures
            ({
                let path = conversation_path(self.account() as int, conv_id as int, "messages"@);
                match url_joined(self.base(), path) {
                    Ok(u) => {
                        &&& r matches Some(q)
                        &&& q.url@ == u
                        &&& q.body matches DeskBody::Form {
                            content: c,
                            message_type,
                            filename: f,
                            mime: m,
                            bytes,
                        }
                        &&& c@ == content@
                        &&& message_type@ == "outgoing"@
                        &&& f@ == filename@
                        &&& m@ == mime@
                        &&& bytes == file_bytes
                    },
                    Err(_) => r is None,
                }
            }),
            keyed(r, "send_attachment"@),
    {
        let key = self.idempotency_key("send_attachment");
        match weburl::join(self.base_url.as_str(), self.conv_path(conv_id, "messages").as_str()) {
            Ok(url) => Some(
                DeskRequest {
                    url,
                    idempotency_key: Some(key),
                    body: DeskBody::Form {
                        content: content.to_string(),
                        message_type: "outgoing".to_string(),
                        filename: filename.to_string(),
                        mime: mime.to_string(),
                        bytes: file_bytes,
                    },
                },
            ),
            Err(_) => None,
        }
    }

    /// Sends a message with a list to choose from.
    pub fn send_input_select(&self, conv_id: i64, content: &str, items: Vec<SelectItem>) -> (r:
        Option<DeskRequest>)
        ensures
            posts(
                r,
                self.base(),
                conversation_path(self.account() as int, conv_id as int, "messages"@),
                select_body(content@, items@),
            ),
            unkeyed(r),
    {
        let mut m: Vec<(String, JsonValue)> = Vec::new();
        assert(members(m@) =~= Seq::<(Seq<char>, Json)>::empty());
        push_member(&mut m, "content", JsonValue::Str(content.to_string()));
        push_member(&mut m, "content_type", JsonValue::Str("input_select".to_string()));
        push_member(&mut m, "content_attributes", one_member("items", items_value(&items)));
        push_member(&mut m, "message_type", JsonValue::Str("outgoing".to_string()));
        push_member(&mut m, "private", JsonValue::Bool(false));
        proof {
            lemma_object(m);
            assert(members(m@) =~= select_body(content@, items@)->Object_0);
        }
        self.post(self.conv_path(conv_id, "messages").as_str(), None, JsonValue::Object(m))
    }

    /// Changes the status of a conversation.
    pub fn toggle_status(&self, conv_id: i64, status: &str) -> (r: Option<DeskRequest>)
        ensures
            posts(
                r,
                self.base(),
                conversation_path(self.account() as int, conv_id as int, "toggle_status"@),
                Json::Object(seq![("status"@, Json::Str(status@))]),
            ),
            unkeyed(r),
    {
        self.post(
            self.conv_path(conv_id, "toggle_status").as_str(),
            None,
            one_member("status", JsonValue::Str(status.to_string())),
        )
    }

    /// Gives a conversation to an attendant.
    pub fn assign_agent(&self, conv_id: i64, assignee_id: i64) -> (r: Option<DeskRequest>)
        ensures
            posts(
                r,
                self.base(),
                conversation_path(self.account() as int, conv_id as int, "assignments"@),
                Json::Object(seq![("assignee_id"@, Json::Int(assignee_id as int))]),
            ),
            unkeyed(r),
    {
        self.post(
            self.conv_path(conv_id, "assignments").as_str(),
            None,
            one_member("assignee_id", of_i64(assignee_id)),
        )
    }

    /// Gives a conversation to a team.
    pub fn assign_team(&self, conv_id: i64, team_id: i64) -> (r: Option<DeskRequest>)
        ensures
            posts(
                r,
                self.base(),
                conversation_path(self.account() as int, conv_id as int, "assignments"@),
                Json::Object(seq![("team_id"@, Json::Int(team_id as int))]),
            ),
            unkeyed(r),
    {
        self.post(
            self.conv_path(conv_id, "assignments").as_str(),
            None,
            one_member("team_id", of_i64(team_id)),
        )
    }

    /// Writes the labels of a conversation: all of them.
    pub fn set_labels(&self, conv_id: i64, labels: &Vec<String>) -> (r: Option<DeskRequest>)
        ensures
            posts(
                r,
                self.base(),
                conversation_path(self.account() as int, conv_id as int, "labels"@),
                Json::Object(seq![("labels"@, text_list(texts(labels@)))]),
            ),
            unkeyed(r),
    {
        self.post(
            self.conv_path(conv_id, "labels").as_str(),
            None,
            one_member("labels", of_texts(labels)),
        )
    }

    /// Reads the labels of a conversation.
    pub fn get_labels(&self, conv_id: i64) -> (r: Option<DeskRequest>)
        ensures
            gets(
                r,
                self.base(),
                conversation_path(self.account() as int, conv_id as int, "labels"@),
            ),
    {
        self.get(self.conv_path(conv_id, "labels").as_str())
    }

    /// Writes the custom attributes of a conversation.
    pub fn update_custom_attributes(&self, conv_id: i64, attributes: JsonValue) -> (r: Option<
        DeskRequest,
    >)
        ensures
            posts(
                r,
                self.base(),
                conversation_path(self.account() as int, conv_id as int, "custom_attributes"@),
                Json::Object(seq![("custom_attributes"@, attributes@)]),
            ),
            unkeyed(r),
    {
        self.post(
            self.conv_path(conv_id, "custom_attributes").as_str(),
            None,
            one_member("custom_attributes", attributes),
        )
    }

    /// Reads a conversation.
    pub fn get_conversation(&self, conv_id: i64) -> (r: Option<DeskRequest>)
        ensures
            gets(
                r,
                self.base(),
                "api/v1/accounts/"@ + int_text(self.account() as int) + "/conversations/"@
                    + int_text(conv_id as int),
            ),
    {
        let mut p = "api/v1/accounts/".to_string();
        p.append(text::i64_text(self.account_id).as_str());
        p.append("/conversations/");
        p.append(text::i64_text(conv_id).as_str());
        self.get(p.as_str())
    }

    /// Reads a contact.
    pub fn get_contact(&self, contact_id: i64) -> (r: Option<DeskRequest>)
        ensures
            gets(
                r,
                self.base(),
                "api/v1/accounts/"@ + int_text(self.account() as int) + "/contacts/"@ + int_text(
                    contact_id as int,
                ),
            ),
    {
        let mut p = "api/v1/accounts/".to_string();
        p.append(text::i64_text(self.account_id).as_str());
        p.append("/contacts/");
        p.append(text::i64_text(contact_id).as_str());
        self.get(p.as_str())
    }

    /// Changes the priority of a conversation.
    pub fn set_priority(&self, conv_id: i64, priority: &str) -> (r: Option<DeskRequest>)
        ensures
            posts(
                r,
                self.base(),
                conversation_path(self.account() as int, conv_id as int, "toggle_priority"@),
                Json::Object(seq![("priority"@, Json::Str(priority@))]),
            ),
            unkeyed(r),
    {
        self.post(
            self.conv_path(conv_id, "toggle_priority").as_str(),
            None,
            one_member("priority", JsonValue::Str(priority.to_string())),
        )
    }
}

// ---------------------------------------------------------------------------
// Reading labels
// ---------------------------------------------------------------------------

/// The title of a label: the text itself, or the title of an object, or its
/// name where it has no title.
pub open spec fn label_title(j: Json) -> Option<Seq<char>> {
    match string_in(Some(j)) {
        Some(s) => Some(s),
        None => string_in(
            match member(j, "title"@) {
                Some(t) => Some(t),
                None => member(j, "name"@),
            },
        ),
    }
}

/// The titles of the entries that have one.
pub open spec fn label_titles(v: Seq<Json>) -> Seq<Seq<char>>
    decreases v.len(),
{
    if v.len() == 0 {
        Seq::empty()
    } else {
        match label_title(v.last()) {
            Some(t) => label_titles(v.drop_last()).push(t),
            None => label_titles(v.drop_last()),
        }
    }
}

/// The labels that a reply holds, as `["a"]`, `{"labels": ["a"]}` or
/// `{"labels": [{"title": "a"}]}`.
pub open spec fn labels_in(v: Json) -> Seq<Seq<char>> {
    match array_in(member(v, "labels"@)) {
        Some(a) => label_titles(a),
        None => match array_in(Some(v)) {
            Some(a) => label_titles(a),
            None => Seq::empty(),
        },
    }
}

fn title_of(j: &JsonValue) -> (r: Option<String>)
    ensures
        opt_text(r) == label_title(j@),
{
    let t = match j.as_str() {
        Some(s) => Some(s),
        None => match j.get("title") {
            Some(t) => t.as_str(),
            None => match j.get("name") {
                Some(n) => n.as_str(),
                None => None,
            },
        },
    };
    match t {
        Some(s) => Some(s.to_string()),
        None => None,
    }
}

fn titles(v: &Vec<JsonValue>) -> (r: Vec<String>)
    ensures
        texts(r@) == label_titles(jsons(v@)),
{
    let ghost all = jsons(v@);
    let mut r: Vec<String> = Vec::new();
    let mut i: usize = 0;
    assert(texts(r@) =~= Seq::<Seq<char>>::empty());
    while i < v.len()
        invariant
            i <= v@.len(),
            all == jsons(v@),
            texts(r@) == label_titles(all.take(i as int)),
        decreases v@.len() - i,
    {
        let ghost prior = texts(r@);
        assert(all.take(i as int + 1).drop_last() =~= all.take(i as int));
        assert(all.take(i as int + 1).last() == v@[i as int]@);
        if let Some(t) = title_of(&v[i]) {
            let ghost added = t@;
            r.push(t);
            assert(texts(r@) =~= prior.push(added));
        }
        i += 1;
    }
    assert(all.take(i as int) =~= all);
    r
}

/// The labels that a reply holds.
pub fn labels_of(v: &JsonValue) -> (r: Vec<String>)
    ensures
        texts(r@) == labels_in(v@),
{
    if let Some(l) = v.get("labels") {
        if let Some(a) = l.as_array() {
            return titles(a);
        }
    }
    match v.as_array() {
        Some(a) => titles(a),
        None => {
            let r: Vec<String> = Vec::new();
            assert(texts(r@) =~= Seq::<Seq<char>>::empty());
            r
        },
    }
}

// ---------------------------------------------------------------------------
// Laws
// ---------------------------------------------------------------------------

/// A message goes to the contact and a note stays with the attendants: both are
/// written into the same conversation, the one in public and the other not, each
/// under a fresh key of its own.
pub proof fn law_messages_are_public_and_notes_are_not(
    c: ChatwootClient,
    conv_id: i64,
    content: &str,
    m: Option<DeskRequest>,
    n: Option<DeskRequest>,
)
    requires
        call_ensures(ChatwootClient::send_message, (&c, conv_id, content), m),
        call_ensures(ChatwootClient::send_private_note, (&c, conv_id, content), n),
    ensures
        m is Some <==> n is Some,
        m matches Some(q) ==> q.url@ == n->Some_0.url@ && q.idempotency_key is Some && (
        q.body matches DeskBody::Json(j) && member(j@, "private"@) == Some(Json::Bool(false))
            && member(j@, "content"@) == Some(Json::Str(content@)) && member(j@, "message_type"@)
            == Some(Json::Str("outgoing"@))),
        n matches Some(q) ==> q.idempotency_key is Some && (q.body matches DeskBody::Json(j)
            && member(j@, "private"@) == Some(Json::Bool(true)) && member(j@, "content"@) == Some(
            Json::Str(content@),
        ) && member(j@, "message_type"@) == Some(Json::Str("outgoing"@))),
{
    lemma_message_members(content@);
}

proof fn lemma_message_members(content: Seq<char>)
    ensures
        member(message_body(content), "private"@) == Some(Json::Bool(false)),
        member(message_body(content), "content"@) == Some(Json::Str(content)),
        member(message_body(content), "message_type"@) == Some(Json::Str("outgoing"@)),
        member(note_body(content), "private"@) == Some(Json::Bool(true)),
        member(note_body(content), "content"@) == Some(Json::Str(content)),
        member(note_body(content), "message_type"@) == Some(Json::Str("outgoing"@)),
{
    reveal_strlit("content");
    reveal_strlit("message_type");
    reveal_strlit("content_type");
    reveal_strlit("private");
    assert("content"@.len() == 7 && "message_type"@.len() == 12 && "private"@.len() == 7);
    assert("content"@[0] == 'c' && "private"@[0] == 'p' && "content_type"@.len() == 12);
    assert("message_type"@[0] == 'm' && "content_type"@[0] == 'c');
    reveal_with_fuel(crate::json::first_member, 5);
    let a = message_body(content)->Object_0;
    let a1 = a.drop_first();
    let a2 = a1.drop_first();
    let a3 = a2.drop_first();
    assert(a1[0] == a[1] && a2[0] == a[2] && a3[0] == a[3]);
    let b = note_body(content)->Object_0;
    let b1 = b.drop_first();
    let b2 = b1.drop_first();
    assert(b1[0] == b[1] && b2[0] == b[2]);
}

/// Whether a request is one to a part of a conversation, with one member.
pub open spec fn writes_one(
    r: Option<DeskRequest>,
    c: ChatwootClient,
    conv_id: i64,
    part: Seq<char>,
    name: Seq<char>,
    value: Json,
) -> bool {
    match url_joined(
        c.base(),
        "api/v1/accounts/"@ + int_text(c.account() as int) + "/conversations/"@ + int_text(
            conv_id as int,
        ) + "/"@ + part,
    ) {
        Ok(u) => r matches Some(q) && q.url@ == u && q.idempotency_key is None && (
        q.body matches DeskBody::Json(j) && j@ == Json::Object(seq![(name, value)])),
        Err(_) => r is None,
    }
}

/// A conversation is given to an attendant or to a team by the member that names
/// the one or the other, and never by both; status, priority, labels and
/// attributes each have a part and a member of their own.
pub proof fn law_each_change_has_its_own_place(
    c: ChatwootClient,
    conv_id: i64,
    n: i64,
    word: &str,
    labels: Vec<String>,
    attributes: JsonValue,
    agent: Option<DeskRequest>,
    team: Option<DeskRequest>,
    status: Option<DeskRequest>,
    priority: Option<DeskRequest>,
    labelled: Option<DeskRequest>,
    attributed: Option<DeskRequest>,
)
    requires
        call_ensures(ChatwootClient::assign_agent, (&c, conv_id, n), agent),
        call_ensures(ChatwootClient::assign_team, (&c, conv_id, n), team),
        call_ensures(ChatwootClient::toggle_status, (&c, conv_id, word), status),
        call_ensures(ChatwootClient::set_priority, (&c, conv_id, word), priority),
        call_ensures(ChatwootClient::set_labels, (&c, conv_id, &labels), labelled),
        call_ensures(ChatwootClient::update_custom_attributes, (&c, conv_id, attributes), attributed),
    ensures
        writes_one(agent, c, conv_id, "assignments"@, "assignee_id"@, Json::Int(n as int)),
        writes_one(team, c, conv_id, "assignments"@, "team_id"@, Json::Int(n as int)),
        writes_one(status, c, conv_id, "toggle_status"@, "status"@, Json::Str(word@)),
        writes_one(priority, c, conv_id, "toggle_priority"@, "priority"@, Json::Str(word@)),
        writes_one(labelled, c, conv_id, "labels"@, "labels"@, text_list(texts(labels@))),
        writes_one(
            attributed,
            c,
            conv_id,
            "custom_attributes"@,
            "custom_attributes"@,
            attributes@,
        ),
{
}

/// A file goes into the conversation as it is, with its name, its type and the
/// words that come with it.
pub proof fn law_files_are_sent_as_they_are(
    c: ChatwootClient,
    conv_id: i64,
    content: &str,
    file_bytes: Vec<u8>,
    filename: &str,
    mime: &str,
    m: Option<DeskRequest>,
    r: Option<DeskRequest>,
)
    requires
        call_ensures(ChatwootClient::send_message, (&c, conv_id, content), m),
        call_ensures(
            ChatwootClient::send_attachment,
            (&c, conv_id, content, file_bytes, filename, mime),
            r,
        ),
    ensures
        r is Some <==> m is Some,
        r matches Some(q) ==> q.url@ == m->Some_0.url@ && q.idempotency_key is Some && (
        q.body matches DeskBody::Form {
            content: words,
            message_type,
            filename: name,
            mime: kind,
            bytes,
        } && words@ == content@ && message_type@ == "outgoing"@ && name@ == filename@ && kind@
            == mime@ && bytes@ == file_bytes@),
{
}

/// What is only read carries no body and no key, and a request to read labels
/// goes where they are written.
pub proof fn law_reading_changes_nothing(
    c: ChatwootClient,
    conv_id: i64,
    contact_id: i64,
    labels: Vec<String>,
    had: Option<DeskRequest>,
    wrote: Option<DeskRequest>,
    conv: Option<DeskRequest>,
    contact: Option<DeskRequest>,
)
    requires
        call_ensures(ChatwootClient::get_labels, (&c, conv_id), had),
        call_ensures(ChatwootClient::set_labels, (&c, conv_id, &labels), wrote),
        call_ensures(ChatwootClient::get_conversation, (&c, conv_id), conv),
        call_ensures(ChatwootClient::get_contact, (&c, contact_id), contact),
    ensures
        had is Some <==> wrote is Some,
        had matches Some(q) ==> q.body is Empty && q.idempotency_key is None && q.url@
            == wrote->Some_0.url@,
        conv matches Some(q) ==> q.body is Empty && q.idempotency_key is None,
        contact matches Some(q) ==> q.body is Empty && q.idempotency_key is None && url_joined(
            c.base(),
            "api/v1/accounts/"@ + int_text(c.account() as int) + "/contacts/"@ + int_text(
                contact_id as int,
            ),
        ) == Ok::<Seq<char>, Seq<char>>(q.url@),
{
}

proof fn lemma_titles(v: Seq<Json>)
    requires
        forall|i: int| 0 <= i < v.len() ==> (#[trigger] v[i]) is Str,
    ensures
        label_titles(v).len() == v.len(),
        forall|i: int| 0 <= i < v.len() ==> Json::Str(#[trigger] label_titles(v)[i]) == v[i],
    decreases v.len(),
{
    if v.len() > 0 {
        let w = v.drop_last();
        assert(forall|i: int| 0 <= i < w.len() ==> #[trigger] w[i] == v[i]);
        lemma_titles(w);
        assert(v[v.len() - 1] is Str);
    }
}

/// The labels of a conversation are read as they were written: the list that
/// `set_labels` sends is the list that comes back, alone or as a member.
pub proof fn law_labels_are_read_as_written(
    labels: Vec<String>,
    alone: JsonValue,
    wrapped: JsonValue,
    a: Vec<String>,
    b: Vec<String>,
)
    requires
        alone@ == text_list(texts(labels@)),
        wrapped@ == Json::Object(seq![("labels"@, text_list(texts(labels@)))]),
        call_ensures(labels_of, (&alone,), a),
        call_ensures(labels_of, (&wrapped,), b),
    ensures
        texts(a@) == texts(labels@),
        texts(b@) == texts(labels@),
{
    let v = text_list(texts(labels@))->Array_0;
    assert(forall|i: int| 0 <= i < v.len() ==> #[trigger] v[i] == Json::Str(texts(labels@)[i]));
    lemma_titles(v);
    assert(label_titles(v) =~= texts(labels@)) by {
        assert forall|i: int| 0 <= i < v.len() implies label_titles(v)[i] == texts(labels@)[i] by {
            assert(Json::Str(label_titles(v)[i]) == v[i]);
        }
    }
}

/// A label that comes as an object is known by its title, by its name where it
/// has no title, and passed over where it has neither.
pub proof fn law_labels_are_known_by_title(label: Json, v: JsonValue, r: Vec<String>)
    requires
        label is Object,
        v@ == Json::Array(seq![label]),
        call_ensures(labels_of, (&v,), r),
    ensures
        member(label, "title"@) matches Some(t) ==> (t matches Json::Str(s) ==> texts(r@)
            == seq![s]),
        member(label, "title"@) is None ==> (member(label, "name"@) matches Some(t) ==> (
        t matches Json::Str(s) ==> texts(r@) == seq![s])),
        member(label, "title"@) is None && member(label, "name"@) is None ==> r@.len() == 0,
{
    let a = seq![label];
    assert(a.drop_last() =~= Seq::<Json>::empty());
    assert(a.last() == label);
    assert(label_titles(a.drop_last()) =~= Seq::<Seq<char>>::empty());
    assert(texts(r@).len() == r@.len());
    assert(texts(r@) == label_titles(a));
}

/// The circuit of a client moves as any circuit does, and nothing else of the
/// client changes.
pub proof fn law_the_circuit_of_a_client_is_a_circuit(
    c: &mut ChatwootClient,
    s: &mut CircuitState,
    now_ms: u64,
    r: Result<(), ChatwootError>,
    t: Result<(), ChatwootError>,
)
    requires
        old(c).circuit_state() == *old(s),
        call_ensures(ChatwootClient::check_circuit, (c, now_ms), r),
        call_ensures(CircuitState::check_circuit, (s, now_ms), t),
    ensures
        r is Ok <==> t is Ok,
        final(c).circuit_state() == *final(s),
        final(c).base() == old(c).base(),
        final(c).token() == old(c).token(),
        final(c).account() == old(c).account(),
{
}

/// What comes of a call moves the circuit of the client as it moves any circuit.
pub proof fn law_replies_move_the_circuit_of_the_client(
    c: &mut ChatwootClient,
    d: &mut ChatwootClient,
    e: &mut ChatwootClient,
    s: &mut CircuitState,
    f: &mut CircuitState,
    attempt: u32,
    reply: CallReply,
    now_ms: u64,
    r: RetryStep,
    t: RetryStep,
)
    requires
        attempt < 3,
        now_ms <= u64::MAX - 60000,
        old(c).circuit_state() == *old(s),
        old(d).circuit_state() == *old(f),
        call_ensures(ChatwootClient::on_reply, (c, attempt, reply, now_ms), r),
        call_ensures(circuit::on_reply, (s, attempt, reply, now_ms), t),
        call_ensures(ChatwootClient::on_failure, (d, now_ms), ()),
        call_ensures(CircuitState::on_failure, (f, now_ms), ()),
        call_ensures(ChatwootClient::on_success, (e,), ()),
    ensures
        final(c).circuit_state() == *final(s),
        r is Success <==> t is Success,
        r is Again <==> t is Again,
        r is Refused <==> t is Refused,
        final(d).circuit_state() == *final(f),
        final(e).circuit_state() == (CircuitState::Closed { failures: 0 }),
        final(c).account() == old(c).account() && final(d).account() == old(d).account(),
        final(c).base() == old(c).base() && final(d).base() == old(d).base(),
        final(c).token() == old(c).token() && final(d).token() == old(d).token(),
{
}

/// A client is made for the address that it is given, with a slash at its end;
/// where that is no address there is none. It keeps its account and its token,
/// and begins with a closed circuit.
pub proof fn law_clients_are_made_for_their_address(
    base_url: &str,
    bot_token: &str,
    account_id: i64,
    r: Option<ChatwootClient>,
)
    requires
        base_url@.len() == 0 || base_url@.last() != '/',
        call_ensures(ChatwootClient::try_new, (base_url, bot_token, account_id), r),
    ensures
        r is Some <==> url_parsed(base_url@.push('/')) is Ok,
        r matches Some(c) ==> Ok::<Seq<char>, Seq<char>>(c.base()) == url_parsed(
            base_url@.push('/'),
        ) && c.token() == bot_token@ && c.account() == account_id && c.circuit_state() == (
        CircuitState::Closed { failures: 0 }),
{
    reveal_strlit("/");
    let s = "/"@;
    assert(s =~= seq!['/']);
    assert(base_url@ + s =~= base_url@.push('/'));
    if stands_at(base_url@, s, base_url@.len() - 1) {
        let n = base_url@.len();
        assert(base_url@.subrange(n - 1, n as int)[0] == base_url@.last());
    }
}

/// An address that ends with a slash is taken as it is.
pub proof fn law_a_slash_is_not_doubled(
    base_url: &str,
    bot_token: &str,
    account_id: i64,
    r: Option<ChatwootClient>,
)
    requires
        base_url@.len() > 0 && base_url@.last() == '/',
        call_ensures(ChatwootClient::try_new, (base_url, bot_token, account_id), r),
    ensures
        r is Some <==> url_parsed(base_url@) is Ok,
        r matches Some(c) ==> Ok::<Seq<char>, Seq<char>>(c.base()) == url_parsed(base_url@),
{
    reveal_strlit("/");
    let s = "/"@;
    let n = base_url@.len();
    assert(base_url@.subrange(n - 1, n as int) =~= s);
}

/// A list to choose from goes to the contact with its words and its entries, each
/// with what is shown and what it stands for.
pub proof fn law_lists_to_choose_from(
    c: ChatwootClient,
    conv_id: i64,
    content: &str,
    items: Vec<SelectItem>,
    m: Option<DeskRequest>,
    r: Option<DeskRequest>,
)
    requires
        call_ensures(ChatwootClient::send_message, (&c, conv_id, content), m),
        call_ensures(ChatwootClient::send_input_select, (&c, conv_id, content, items), r),
    ensures
        r is Some <==> m is Some,
        r matches Some(q) ==> q.url@ == m->Some_0.url@ && (q.body matches DeskBody::Json(j)
            && member(j@, "content"@) == Some(Json::Str(content@)) && member(j@, "content_type"@)
            == Some(Json::Str("input_select"@)) && member(j@, "private"@) == Some(Json::Bool(false))
            && member(j@, "message_type"@) == Some(Json::Str("outgoing"@)) && (member(
            j@,
            "content_attributes"@,
        ) matches Some(a) && (array_in(member(a, "items"@)) matches Some(v) && v.len()
            == items@.len() && forall|i: int|
            0 <= i < v.len() ==> (#[trigger] v[i]) == Json::Object(
                seq![
                    ("title"@, Json::Str(items@[i].title@)),
                    ("value"@, Json::Str(items@[i].value@)),
                ],
            )))),
{
    reveal_strlit("content");
    reveal_strlit("content_type");
    reveal_strlit("content_attributes");
    reveal_strlit("message_type");
    reveal_strlit("private");
    assert("content"@.len() == 7 && "content_type"@.len() == 12);
    assert("content_attributes"@.len() == 18 && "message_type"@.len() == 12);
    assert("private"@.len() == 7 && "content"@[0] == 'c' && "private"@[0] == 'p');
    assert("content_type"@[0] == 'c' && "message_type"@[0] == 'm');
    reveal_with_fuel(crate::json::first_member, 6);
    let b = select_body(content@, items@)->Object_0;
    let b1 = b.drop_first();
    let b2 = b1.drop_first();
    let b3 = b2.drop_first();
    let b4 = b3.drop_first();
    assert(b1[0] == b[1] && b2[0] == b[2] && b3[0] == b[3] && b4[0] == b[4]);
}

/// The key of an operation is the id of a run, which takes thirty-six characters
/// and is of version four, and behind a colon the name of the operation. So two
/// operations of different names never share a key.
pub proof fn law_keys_name_their_operation(
    c: ChatwootClient,
    op: &str,
    other: &str,
    r: String,
    s: String,
)
    requires
        call_ensures(ChatwootClient::idempotency_key, (&c, op), r),
        call_ensures(ChatwootClient::idempotency_key, (&c, other), s),
    ensures
        r@.len() == 37 + op@.len(),
        r@[14] == '4',
        r@[19] == '8' || r@[19] == '9' || r@[19] == 'a' || r@[19] == 'b',
        r@[36] == ':',
        r@.skip(37) == op@,
        r@ == s@ ==> op@ == other@,
{
    lemma_key_parts(r@, op@);
    lemma_key_parts(s@, other@);
}

proof fn lemma_key_parts(key: Seq<char>, op: Seq<char>)
    requires
        keyed_run(key, op),
    ensures
        key.len() == 37 + op.len(),
        key[14] == '4',
        key[19] == '8' || key[19] == '9' || key[19] == 'a' || key[19] == 'b',
        key[36] == ':',
        key.skip(37) =~= op,
{
    reveal_strlit(":");
    let n = choose|n: u128|
        {
            &&& key == #[trigger] hyphenated(n as int) + ":"@ + op
            &&& nibble(n as int, 19) == 4
            &&& 8 <= nibble(n as int, 15) <= 11
        };
    assert(key[14] == hyphenated(n as int)[14]);
    assert(key[19] == hyphenated(n as int)[19]);
    crate::ids::law_hexadecimal_digits(4);
    crate::ids::law_hexadecimal_digits(nibble(n as int, 15));
    assert((48 + 4) as u8 as char == '4');
    assert((48 + 8) as u8 as char == '8' && (48 + 9) as u8 as char == '9');
    assert((87 + 10) as u8 as char == 'a' && (87 + 11) as u8 as char == 'b');
}

/// Each operation that may be sent twice carries a key of its own: a message, a
/// note and a file never share one.
pub proof fn law_each_sending_has_its_own_key(
    c: ChatwootClient,
    conv_id: i64,
    content: &str,
    bytes: Vec<u8>,
    filename: &str,
    mime: &str,
    m: Option<DeskRequest>,
    n: Option<DeskRequest>,
    f: Option<DeskRequest>,
)
    requires
        call_ensures(ChatwootClient::send_message, (&c, conv_id, content), m),
        call_ensures(ChatwootClient::send_private_note, (&c, conv_id, content), n),
        call_ensures(
            ChatwootClient::send_attachment,
            (&c, conv_id, content, bytes, filename, mime),
            f,
        ),
    ensures
        m matches Some(q) ==> (q.idempotency_key matches Some(k) && k@.skip(37)
            == "send_message"@),
        n matches Some(q) ==> (q.idempotency_key matches Some(k) && k@.skip(37)
            == "send_private_note"@),
        f matches Some(q) ==> (q.idempotency_key matches Some(k) && k@.skip(37)
            == "send_attachment"@),
{
    if let Some(q) = m {
        lemma_key_parts(q.idempotency_key->Some_0@, "send_message"@);
    }
    if let Some(q) = n {
        lemma_key_parts(q.idempotency_key->Some_0@, "send_private_note"@);
    }
    if let Some(q) = f {
        lemma_key_parts(q.idempotency_key->Some_0@, "send_attachment"@);
    }
}

/// A client keeps what it was made with, and begins with all calls allowed.
pub proof fn law_clients_keep_their_account(
    base: &str,
    bot_token: &str,
    account_id: i64,
    made: Option<ChatwootClient>,
    c: ChatwootClient,
    account: i64,
    url: &str,
    token: &SecretString,
    state: CircuitState,
)
    requires
        call_ensures(ChatwootClient::try_new, (base, bot_token, account_id), made),
        made == Some(c),
        call_ensures(ChatwootClient::account_id, (&c,), account),
        call_ensures(ChatwootClient::base_url, (&c,), url),
        call_ensures(ChatwootClient::bot_token, (&c,), token),
        call_ensures(ChatwootClient::circuit, (&c,), state),
    ensures
        account == account_id,
        token@ == bot_token@,
        state == (CircuitState::Closed { failures: 0 }),
        base@.len() > 0 && base@.last() == '/' ==> url_parsed(base@) == Ok::<Seq<char>, Seq<char>>(
            url@,
        ),
        base@.len() > 0 && base@.last() != '/' ==> url_parsed(base@.push('/')) == Ok::<
            Seq<char>,
            Seq<char>,
        >(url@),
{
    reveal_strlit("/");
    if base@.len() > 0 {
        assert(base@.subrange(base@.len() - 1, base@.len() as int) =~= seq![base@.last()]);
        assert("/"@ =~= seq!['/']);
        assert(base@ + "/"@ =~= base@.push('/'));
        assert(seq![base@.last()][0] == base@.last() && seq!['/'][0] == '/');
    }
}

} // verus!
