//! The part of the help desk that the scheduler uses.
use crate::config::ChatwootConfig;
use crate::error::ChatwootError;
use crate::json::{
    i64_in, lemma_object, member, members, of_i64, of_texts, one_member, push_member, text_list,
    Json, JsonValue,
};
use crate::same_label_in;
use crate::text;
use crate::text::{int_text, opt_text, texts, trimmed_end};
use vstd::prelude::*;

verus! {

/// A request to the help desk: it reads without a body and writes with one.
#[derive(Debug, Clone)]
pub struct DeskRequest {
    pub url: String,
    pub body: Option<JsonValue>,
}

/// The body of a request.
pub open spec fn body_of(b: Option<JsonValue>) -> Option<Json> {
    match b {
        Some(j) => Some(j@),
        None => None,
    }
}

/// An account of the help desk. Each request carries the token under
/// `api_access_token`.
#[derive(Debug, Clone)]
pub struct ChatwootClient {
    pub base: String,
    pub account_id: i64,
    pub token: String,
}

/// The address of a path of an account.
pub open spec fn api_url(c: ChatwootClient, path: Seq<char>) -> Seq<char> {
    c.base@ + "/api/v1/accounts/"@ + int_text(c.account_id as int) + path
}

/// The path of a conversation.
pub open spec fn conv_path(conv_id: int, rest: Seq<char>) -> Seq<char> {
    "/conversations/"@ + int_text(conv_id) + rest
}

impl ChatwootClient {
    /// The account of a configuration.
    pub fn new(cfg: &ChatwootConfig) -> (r: Self)
        ensures
            r.base@ == trimmed_end(cfg.base_url@, '/'),
            r.account_id == cfg.account_id,
            r.token@ == cfg.bot_token@,
    {
        ChatwootClient {
            base: text::trim_end_char(cfg.base_url.as_str(), '/'),
            account_id: cfg.account_id,
            token: cfg.bot_token.expose().to_string(),
        }
    }

    fn api(&self, path: &str) -> (r: String)
        ensures
            r@ == api_url(*self, path@),
    {
        let mut r = self.base.clone();
        r.append("/api/v1/accounts/");
        r.append(text::i64_text(self.account_id).as_str());
        r.append(path);
        r
    }

    fn conversation(&self, conv_id: i64, rest: &str) -> (r: String)
        ensures
            r@ == api_url(*self, conv_path(conv_id as int, rest@)),
    {
        let mut path = "/conversations/".to_string();
        path.append(text::i64_text(conv_id).as_str());
        path.append(rest);
        self.api(path.as_str())
    }

    /// The address of the help desk, without a slash at its end.
    pub fn base(&self) -> (r: &str)
        ensures
            r@ == self.base@,
    {
        self.base.as_str()
    }

    pub fn account_id(&self) -> (r: i64)
        ensures
            r == self.account_id,
    {
        self.account_id
    }

    /// Reads a conversation.
    pub fn get_conversation(&self, conv_id: i64) -> (r: DeskRequest)
        ensures
            r.url@ == api_url(*self, conv_path(conv_id as int, ""@)),
            r.body is None,
    {
        DeskRequest { url: self.conversation(conv_id, ""), body: None }
    }

    /// Reads the open conversations.
    pub fn list_open_conversations(&self) -> (r: DeskRequest)
        ensures
            r.url@ == api_url(*self, "/conversations?status=open&assignee_type=all"@),
            r.body is None,
    {
        DeskRequest {
            url: self.api("/conversations?status=open&assignee_type=all"),
            body: None,
        }
    }

    /// Reads the labels of a conversation.
    pub fn get_labels(&self, conv_id: i64) -> (r: DeskRequest)
        ensures
            r.url@ == api_url(*self, conv_path(conv_id as int, "/labels"@)),
            r.body is None,
    {
        DeskRequest { url: self.conversation(conv_id, "/labels"), body: None }
    }

    /// Writes the labels of a conversation in place of those it has.
    pub fn set_labels(&self, conv_id: i64, labels: &Vec<String>) -> (r: DeskRequest)
        ensures
            r.url@ == api_url(*self, conv_path(conv_id as int, "/labels"@)),
            body_of(r.body) == Some(Json::Object(seq![("labels"@, text_list(texts(labels@)))])),
    {
        DeskRequest {
            url: self.conversation(conv_id, "/labels"),
            body: Some(one_member("labels", of_texts(labels))),
        }
    }

    /// Adds a label to those that a conversation has; `None` where it has it,
    /// up to ASCII case.
    pub fn add_label(&self, conv_id: i64, current: &Vec<String>, label: &str) -> (r: Option<
        DeskRequest,
    >)
        ensures
            match r {
                Some(q) => !same_label_in(texts(current@), label@) && q.url@ == api_url(
                    *self,
                    conv_path(conv_id as int, "/labels"@),
                ) && body_of(q.body) == Some(
                    Json::Object(seq![("labels"@, text_list(texts(current@).push(label@)))]),
                ),
                None => same_label_in(texts(current@), label@),
            },
    {
        if crate::has_label(current, label) {
            return None;
        }
        let mut all = text::copy_texts(current);
        all.push(label.to_string());
        assert(texts(all@) =~= texts(current@).push(label@));
        Some(self.set_labels(conv_id, &all))
    }

    /// Sets the status of a conversation.
    pub fn toggle_status(&self, conv_id: i64, status: &str) -> (r: DeskRequest)
        ensures
            r.url@ == api_url(*self, conv_path(conv_id as int, "/toggle_status"@)),
            body_of(r.body) == Some(Json::Object(seq![("status"@, Json::Str(status@))])),
    {
        DeskRequest {
            url: self.conversation(conv_id, "/toggle_status"),
            body: Some(one_member("status", JsonValue::Str(status.to_string()))),
        }
    }

    /// Gives a conversation to a team.
    pub fn assign_team(&self, conv_id: i64, team_id: i64) -> (r: DeskRequest)
        ensures
            r.url@ == api_url(*self, conv_path(conv_id as int, "/assignments"@)),
            body_of(r.body) == Some(Json::Object(seq![("team_id"@, Json::Int(team_id as int))])),
    {
        DeskRequest {
            url: self.conversation(conv_id, "/assignments"),
            body: Some(one_member("team_id", of_i64(team_id))),
        }
    }

    /// Leaves an internal note.
    pub fn send_private_note(&self, conv_id: i64, content: &str) -> (r: DeskRequest)
        ensures
            r.url@ == api_url(*self, conv_path(conv_id as int, "/messages"@)),
            body_of(r.body) == Some(
                Json::Object(
                    seq![
                        ("content"@, Json::Str(content@)),
                        ("message_type"@, Json::Str("outgoing"@)),
                        ("private"@, Json::Bool(true)),
                    ],
                ),
            ),
    {
        let mut m: Vec<(String, JsonValue)> = Vec::new();
        push_member(&mut m, "content", JsonValue::Str(content.to_string()));
        push_member(&mut m, "message_type", JsonValue::Str("outgoing".to_string()));
        push_member(&mut m, "private", JsonValue::Bool(true));
        proof {
            lemma_object(m);
            assert(members(m@) =~= seq![
                ("content"@, Json::Str(content@)),
                ("message_type"@, Json::Str("outgoing"@)),
                ("private"@, Json::Bool(true)),
            ]);
        }
        DeskRequest {
            url: self.conversation(conv_id, "/messages"),
            body: Some(JsonValue::Object(m)),
        }
    }

    /// Reads a contact, for its name.
    pub fn get_contact_name(&self, contact_id: i64) -> (r: DeskRequest)
        ensures
            r.url@ == api_url(*self, "/contacts/"@ + int_text(contact_id as int)),
            r.body is None,
    {
        let path = "/contacts/".to_string().concat(text::i64_text(contact_id).as_str());
        DeskRequest { url: self.api(path.as_str()), body: None }
    }

    /// Reads the last messages of a conversation.
    pub fn conversation_has_message(&self, conv_id: i64) -> (r: DeskRequest)
        ensures
            r.url@ == api_url(*self, conv_path(conv_id as int, "/messages"@)),
            r.body is None,
    {
        DeskRequest { url: self.conversation(conv_id, "/messages"), body: None }
    }

    /// Sends the payload of a message once more.
    pub fn repost_message(&self, conv_id: i64, payload: &JsonValue) -> (r: DeskRequest)
        ensures
            r.url@ == api_url(*self, conv_path(conv_id as int, "/messages"@)),
            body_of(r.body) == Some(payload@),
    {
        DeskRequest {
            url: self.conversation(conv_id, "/messages"),
            body: Some(payload.copy()),
        }
    }
}

/// What a status other than success means.
pub fn map_status(status: u16) -> (r: ChatwootError)
    ensures
        match status {
            401 | 403 => r is AuthError,
            404 => r is NotFound,
            429 => r is RateLimited,
            408 => r is Timeout,
            _ => r is ApiError && r->ApiError_0@ == "http "@ + int_text(status as int),
        },
{
    match status {
        401 | 403 => ChatwootError::AuthError,
        404 => ChatwootError::NotFound,
        429 => ChatwootError::RateLimited,
        408 => ChatwootError::Timeout,
        _ => ChatwootError::ApiError(
            "http ".to_string().concat(text::i64_text(status as i64).as_str()),
        ),
    }
}

/// A page of conversations.
#[derive(Debug, Clone)]
pub struct CwConversationPage {
    pub data: Vec<CwConversation>,
}

/// What is read of a conversation. Anything may be missing.
#[derive(Debug, Clone)]
pub struct CwConversation {
    pub id: Option<i64>,
    pub status: Option<String>,
    pub meta: Option<CwMeta>,
}

/// To whom a conversation belongs.
#[derive(Debug, Clone)]
pub struct CwMeta {
    pub assignee: Option<CwAssignee>,
    pub team: Option<CwTeam>,
}

#[derive(Debug, Clone)]
pub struct CwAssignee {
    pub id: Option<i64>,
    pub name: Option<String>,
}

#[derive(Debug, Clone)]
pub struct CwTeam {
    pub id: Option<i64>,
    pub name: Option<String>,
}

impl Default for CwConversation {
    fn default() -> (r: Self)
        ensures
            r.id is None,
            r.status is None,
            r.meta is None,
    {
        CwConversation { id: None, status: None, meta: None }
    }
}

impl Default for CwMeta {
    fn default() -> (r: Self)
        ensures
            r.assignee is None,
            r.team is None,
    {
        CwMeta { assignee: None, team: None }
    }
}

impl Default for CwAssignee {
    fn default() -> (r: Self)
        ensures
            r.id is None,
            r.name is None,
    {
        CwAssignee { id: None, name: None }
    }
}

impl Default for CwTeam {
    fn default() -> (r: Self)
        ensures
            r.id is None,
            r.name is None,
    {
        CwTeam { id: None, name: None }
    }
}

/// The ids of a list of conversations, in order; one without an id is left out.
pub open spec fn known_ids(v: Seq<CwConversation>) -> Seq<i64>
    decreases v.len(),
{
    if v.len() == 0 {
        Seq::empty()
    } else {
        let rest = known_ids(v.drop_last());
        match v.last().id {
            Some(n) => rest.push(n),
            None => rest,
        }
    }
}

/// The ids of a page of conversations.
pub fn conversation_ids(page: &CwConversationPage) -> (r: Vec<i64>)
    ensures
        r@ == known_ids(page.data@),
{
    let ghost all = page.data@;
    let mut r: Vec<i64> = Vec::new();
    let mut i: usize = 0;
    while i < page.data.len()
        invariant
            i <= page.data@.len(),
            all == page.data@,
            r@ == known_ids(all.take(i as int)),
        decreases page.data@.len() - i,
    {
        assert(all.take(i as int + 1).drop_last() =~= all.take(i as int));
        if let Some(n) = page.data[i].id {
            r.push(n);
        }
        i += 1;
    }
    assert(all.take(i as int) =~= all);
    r
}

/// Whether a message is among those that were read.
pub fn has_message(ids: &Vec<Option<i64>>, chatwoot_msg_id: i64) -> (r: bool)
    ensures
        r == ids@.contains(Some(chatwoot_msg_id)),
{
    let mut i: usize = 0;
    while i < ids.len()
        invariant
            i <= ids@.len(),
            forall|k: int| 0 <= k < i ==> ids@[k] != Some(chatwoot_msg_id),
        decreases ids@.len() - i,
    {
        if let Some(n) = ids[i] {
            if n == chatwoot_msg_id {
                assert(ids@[i as int] == Some(chatwoot_msg_id));
                return true;
            }
        }
        i += 1;
    }
    false
}

/// The id of a message that was sent; 0 where the reply names none.
pub fn sent_message_id(reply: &JsonValue) -> (r: i64)
    ensures
        r == (match i64_in(member(reply@, "id"@)) {
            Some(n) => n,
            None => 0,
        }),
{
    match reply.get("id") {
        Some(v) => match v.as_i64() {
            Some(n) => n,
            None => 0,
        },
        None => 0,
    }
}

/// The name of a contact, empty where none was read.
pub fn name_or_empty(name: Option<String>) -> (r: String)
    ensures
        r@ == (match opt_text(name) {
            Some(s) => s,
            None => ""@,
        }),
{
    match name {
        Some(s) => s,
        None => "".to_string(),
    }
}

// ---------------------------------------------------------------------------
// Laws
// ---------------------------------------------------------------------------

/// The address of a conversation, in full.
pub open spec fn conversation_url(c: ChatwootClient, conv_id: i64, rest: Seq<char>) -> Seq<char> {
    c.base@ + "/api/v1/accounts/"@ + int_text(c.account_id as int) + ("/conversations/"@
        + int_text(conv_id as int) + rest)
}

/// Every request on a conversation goes to that conversation of the account, and
/// to the part of it that the request is about.
pub proof fn law_requests_go_to_their_conversation(
    c: ChatwootClient,
    conv_id: i64,
    labels: Vec<String>,
    status: &str,
    team_id: i64,
    content: &str,
    payload: JsonValue,
    read: DeskRequest,
    had: DeskRequest,
    wrote: DeskRequest,
    toggled: DeskRequest,
    assigned: DeskRequest,
    noted: DeskRequest,
    looked: DeskRequest,
    reposted: DeskRequest,
)
    requires
        call_ensures(ChatwootClient::get_conversation, (&c, conv_id), read),
        call_ensures(ChatwootClient::get_labels, (&c, conv_id), had),
        call_ensures(ChatwootClient::set_labels, (&c, conv_id, &labels), wrote),
        call_ensures(ChatwootClient::toggle_status, (&c, conv_id, status), toggled),
        call_ensures(ChatwootClient::assign_team, (&c, conv_id, team_id), assigned),
        call_ensures(ChatwootClient::send_private_note, (&c, conv_id, content), noted),
        call_ensures(ChatwootClient::conversation_has_message, (&c, conv_id), looked),
        call_ensures(ChatwootClient::repost_message, (&c, conv_id, &payload), reposted),
    ensures
        read.url@ == conversation_url(c, conv_id, ""@) && read.body is None,
        had.url@ == conversation_url(c, conv_id, "/labels"@) && had.body is None,
        wrote.url@ == had.url@ && wrote.body is Some,
        toggled.url@ == conversation_url(c, conv_id, "/toggle_status"@),
        assigned.url@ == conversation_url(c, conv_id, "/assignments"@),
        noted.url@ == conversation_url(c, conv_id, "/messages"@),
        looked.url@ == noted.url@ && looked.body is None,
        reposted.url@ == noted.url@,
        reposted.body matches Some(b) && b@ == payload@,
{
}

/// What the scheduler writes is what it was told to: the status, the team, the
/// labels, and a note that only attendants see.
pub proof fn law_writes_carry_what_was_asked(
    c: ChatwootClient,
    conv_id: i64,
    labels: Vec<String>,
    status: &str,
    team_id: i64,
    content: &str,
    wrote: DeskRequest,
    toggled: DeskRequest,
    assigned: DeskRequest,
    noted: DeskRequest,
)
    requires
        call_ensures(ChatwootClient::set_labels, (&c, conv_id, &labels), wrote),
        call_ensures(ChatwootClient::toggle_status, (&c, conv_id, status), toggled),
        call_ensures(ChatwootClient::assign_team, (&c, conv_id, team_id), assigned),
        call_ensures(ChatwootClient::send_private_note, (&c, conv_id, content), noted),
    ensures
        wrote.body matches Some(b) && member(b@, "labels"@) == Some(text_list(texts(labels@))),
        toggled.body matches Some(b) && member(b@, "status"@) == Some(Json::Str(status@)),
        assigned.body matches Some(b) && member(b@, "team_id"@) == Some(Json::Int(team_id as int)),
        noted.body matches Some(b) && member(b@, "private"@) == Some(Json::Bool(true)) && member(
            b@,
            "content"@,
        ) == Some(Json::Str(content@)) && member(b@, "message_type"@) == Some(
            Json::Str("outgoing"@),
        ),
{
    reveal_strlit("content");
    reveal_strlit("message_type");
    reveal_strlit("private");
    assert("content"@.len() == 7 && "message_type"@.len() == 12 && "private"@.len() == 7);
    assert("content"@[0] == 'c' && "private"@[0] == 'p');
    reveal_with_fuel(crate::json::first_member, 4);
    let m = noted.body->Some_0@->Object_0;
    let m1 = m.drop_first();
    let m2 = m1.drop_first();
    assert(m1[0] == m[1] && m2[0] == m[2]);
}

/// A label is added to those that a conversation has, and none is lost; one that
/// is there, whatever the case of its letters, is not written again.
pub proof fn law_labels_are_added_once(
    c: ChatwootClient,
    conv_id: i64,
    current: Vec<String>,
    label: &str,
    r: Option<DeskRequest>,
)
    requires
        call_ensures(ChatwootClient::add_label, (&c, conv_id, &current, label), r),
    ensures
        r is None <==> exists|i: int|
            0 <= i < current@.len() && text::ascii_lowered((#[trigger] current@[i])@)
                == text::ascii_lowered(label@),
        r matches Some(q) ==> q.url@ == conversation_url(c, conv_id, "/labels"@) && (
        q.body matches Some(b) && member(b@, "labels"@) == Some(
            text_list(texts(current@).push(label@)),
        )),
{
    let v = texts(current@);
    if same_label_in(v, label@) {
        let i = choose|i: int|
            0 <= i < v.len() && text::same_ascii_case_folded(#[trigger] v[i], label@);
        assert(text::ascii_lowered(current@[i]@) == text::ascii_lowered(label@));
    }
    if exists|i: int|
        0 <= i < current@.len() && text::ascii_lowered((#[trigger] current@[i])@)
            == text::ascii_lowered(label@) {
        let i = choose|i: int|
            0 <= i < current@.len() && text::ascii_lowered((#[trigger] current@[i])@)
                == text::ascii_lowered(label@);
        assert(text::same_ascii_case_folded(v[i], label@));
    }
}

/// A status that is no success says why: the credential, what was asked for, the
/// time, too many calls, or the status itself.
pub proof fn law_statuses_say_why(status: u16, r: ChatwootError)
    requires
        call_ensures(map_status, (status,), r),
    ensures
        r is AuthError <==> status == 401 || status == 403,
        r is NotFound <==> status == 404,
        r is Timeout <==> status == 408,
        r is RateLimited <==> status == 429,
        r matches ChatwootError::ApiError(m) ==> m@ == "http "@ + int_text(status as int),
{
}

proof fn lemma_known_ids(v: Seq<CwConversation>, n: i64)
    ensures
        known_ids(v).contains(n) <==> exists|i: int|
            0 <= i < v.len() && (#[trigger] v[i]).id == Some(n),
        known_ids(v).len() <= v.len(),
    decreases v.len(),
{
    if v.len() > 0 {
        let w = v.drop_last();
        lemma_known_ids(w, n);
        let head = known_ids(w);
        let all = known_ids(v);
        assert(v[v.len() - 1] == v.last());
        if all.contains(n) {
            let k = choose|k: int| 0 <= k < all.len() && all[k] == n;
            if k < head.len() {
                assert(head[k] == n);
                let i = choose|i: int| 0 <= i < w.len() && (#[trigger] w[i]).id == Some(n);
                assert(v[i] == w[i]);
            }
        }
        if exists|i: int| 0 <= i < v.len() && (#[trigger] v[i]).id == Some(n) {
            let i = choose|i: int| 0 <= i < v.len() && (#[trigger] v[i]).id == Some(n);
            if i < w.len() {
                assert(w[i] == v[i]);
                let k = choose|k: int| 0 <= k < head.len() && head[k] == n;
                assert(all[k] == n);
            } else {
                assert(all[head.len() as int] == n);
            }
        }
    }
}

/// Every conversation of a page that has an id is found in the list of ids, and
/// no other number is.
pub proof fn law_pages_list_their_conversations(page: CwConversationPage, r: Vec<i64>, n: i64)
    requires
        call_ensures(conversation_ids, (&page,), r),
    ensures
        r@.contains(n) <==> exists|i: int|
            0 <= i < page.data@.len() && (#[trigger] page.data@[i]).id == Some(n),
        r@.len() <= page.data@.len(),
{
    lemma_known_ids(page.data@, n);
}

/// A message has arrived exactly where its id is among those that were read.
pub proof fn law_arrived_messages_are_found(ids: Vec<Option<i64>>, id: i64, r: bool)
    requires
        call_ensures(has_message, (&ids, id), r),
    ensures
        r <==> exists|i: int| 0 <= i < ids@.len() && #[trigger] ids@[i] == Some(id),
{
    if ids@.contains(Some(id)) {
        let i = choose|i: int| 0 <= i < ids@.len() && ids@[i] == Some(id);
        assert(ids@[i] == Some(id));
    }
}

/// A message that was sent is known by the id that the reply gives it, and one
/// whose reply gives none by 0; a contact without a name has an empty one.
pub proof fn law_sent_messages_are_known_by_id(
    reply: JsonValue,
    name: Option<String>,
    id: i64,
    shown: String,
)
    requires
        call_ensures(sent_message_id, (&reply,), id),
        call_ensures(name_or_empty, (name,), shown),
    ensures
        member(reply@, "id"@) is None ==> id == 0,
        member(reply@, "id"@) matches Some(v) ==> (v matches Json::Int(n) ==> (i64::MIN <= n
            <= i64::MAX ==> id == n)),
        name matches Some(s) ==> shown@ == s@,
        name is None ==> shown@.len() == 0,
{
    reveal_strlit("");
}

/// A client of the scheduler is made from the settings: the address without
/// slashes at its end, the account, and the token of the bot.
pub proof fn law_the_scheduler_uses_the_account(cfg: ChatwootConfig, c: ChatwootClient)
    requires
        cfg.base_url@.len() == 0 || cfg.base_url@.last() != '/',
        call_ensures(ChatwootClient::new, (&cfg,), c),
    ensures
        c.base@ == cfg.base_url@,
        c.account_id == cfg.account_id,
        c.token@ == cfg.bot_token@,
{
}

/// Open conversations are read over all attendants, and a contact by its number.
pub proof fn law_the_account_is_read(
    c: ChatwootClient,
    contact_id: i64,
    open: DeskRequest,
    contact: DeskRequest,
)
    requires
        call_ensures(ChatwootClient::list_open_conversations, (&c,), open),
        call_ensures(ChatwootClient::get_contact_name, (&c, contact_id), contact),
    ensures
        open.url@ == c.base@ + "/api/v1/accounts/"@ + int_text(c.account_id as int)
            + "/conversations?status=open&assignee_type=all"@ && open.body is None,
        contact.url@ == c.base@ + "/api/v1/accounts/"@ + int_text(c.account_id as int) + (
        "/contacts/"@ + int_text(contact_id as int)) && contact.body is None,
{
}

/// What the help desk leaves out is not made up.
pub proof fn law_what_the_desk_leaves_out_is_unknown(
    conv: CwConversation,
    meta: CwMeta,
    assignee: CwAssignee,
    team: CwTeam,
)
    requires
        call_ensures(CwConversation::default, (), conv),
        call_ensures(CwMeta::default, (), meta),
        call_ensures(CwAssignee::default, (), assignee),
        call_ensures(CwTeam::default, (), team),
    ensures
        conv.id is None && conv.status is None && conv.meta is None,
        meta.assignee is None && meta.team is None,
        assignee.id is None && assignee.name is None,
        team.id is None && team.name is None,
{
}

} // verus!
