//! What the scheduler tells attendants.
use crate::http::{headers_of, HttpCall};
use crate::json::{of_i64, Json};
use crate::notify::{telegram_body, telegram_post, telegram_url, Notification};
use crate::notify::{NotificationV, CHANNEL_TIMEOUT_MS};
use crate::scheduler::sla::{delay_of, escalation_step, MAX_LEVEL};
use crate::text;
use crate::text::{
    ascii_lowered, has_text, int_text, replaced, stands_at, texts, trimmed_end,
};
use vstd::prelude::*;

verus! {

/// What the scheduler reads of a conversation.
#[derive(Debug, Clone)]
pub struct ConvStateRow {
    pub conversation_id: i64,
    pub account_id: i64,
    pub contact_id: i64,
    pub channel: String,
    pub ai_state: String,
    pub chatwoot_status: String,
    pub assignee_id: Option<i64>,
    pub team_id: Option<i64>,
    pub labels: Vec<String>,
}

/// The name of a channel for people.
pub open spec fn channel_text(channel: Seq<char>) -> Seq<char> {
    let c = ascii_lowered(channel);
    if has_text(c, "whatsapp"@) {
        "WhatsApp"@
    } else if has_text(c, "instagram"@) {
        "Instagram"@
    } else if has_text(c, "email"@) {
        "E-mail"@
    } else if has_text(c, "widget"@) || has_text(c, "web"@) {
        "Widget"@
    } else {
        "Chat"@
    }
}

/// The name of a channel for people.
pub fn pretty_channel(c: &str) -> (r: &'static str)
    ensures
        r@ == channel_text(c@),
{
    let low = text::lower_ascii(c);
    let c = low.as_str();
    if text::contains(c, "whatsapp") {
        "WhatsApp"
    } else if text::contains(c, "instagram") {
        "Instagram"
    } else if text::contains(c, "email") {
        "E-mail"
    } else if text::contains(c, "widget") || text::contains(c, "web") {
        "Widget"
    } else {
        "Chat"
    }
}

/// Where a conversation is found in the help desk.
pub open spec fn link_of(base: Seq<char>, account: int, conv: int) -> Seq<char> {
    trimmed_end(base, '/') + "/app/accounts/"@ + int_text(account) + "/conversations/"@ + int_text(
        conv,
    )
}

/// Where a conversation is found in the help desk.
pub fn deep_link(base_url: &str, account_id: i64, conv_id: i64) -> (r: String)
    ensures
        r@ == link_of(base_url@, account_id as int, conv_id as int),
{
    let mut r = text::trim_end_char(base_url, '/');
    r.append("/app/accounts/");
    r.append(text::i64_text(account_id).as_str());
    r.append("/conversations/");
    r.append(text::i64_text(conv_id).as_str());
    r
}

/// Whether a label is one of the bridge's own.
pub open spec fn own_label(l: Seq<char>) -> bool {
    stands_at(l, "ia:"@, 0) || stands_at(l, "sla:"@, 0)
}

/// What a conversation is about: the first label that is not the bridge's own.
pub open spec fn subject_of(labels: Seq<Seq<char>>) -> Seq<char>
    decreases labels.len(),
{
    if labels.len() == 0 {
        "Atendimento pendente"@
    } else if !own_label(labels[0]) {
        labels[0]
    } else {
        subject_of(labels.drop_first())
    }
}

/// What a conversation is about.
pub fn subject(labels: &Vec<String>) -> (r: String)
    ensures
        r@ == subject_of(texts(labels@)),
{
    let ghost all = texts(labels@);
    let mut i: usize = 0;
    assert(all.skip(0) =~= all);
    while i < labels.len()
        invariant
            i <= labels@.len(),
            all == texts(labels@),
            subject_of(all.skip(i as int)) == subject_of(all),
        decreases labels@.len() - i,
    {
        assert(all.skip(i as int)[0] == labels@[i as int]@);
        assert(all.skip(i as int).drop_first() =~= all.skip(i as int + 1));
        let l = labels[i].as_str();
        if !(text::starts_with(l, "ia:") || text::starts_with(l, "sla:")) {
            return labels[i].clone();
        }
        i += 1;
    }
    assert(all.skip(i as int).len() == 0);
    "Atendimento pendente".to_string()
}

/// The text of a notification.
pub open spec fn notice_text(
    conv: ConvStateRow,
    contact_name: Seq<char>,
    minutes: int,
    link: Seq<char>,
) -> Seq<char> {
    "🔔 Atendimento pendente há "@ + int_text(minutes) + " min\n\nCliente: "@ + (
    if contact_name.len() == 0 {
        "—"@
    } else {
        contact_name
    }) + "\nAssunto: "@ + subject_of(texts(conv.labels@)) + "\nCanal: "@ + channel_text(
        conv.channel@,
    ) + "\nFila: "@ + (match conv.team_id {
        Some(t) => int_text(t as int),
        None => "—"@,
    }) + "\n\nAbrir: "@ + link
}

/// The text of a notification at a level of the ladder.
pub fn format_notification(conv: &ConvStateRow, contact_name: &str, level: i16, deep_link: &str) -> (r:
    String)
    requires
        0 <= level <= MAX_LEVEL,
    ensures
        r@ == notice_text(*conv, contact_name@, delay_of(level as int), deep_link@),
{
    let step = escalation_step(level);
    let mut r = "🔔 Atendimento pendente há ".to_string();
    r.append(text::i64_text(step.delay_accumulated_minutes as i64).as_str());
    r.append(" min\n\nCliente: ");
    if contact_name.is_empty() {
        r.append("—");
    } else {
        r.append(contact_name);
    }
    r.append("\nAssunto: ");
    r.append(subject(&conv.labels).as_str());
    r.append("\nCanal: ");
    r.append(pretty_channel(conv.channel.as_str()));
    r.append("\nFila: ");
    match conv.team_id {
        Some(t) => r.append(text::i64_text(t).as_str()),
        None => r.append("—"),
    }
    r.append("\n\nAbrir: ");
    r.append(deep_link);
    r
}

/// Who is told of a conversation.
pub open spec fn recipient_of(assignee_id: Option<i64>) -> Seq<char> {
    match assignee_id {
        Some(i) => int_text(i as int),
        None => "unassigned"@,
    }
}

/// Who is told of a conversation.
pub fn recipient(assignee_id: Option<i64>) -> (r: String)
    ensures
        r@ == recipient_of(assignee_id),
{
    match assignee_id {
        Some(i) => text::i64_text(i),
        None => "unassigned".to_string(),
    }
}

/// The notification of a conversation at a level of the ladder.
pub open spec fn notice_of(
    conv_id: i64,
    conv: ConvStateRow,
    contact_name: Seq<char>,
    level: i16,
    base_url: Seq<char>,
) -> NotificationV {
    let link = link_of(base_url, conv.account_id as int, conv_id as int);
    NotificationV {
        conversation_id: conv_id,
        recipient: recipient_of(conv.assignee_id),
        level,
        message: notice_text(conv, contact_name, delay_of(level as int), link),
        deep_link: link,
    }
}

/// The notification of a conversation at a level of the ladder.
pub fn notice(
    conv_id: i64,
    conv: &ConvStateRow,
    contact_name: &str,
    level: i16,
    base_url: &str,
) -> (r: Notification)
    requires
        0 <= level <= MAX_LEVEL,
    ensures
        r@ == notice_of(conv_id, *conv, contact_name@, level, base_url@),
{
    let link = deep_link(base_url, conv.account_id, conv_id);
    let message = format_notification(conv, contact_name, level, link.as_str());
    Notification {
        conversation_id: conv_id,
        recipient: recipient(conv.assignee_id),
        level,
        message,
        deep_link: link,
    }
}

/// Why a notification of the scheduler did not go out.
#[derive(Debug, Clone)]
pub enum NotificationError {
    Channel(String),
    NotConfigured,
}

/// The display form of a failure.
pub open spec fn notification_error_text(e: NotificationError) -> Seq<char> {
    match e {
        NotificationError::Channel(m) => "channel error: "@ + m@,
        NotificationError::NotConfigured => "not configured"@,
    }
}

impl NotificationError {
    /// The display form.
    pub fn to_string(&self) -> (r: String)
        ensures
            r@ == notification_error_text(*self),
    {
        match self {
            NotificationError::Channel(m) => "channel error: ".to_string().concat(m.as_str()),
            NotificationError::NotConfigured => "not configured".to_string(),
        }
    }
}

/// The bot of Telegram with one chat for all recipients.
#[derive(Debug, Clone)]
pub struct TelegramNotifier {
    pub bot_token: String,
    pub default_chat_id: Option<i64>,
}

/// A text in which `&` and `<` are escaped.
pub open spec fn escaped(s: Seq<char>) -> Seq<char> {
    replaced(replaced(s, "&"@, "&amp;"@), "<"@, "&lt;"@)
}

/// A text in which `&` and `<` are escaped.
pub fn escape(s: &str) -> (r: String)
    ensures
        r@ == escaped(s@),
{
    proof {
        reveal_strlit("&");
        reveal_strlit("<");
    }
    let once = text::replace(s, "&", "&amp;");
    text::replace(once.as_str(), "<", "&lt;")
}

impl TelegramNotifier {
    /// A bot with its token and the chat it writes to.
    pub fn new(bot_token: String, default_chat_id: Option<i64>) -> (r: Self)
        ensures
            r.bot_token == bot_token,
            r.default_chat_id == default_chat_id,
    {
        TelegramNotifier { bot_token, default_chat_id }
    }

    /// The name of the channel.
    pub fn channel_name(&self) -> (r: &'static str)
        ensures
            r@ == "telegram"@,
    {
        "telegram"
    }

    /// What is sent; without a chat nothing is.
    pub fn send(&self, n: &Notification) -> (r: Result<HttpCall, NotificationError>)
        ensures
            match r {
                Ok(c) => self.default_chat_id is Some && c.url@ == telegram_url(self.bot_token@)
                    && c.timeout_ms == CHANNEL_TIMEOUT_MS && headers_of(c.headers@) == Seq::<
                    (Seq<char>, Seq<char>),
                >::empty() && c.body@ == telegram_body(
                    Json::Int(self.default_chat_id->Some_0 as int),
                    escaped(n.message@),
                ),
                Err(e) => self.default_chat_id is None && e is NotConfigured,
            },
    {
        match self.default_chat_id {
            Some(chat) => Ok(
                telegram_post(self.bot_token.as_str(), of_i64(chat), escape(n.message.as_str())),
            ),
            None => Err(NotificationError::NotConfigured),
        }
    }

    /// What the bot's reply means.
    pub fn check(&self, status: u16) -> (r: Result<(), NotificationError>)
        ensures
            match r {
                Ok(_) => 200 <= status <= 299,
                Err(e) => !(200 <= status <= 299) && e is Channel && e->Channel_0@
                    == "telegram http "@ + int_text(status as int),
            },
    {
        if 200 <= status && status <= 299 {
            Ok(())
        } else {
            Err(
                NotificationError::Channel(
                    "telegram http ".to_string().concat(text::i64_text(status as i64).as_str()),
                ),
            )
        }
    }
}

/// What is escaped holds no `<`, so no text of a conversation opens a tag.
pub proof fn law_escaped_text_opens_no_tag(s: Seq<char>, i: int)
    requires
        0 <= i < escaped(s).len(),
    ensures
        escaped(s)[i] != '<',
{
    lemma_replaced_has_none(replaced(s, "&"@, "&amp;"@), i);
}

proof fn lemma_replaced_has_none(s: Seq<char>, i: int)
    requires
        0 <= i < replaced(s, "<"@, "&lt;"@).len(),
    ensures
        replaced(s, "<"@, "&lt;"@)[i] != '<',
    decreases s.len(),
{
    reveal_strlit("<");
    reveal_strlit("&lt;");
    let pat = "<"@;
    let with = "&lt;"@;
    if stands_at(s, pat, 0) {
        let rest = s.skip(1);
        if i >= 4 {
            lemma_replaced_has_none(rest, i - 4);
        }
    } else {
        if s[0] == '<' {
            assert(s.subrange(0, 1) =~= pat);
        }
        let rest = s.drop_first();
        if i >= 1 {
            lemma_replaced_has_none(rest, i - 1);
        }
    }
}

/// A channel is shown by the first of its names that it holds, whatever the case
/// of its letters; one that holds none is a chat.
pub proof fn law_channels_are_shown_by_name(c: &str, r: &'static str)
    requires
        call_ensures(pretty_channel, (c,), r),
    ensures
        ({
            let low = ascii_lowered(c@);
            let whatsapp = has_text(low, "whatsapp"@);
            let instagram = has_text(low, "instagram"@);
            let email = has_text(low, "email"@);
            let web = has_text(low, "widget"@) || has_text(low, "web"@);
            &&& r@ == "WhatsApp"@ <==> whatsapp
            &&& r@ == "Instagram"@ <==> instagram && !whatsapp
            &&& r@ == "E-mail"@ <==> email && !instagram && !whatsapp
            &&& r@ == "Widget"@ <==> web && !email && !instagram && !whatsapp
            &&& r@ == "Chat"@ <==> !web && !email && !instagram && !whatsapp
        }),
{
    reveal_strlit("WhatsApp");
    reveal_strlit("Instagram");
    reveal_strlit("E-mail");
    reveal_strlit("Widget");
    reveal_strlit("Chat");
    assert("WhatsApp"@.len() == 8 && "Instagram"@.len() == 9 && "Chat"@.len() == 4);
    assert("E-mail"@.len() == 6 && "Widget"@.len() == 6);
    assert("E-mail"@[0] == 'E' && "Widget"@[0] == 'W');
}

/// The link to a conversation names its account and its number below the address
/// of the help desk; a slash at the end of the address makes no difference.
pub proof fn law_links_lead_to_the_conversation(
    base: &str,
    slashed: &str,
    account_id: i64,
    conv_id: i64,
    r: String,
    s: String,
)
    requires
        base@.len() == 0 || base@.last() != '/',
        slashed@ == base@.push('/'),
        call_ensures(deep_link, (base, account_id, conv_id), r),
        call_ensures(deep_link, (slashed, account_id, conv_id), s),
    ensures
        r@ == base@ + "/app/accounts/"@ + int_text(account_id as int) + "/conversations/"@
            + int_text(conv_id as int),
        s@ == r@,
{
    assert(slashed@.drop_last() =~= base@);
}

proof fn lemma_subject(labels: Seq<Seq<char>>, i: int)
    requires
        0 <= i <= labels.len(),
        forall|k: int|
            0 <= k < i ==> stands_at(#[trigger] labels[k], "ia:"@, 0) || stands_at(
                labels[k],
                "sla:"@,
                0,
            ),
        i < labels.len() ==> !stands_at(labels[i], "ia:"@, 0) && !stands_at(labels[i], "sla:"@, 0),
    ensures
        i < labels.len() ==> subject_of(labels) == labels[i],
        i == labels.len() ==> subject_of(labels) == "Atendimento pendente"@,
    decreases i,
{
    if i > 0 {
        let rest = labels.drop_first();
        assert(forall|k: int| 0 <= k < rest.len() ==> #[trigger] rest[k] == labels[k + 1]);
        assert(own_label(labels[0]));
        lemma_subject(rest, i - 1);
    }
}

/// A conversation is about its first label that is not one of the bridge's own;
/// where all are, or there is none, it waits for an attendant.
pub proof fn law_the_first_foreign_label_is_the_subject(labels: Vec<String>, i: int, r: String)
    requires
        call_ensures(subject, (&labels,), r),
        0 <= i <= labels@.len(),
        forall|k: int|
            0 <= k < i ==> stands_at((#[trigger] labels@[k])@, "ia:"@, 0) || stands_at(
                labels@[k]@,
                "sla:"@,
                0,
            ),
        i < labels@.len() ==> !stands_at(labels@[i]@, "ia:"@, 0) && !stands_at(
            labels@[i]@,
            "sla:"@,
            0,
        ),
    ensures
        i < labels@.len() ==> r@ == labels@[i]@,
        i == labels@.len() ==> r@ == "Atendimento pendente"@,
{
    assert(forall|k: int| 0 <= k < labels@.len() ==> #[trigger] texts(labels@)[k] == labels@[k]@);
    lemma_subject(texts(labels@), i);
}

/// A notification says for how long the conversation waits, by the level; who the
/// client is; what it is about; where it came from; whose queue it is in; and
/// where it is found.
pub proof fn law_notices_say_what_is_needed(
    conv: ConvStateRow,
    name: &str,
    level: i16,
    link: &str,
    step: crate::scheduler::sla::EscalationStep,
    about: String,
    from: &'static str,
    raw: &str,
    r: String,
)
    requires
        0 <= level <= 4,
        raw@ == conv.channel@,
        call_ensures(escalation_step, (level,), step),
        call_ensures(subject, (&conv.labels,), about),
        call_ensures(pretty_channel, (raw,), from),
        call_ensures(format_notification, (&conv, name, level, link), r),
    ensures
        ({
            let who = if name@.len() == 0 {
                "—"@
            } else {
                name@
            };
            let queue = match conv.team_id {
                Some(t) => int_text(t as int),
                None => "—"@,
            };
            r@ == "🔔 Atendimento pendente há "@ + int_text(
                step.delay_accumulated_minutes as int,
            ) + " min\n\nCliente: "@ + who + "\nAssunto: "@ + about@ + "\nCanal: "@ + from@
                + "\nFila: "@ + queue + "\n\nAbrir: "@ + link@
        }),
{
}

/// The notification of a conversation goes to its assignee, at its level, with
/// the link to the conversation.
pub proof fn law_notices_go_to_the_assignee(
    conv_id: i64,
    conv: ConvStateRow,
    name: &str,
    level: i16,
    base_url: &str,
    who: String,
    link: String,
    shown: &str,
    said: String,
    r: Notification,
)
    requires
        0 <= level <= 4,
        shown@ == link@,
        call_ensures(recipient, (conv.assignee_id,), who),
        call_ensures(deep_link, (base_url, conv.account_id, conv_id), link),
        call_ensures(format_notification, (&conv, name, level, shown), said),
        call_ensures(notice, (conv_id, &conv, name, level, base_url), r),
    ensures
        r.conversation_id == conv_id,
        r.level == level,
        r.recipient@ == who@,
        r.deep_link@ == link@,
        r.message@ == said@,
        conv.assignee_id matches Some(n) ==> text::parsed_int(r.recipient@) == Some(n as int),
        conv.assignee_id is None ==> r.recipient@ == "unassigned"@,
{
    if let Some(n) = conv.assignee_id {
        text::law_numbers_read_back(n as int);
    }
}

/// What stands for a character of a message.
pub open spec fn shown_as(c: char) -> Seq<char> {
    if c == '&' {
        "&amp;"@
    } else if c == '<' {
        "&lt;"@
    } else {
        seq![c]
    }
}

/// What stands for the characters of a message.
pub open spec fn all_shown(s: Seq<char>) -> Seq<char>
    decreases s.len(),
{
    if s.len() == 0 {
        Seq::empty()
    } else {
        shown_as(s[0]) + all_shown(s.drop_first())
    }
}

proof fn lemma_replaced_in_parts(a: Seq<char>, b: Seq<char>, pat: Seq<char>, with: Seq<char>)
    requires
        pat.len() == 1,
    ensures
        replaced(a + b, pat, with) == replaced(a, pat, with) + replaced(b, pat, with),
    decreases a.len(),
{
    if a.len() == 0 {
        assert(a + b =~= b);
        assert(replaced(a, pat, with) =~= Seq::<char>::empty());
        assert(Seq::<char>::empty() + replaced(b, pat, with) =~= replaced(b, pat, with));
    } else {
        let s = a + b;
        let t = a.drop_first();
        lemma_replaced_in_parts(t, b, pat, with);
        assert(s.drop_first() =~= t + b);
        assert(s.skip(1) =~= t + b);
        assert(a.skip(1) =~= t);
        assert(s.subrange(0, 1) =~= a.subrange(0, 1));
        if stands_at(s, pat, 0) {
            assert(stands_at(a, pat, 0));
            assert(with + (replaced(t, pat, with) + replaced(b, pat, with)) =~= with + replaced(
                t,
                pat,
                with,
            ) + replaced(b, pat, with));
        } else {
            assert(!stands_at(a, pat, 0));
            assert(seq![s[0]] + (replaced(t, pat, with) + replaced(b, pat, with)) =~= seq![a[0]]
                + replaced(t, pat, with) + replaced(b, pat, with));
        }
    }
}

proof fn lemma_one_replaced(c: char, p: char, pat: Seq<char>, with: Seq<char>)
    requires
        pat == seq![p],
    ensures
        replaced(seq![c], pat, with) == if c == p {
            with
        } else {
            seq![c]
        },
{
    let s = seq![c];
    assert(s.subrange(0, 1) =~= s);
    assert(s.skip(1) =~= Seq::<char>::empty());
    assert(s.drop_first() =~= Seq::<char>::empty());
    assert(replaced(Seq::<char>::empty(), pat, with) =~= Seq::<char>::empty());
    assert(with + Seq::<char>::empty() =~= with);
    assert(s + Seq::<char>::empty() =~= s);
    if c == p {
        assert(s =~= pat);
    } else {
        assert(s[0] != pat[0]);
    }
}

proof fn lemma_escaped_by_character(s: Seq<char>)
    ensures
        escaped(s) == all_shown(s),
    decreases s.len(),
{
    reveal_strlit("&");
    reveal_strlit("<");
    reveal_strlit("&amp;");
    let and = "&"@;
    let less = "<"@;
    assert(and =~= seq!['&'] && less =~= seq!['<']);
    if s.len() == 0 {
        assert(escaped(s) =~= Seq::<char>::empty());
    } else {
        let c = seq![s[0]];
        let t = s.drop_first();
        assert(s =~= c + t);
        lemma_escaped_by_character(t);
        lemma_replaced_in_parts(c, t, and, "&amp;"@);
        lemma_one_replaced(s[0], '&', and, "&amp;"@);
        let x = replaced(c, and, "&amp;"@);
        lemma_replaced_in_parts(x, replaced(t, and, "&amp;"@), less, "&lt;"@);
        if s[0] == '&' {
            assert(!has_text("&amp;"@, less)) by {
                if has_text("&amp;"@, less) {
                    let i = choose|i: int| #[trigger] stands_at("&amp;"@, less, i);
                    assert("&amp;"@.subrange(i, i + 1)[0] == '<');
                }
            }
            text::lemma_replace_absent("&amp;"@, less, "&lt;"@);
        } else {
            lemma_one_replaced(s[0], '<', less, "&lt;"@);
        }
    }
}

/// A message is escaped character by character: `&` and `<` are written out, and
/// every other character stays as it is.
pub proof fn law_messages_are_escaped_by_character(s: &str, r: String)
    requires
        call_ensures(escape, (s,), r),
    ensures
        r@ == all_shown(s@),
{
    lemma_escaped_by_character(s@);
}

/// The bot writes to its one chat, and to nobody where it has none. A reply of
/// success is a success; any other is a failure of the channel.
pub proof fn law_the_bot_writes_to_its_chat(
    bot: TelegramNotifier,
    n: Notification,
    status: u16,
    r: Result<HttpCall, NotificationError>,
    checked: Result<(), NotificationError>,
)
    requires
        call_ensures(TelegramNotifier::send, (&bot, &n), r),
        call_ensures(TelegramNotifier::check, (&bot, status), checked),
    ensures
        r is Ok <==> bot.default_chat_id is Some,
        r matches Err(e) ==> e is NotConfigured,
        r matches Ok(c) ==> {
            &&& crate::json::member(c.body@, "chat_id"@) == Some(
                Json::Int(bot.default_chat_id->Some_0 as int),
            )
            &&& crate::json::member(c.body@, "text"@) == Some(Json::Str(all_shown(n.message@)))
            &&& c.url@ == "https://api.telegram.org/bot"@ + bot.bot_token@ + "/sendMessage"@
        },
        checked is Ok <==> 200 <= status < 300,
        checked matches Err(e) ==> e is Channel,
{
    lemma_escaped_by_character(n.message@);
    reveal_strlit("chat_id");
    reveal_strlit("text");
    assert("chat_id"@.len() == 7 && "text"@.len() == 4);
    reveal_with_fuel(crate::json::first_member, 3);
}

/// A failure of the scheduler's channel is shown with its cause, or as a channel
/// that was never set up.
pub proof fn law_channel_failures_are_shown(e: NotificationError, r: String)
    requires
        call_ensures(NotificationError::to_string, (&e,), r),
    ensures
        e matches NotificationError::Channel(m) ==> r@ == "channel error: "@ + m@,
        e is NotConfigured ==> r@ == "not configured"@,
{
}

/// The bot of the scheduler keeps what it was made with.
pub proof fn law_the_bot_keeps_its_settings(
    token: String,
    chat: Option<i64>,
    t: TelegramNotifier,
    name: &'static str,
)
    requires
        call_ensures(TelegramNotifier::new, (token, chat), t),
        call_ensures(TelegramNotifier::channel_name, (&t,), name),
    ensures
        t.bot_token@ == token@,
        t.default_chat_id == chat,
        name@ == "telegram"@,
{
}

} // verus!
