//! Notifications to attendants outside the help desk.
//!
//! Who is told, and when, has been decided before: this module says what goes
//! over which channel. The program sends it.
use crate::http::{headers_of, push_header, HttpCall};
use crate::json::{
    i64_in, jsons, lemma_array, lemma_object, member, members, of_i64, push_member, string_in,
    Json, JsonValue,
};
use crate::registry::Registry;
use crate::text;
use crate::text::{int_text, texts};
use vstd::prelude::*;

verus! {

/// How long a channel may take, in milliseconds.
pub const CHANNEL_TIMEOUT_MS: u64 = 10000;

/// A notification to an attendant.
#[derive(Debug)]
pub struct Notification {
    pub conversation_id: i64,
    /// Who is told, as the channel names them.
    pub recipient: String,
    /// Step of the escalation, from 0 to 4.
    pub level: i16,
    pub message: String,
    /// Where the conversation is found.
    pub deep_link: String,
}

/// What a notification says.
#[verifier::ext_equal]
pub struct NotificationV {
    pub conversation_id: i64,
    pub recipient: Seq<char>,
    pub level: i16,
    pub message: Seq<char>,
    pub deep_link: Seq<char>,
}

impl View for Notification {
    type V = NotificationV;

    open spec fn view(&self) -> NotificationV {
        NotificationV {
            conversation_id: self.conversation_id,
            recipient: self.recipient@,
            level: self.level,
            message: self.message@,
            deep_link: self.deep_link@,
        }
    }
}

impl Clone for Notification {
    fn clone(&self) -> (r: Self)
        ensures
            r@ == self@,
    {
        Notification {
            conversation_id: self.conversation_id,
            recipient: self.recipient.clone(),
            level: self.level,
            message: self.message.clone(),
            deep_link: self.deep_link.clone(),
        }
    }
}

/// A notification as JSON.
pub open spec fn notification_json(n: NotificationV) -> Json {
    Json::Object(
        seq![
            ("conversation_id"@, Json::Int(n.conversation_id as int)),
            ("recipient"@, Json::Str(n.recipient)),
            ("level"@, Json::Int(n.level as int)),
            ("message"@, Json::Str(n.message)),
            ("deep_link"@, Json::Str(n.deep_link)),
        ],
    )
}

/// The notification that a JSON value holds.
pub open spec fn json_notification(j: Json) -> Option<NotificationV> {
    match (
        i64_in(member(j, "conversation_id"@)),
        string_in(member(j, "recipient"@)),
        i64_in(member(j, "level"@)),
        string_in(member(j, "message"@)),
        string_in(member(j, "deep_link"@)),
    ) {
        (Some(id), Some(recipient), Some(level), Some(message), Some(deep_link)) => if i16::MIN
            <= level <= i16::MAX {
            Some(
                NotificationV {
                    conversation_id: id as i64,
                    recipient,
                    level: level as i16,
                    message,
                    deep_link,
                },
            )
        } else {
            None
        },
        _ => None,
    }
}

impl Notification {
    /// The notification as JSON.
    pub fn to_json(&self) -> (r: JsonValue)
        ensures
            r@ == notification_json(self@),
    {
        let mut m: Vec<(String, JsonValue)> = Vec::new();
        push_member(&mut m, "conversation_id", of_i64(self.conversation_id));
        push_member(&mut m, "recipient", JsonValue::Str(self.recipient.clone()));
        push_member(&mut m, "level", of_i64(self.level as i64));
        push_member(&mut m, "message", JsonValue::Str(self.message.clone()));
        push_member(&mut m, "deep_link", JsonValue::Str(self.deep_link.clone()));
        proof {
            lemma_object(m);
            assert(Json::Object(members(m@)) =~= notification_json(self@)) by {
                assert(members(m@) =~= (notification_json(self@)->Object_0));
            }
        }
        JsonValue::Object(m)
    }

    /// The notification that a JSON value holds.
    pub fn from_json(j: &JsonValue) -> (r: Option<Self>)
        ensures
            match r {
                Some(n) => json_notification(j@) == Some(n@),
                None => json_notification(j@) is None,
            },
    {
        let id: i64 = match j.get("conversation_id") {
            Some(v) => match v.as_i64() {
                Some(n) => n,
                None => return None,
            },
            None => return None,
        };
        let level: i64 = match j.get("level") {
            Some(v) => match v.as_i64() {
                Some(n) => n,
                None => return None,
            },
            None => return None,
        };
        if level < i16::MIN as i64 || level > i16::MAX as i64 {
            return None;
        }
        match (j.get_str("recipient"), j.get_str("message"), j.get_str("deep_link")) {
            (Some(recipient), Some(message), Some(deep_link)) => Some(
                Notification {
                    conversation_id: id,
                    recipient: recipient.to_string(),
                    level: level as i16,
                    message: message.to_string(),
                    deep_link: deep_link.to_string(),
                },
            ),
            _ => None,
        }
    }
}

/// Why a notification did not go out.
#[derive(Debug, Clone)]
pub enum NotifyError {
    /// The request failed on its way.
    Http(String),
    /// The text or template does not fit the channel.
    Template(String),
    /// The channel does not work now.
    Unavailable(String),
}

/// The display form of a failure.
pub open spec fn notify_error_text(e: NotifyError) -> Seq<char> {
    match e {
        NotifyError::Http(m) => "http error: "@ + m@,
        NotifyError::Template(m) => "template error: "@ + m@,
        NotifyError::Unavailable(m) => "channel unavailable: "@ + m@,
    }
}

impl NotifyError {
    /// The display form.
    pub fn to_string(&self) -> (r: String)
        ensures
            r@ == notify_error_text(*self),
    {
        match self {
            NotifyError::Http(m) => "http error: ".to_string().concat(m.as_str()),
            NotifyError::Template(m) => "template error: ".to_string().concat(m.as_str()),
            NotifyError::Unavailable(m) => "channel unavailable: ".to_string().concat(m.as_str()),
        }
    }
}

// ---------------------------------------------------------------------------
// What is sent
// ---------------------------------------------------------------------------

/// One step of a dialogue over SMTP.
#[derive(Debug, Clone)]
pub struct SmtpStep {
    /// What the step does, for the message of a failure.
    pub label: &'static str,
    pub text: String,
    /// Whether the server answers.
    pub answered: bool,
}

/// What goes over a channel.
#[derive(Debug, Clone)]
pub enum Delivery {
    Post(HttpCall),
    Smtp { host: String, port: u16, steps: Vec<SmtpStep> },
}

/// What goes over a channel, as it is seen there.
pub enum DeliveryV {
    /// Address, time in milliseconds, headers, body.
    Post(Seq<char>, u64, Seq<(Seq<char>, Seq<char>)>, Json),
    /// Host, port, and for each step its label, its text and whether the server
    /// answers.
    Smtp(Seq<char>, u16, Seq<(Seq<char>, Seq<char>, bool)>),
}

/// The steps of a dialogue.
pub open spec fn steps_of(v: Seq<SmtpStep>) -> Seq<(Seq<char>, Seq<char>, bool)> {
    v.map_values(|s: SmtpStep| (s.label@, s.text@, s.answered))
}

impl View for Delivery {
    type V = DeliveryV;

    open spec fn view(&self) -> DeliveryV {
        match self {
            Delivery::Post(c) => DeliveryV::Post(
                c.url@,
                c.timeout_ms,
                headers_of(c.headers@),
                c.body@,
            ),
            Delivery::Smtp { host, port, steps } => DeliveryV::Smtp(
                host@,
                *port,
                steps_of(steps@),
            ),
        }
    }
}

/// Whether a status means success.
pub open spec fn is_success(status: u16) -> bool {
    200 <= status <= 299
}

/// What a channel over HTTP answered: anything but success makes it
/// unavailable. `status_text` is the status as text.
pub fn check_reply(channel: &str, status: u16, status_text: &str, body: &str) -> (r: Result<
    (),
    NotifyError,
>)
    ensures
        match r {
            Ok(_) => is_success(status),
            Err(e) => !is_success(status) && e is Unavailable && e->Unavailable_0@ == channel@
                + " "@ + status_text@ + ": "@ + body@,
        },
{
    if 200 <= status && status <= 299 {
        return Ok(());
    }
    let mut m = channel.to_string();
    m.append(" ");
    m.append(status_text);
    m.append(": ");
    m.append(body);
    Err(NotifyError::Unavailable(m))
}

/// What is said of a step of a dialogue that failed.
pub fn smtp_failure(label: &str, error: &str) -> (r: NotifyError)
    ensures
        r is Unavailable,
        r->Unavailable_0@ == label@ + ": "@ + error@,
{
    let mut m = label.to_string();
    m.append(": ");
    m.append(error);
    NotifyError::Unavailable(m)
}

// ---------------------------------------------------------------------------
// Telegram
// ---------------------------------------------------------------------------

/// The bot of Telegram. The recipient is a chat id.
#[derive(Debug, Clone)]
pub struct TelegramNotifier {
    pub bot_token: String,
}

/// Where the bot sends a message.
pub open spec fn telegram_url(token: Seq<char>) -> Seq<char> {
    "https://api.telegram.org/bot"@ + token + "/sendMessage"@
}

/// The body of a message of the bot.
pub open spec fn telegram_body(chat: Json, message: Seq<char>) -> Json {
    Json::Object(
        seq![
            ("chat_id"@, chat),
            ("text"@, Json::Str(message)),
            ("parse_mode"@, Json::Str("HTML"@)),
            ("disable_web_page_preview"@, Json::Bool(true)),
        ],
    )
}

pub(crate) fn telegram_post(token: &str, chat: JsonValue, message: String) -> (r: HttpCall)
    ensures
        r.url@ == telegram_url(token@),
        r.timeout_ms == CHANNEL_TIMEOUT_MS,
        headers_of(r.headers@) == Seq::<(Seq<char>, Seq<char>)>::empty(),
        r.body@ == telegram_body(chat@, message@),
{
    let mut url = "https://api.telegram.org/bot".to_string();
    url.append(token);
    url.append("/sendMessage");
    let ghost c = chat@;
    let ghost t = message@;
    let mut m: Vec<(String, JsonValue)> = Vec::new();
    push_member(&mut m, "chat_id", chat);
    push_member(&mut m, "text", JsonValue::Str(message));
    push_member(&mut m, "parse_mode", JsonValue::Str("HTML".to_string()));
    push_member(&mut m, "disable_web_page_preview", JsonValue::Bool(true));
    let headers: Vec<(String, String)> = Vec::new();
    proof {
        lemma_object(m);
        assert(members(m@) =~= telegram_body(c, t)->Object_0);
        assert(headers_of(headers@) =~= Seq::<(Seq<char>, Seq<char>)>::empty());
    }
    HttpCall { url, timeout_ms: CHANNEL_TIMEOUT_MS, headers, body: JsonValue::Object(m) }
}

impl TelegramNotifier {
    /// A bot with its token.
    pub fn new(bot_token: &str) -> (r: Self)
        ensures
            r.bot_token@ == bot_token@,
    {
        TelegramNotifier { bot_token: bot_token.to_string() }
    }

    /// Where the bot sends a message.
    pub fn url(&self) -> (r: String)
        ensures
            r@ == telegram_url(self.bot_token@),
    {
        let mut url = "https://api.telegram.org/bot".to_string();
        url.append(self.bot_token.as_str());
        url.append("/sendMessage");
        url
    }

    /// The name of the channel.
    pub fn channel_name(&self) -> (r: &'static str)
        ensures
            r@ == "telegram"@,
    {
        "telegram"
    }

    /// What is sent.
    pub fn send(&self, notification: &Notification) -> (r: Delivery)
        ensures
            r@ == telegram_delivery(*self, notification@),
    {
        Delivery::Post(
            telegram_post(
                self.bot_token.as_str(),
                JsonValue::Str(notification.recipient.clone()),
                notification.message.clone(),
            ),
        )
    }
}

/// What goes over Telegram.
pub open spec fn telegram_delivery(t: TelegramNotifier, n: NotificationV) -> DeliveryV {
    DeliveryV::Post(
        telegram_url(t.bot_token@),
        CHANNEL_TIMEOUT_MS,
        Seq::empty(),
        telegram_body(Json::Str(n.recipient), n.message),
    )
}

// ---------------------------------------------------------------------------
// WhatsApp
// ---------------------------------------------------------------------------

/// The cloud API of WhatsApp. The recipient is a telephone number without `+`;
/// outside the 24 hours after the last word of the recipient only an approved
/// template may be sent.
#[derive(Debug, Clone)]
pub struct WhatsAppNotifier {
    pub cloud_token: String,
    pub phone_number_id: String,
    pub template_name: String,
}

/// Where a message of a telephone number is sent.
pub open spec fn whatsapp_url(phone_number_id: Seq<char>) -> Seq<char> {
    "https://graph.facebook.com/v22.0/"@ + phone_number_id + "/messages"@
}

/// The body of a message by template: one parameter, the text.
pub open spec fn whatsapp_body(template: Seq<char>, to: Seq<char>, message: Seq<char>) -> Json {
    Json::Object(
        seq![
            ("messaging_product"@, Json::Str("whatsapp"@)),
            ("recipient_type"@, Json::Str("individual"@)),
            ("to"@, Json::Str(to)),
            ("type"@, Json::Str("template"@)),
            ("template"@, whatsapp_template(template, message)),
        ],
    )
}

/// A template in Brazilian Portuguese with one parameter.
pub open spec fn whatsapp_template(template: Seq<char>, message: Seq<char>) -> Json {
    Json::Object(
        seq![
            ("name"@, Json::Str(template)),
            ("language"@, Json::Object(seq![("code"@, Json::Str("pt_BR"@))])),
            ("components"@, Json::Array(seq![template_body(message)])),
        ],
    )
}

/// The component of a template that carries the text.
pub open spec fn template_body(message: Seq<char>) -> Json {
    Json::Object(
        seq![
            ("type"@, Json::Str("body"@)),
            (
                "parameters"@,
                Json::Array(
                    seq![
                        Json::Object(
                            seq![("type"@, Json::Str("text"@)), ("text"@, Json::Str(message))],
                        ),
                    ],
                ),
            ),
        ],
    )
}

fn one_of(v: JsonValue) -> (r: JsonValue)
    ensures
        r@ == Json::Array(seq![v@]),
{
    let ghost j = v@;
    let mut a: Vec<JsonValue> = Vec::new();
    a.push(v);
    proof {
        lemma_array(a);
        assert(jsons(a@) =~= seq![j]);
    }
    JsonValue::Array(a)
}

fn template_part(message: String) -> (r: JsonValue)
    ensures
        r@ == template_body(message@),
{
    let ghost t = message@;
    let mut p: Vec<(String, JsonValue)> = Vec::new();
    push_member(&mut p, "type", JsonValue::Str("text".to_string()));
    push_member(&mut p, "text", JsonValue::Str(message));
    let mut c: Vec<(String, JsonValue)> = Vec::new();
    push_member(&mut c, "type", JsonValue::Str("body".to_string()));
    proof {
        lemma_object(p);
        assert(members(p@) =~= seq![("type"@, Json::Str("text"@)), ("text"@, Json::Str(t))]);
    }
    push_member(&mut c, "parameters", one_of(JsonValue::Object(p)));
    proof {
        lemma_object(c);
        assert(members(c@) =~= template_body(t)->Object_0);
    }
    JsonValue::Object(c)
}

fn template_of(name: &str, message: String) -> (r: JsonValue)
    ensures
        r@ == whatsapp_template(name@, message@),
{
    let ghost t = message@;
    let mut l: Vec<(String, JsonValue)> = Vec::new();
    push_member(&mut l, "code", JsonValue::Str("pt_BR".to_string()));
    proof {
        lemma_object(l);
        assert(members(l@) =~= seq![("code"@, Json::Str("pt_BR"@))]);
    }
    let mut m: Vec<(String, JsonValue)> = Vec::new();
    push_member(&mut m, "name", JsonValue::Str(name.to_string()));
    push_member(&mut m, "language", JsonValue::Object(l));
    push_member(&mut m, "components", one_of(template_part(message)));
    proof {
        lemma_object(m);
        assert(members(m@) =~= whatsapp_template(name@, t)->Object_0);
    }
    JsonValue::Object(m)
}

impl WhatsAppNotifier {
    /// A telephone number, its token and the approved template.
    pub fn new(cloud_token: &str, phone_number_id: &str, template_name: &str) -> (r: Self)
        ensures
            r.cloud_token@ == cloud_token@,
            r.phone_number_id@ == phone_number_id@,
            r.template_name@ == template_name@,
    {
        WhatsAppNotifier {
            cloud_token: cloud_token.to_string(),
            phone_number_id: phone_number_id.to_string(),
            template_name: template_name.to_string(),
        }
    }

    /// Where a message is sent.
    pub fn url(&self) -> (r: String)
        ensures
            r@ == whatsapp_url(self.phone_number_id@),
    {
        let mut url = "https://graph.facebook.com/v22.0/".to_string();
        url.append(self.phone_number_id.as_str());
        url.append("/messages");
        url
    }

    /// The name of the channel.
    pub fn channel_name(&self) -> (r: &'static str)
        ensures
            r@ == "whatsapp"@,
    {
        "whatsapp"
    }

    /// What is sent.
    pub fn send(&self, notification: &Notification) -> (r: Delivery)
        ensures
            r@ == whatsapp_delivery(*self, notification@),
    {
        let mut m: Vec<(String, JsonValue)> = Vec::new();
        push_member(&mut m, "messaging_product", JsonValue::Str("whatsapp".to_string()));
        push_member(&mut m, "recipient_type", JsonValue::Str("individual".to_string()));
        push_member(&mut m, "to", JsonValue::Str(notification.recipient.clone()));
        push_member(&mut m, "type", JsonValue::Str("template".to_string()));
        push_member(
            &mut m,
            "template",
            template_of(self.template_name.as_str(), notification.message.clone()),
        );
        let mut headers: Vec<(String, String)> = Vec::new();
        let bearer = "Bearer ".to_string().concat(self.cloud_token.as_str());
        assert(headers_of(headers@) =~= Seq::<(Seq<char>, Seq<char>)>::empty());
        push_header(&mut headers, "authorization", bearer.as_str());
        proof {
            lemma_object(m);
            assert(members(m@) =~= whatsapp_body(
                self.template_name@,
                notification@.recipient,
                notification@.message,
            )->Object_0);
            assert(headers_of(headers@) =~= seq![
                ("authorization"@, "Bearer "@ + self.cloud_token@),
            ]);
        }
        Delivery::Post(
            HttpCall {
                url: self.url(),
                timeout_ms: CHANNEL_TIMEOUT_MS,
                headers,
                body: JsonValue::Object(m),
            },
        )
    }
}

/// What goes over WhatsApp.
pub open spec fn whatsapp_delivery(w: WhatsAppNotifier, n: NotificationV) -> DeliveryV {
    DeliveryV::Post(
        whatsapp_url(w.phone_number_id@),
        CHANNEL_TIMEOUT_MS,
        seq![("authorization"@, "Bearer "@ + w.cloud_token@)],
        whatsapp_body(w.template_name@, n.recipient, n.message),
    )
}

// ---------------------------------------------------------------------------
// E-mail
// ---------------------------------------------------------------------------

/// A local mail relay, without encryption or login.
#[derive(Debug, Clone)]
pub struct EmailNotifier {
    pub smtp_host: String,
    pub smtp_port: u16,
    pub from_address: String,
    pub from_name: String,
}

/// The message as it is mailed.
pub open spec fn mail_text(e: EmailNotifier, n: NotificationV) -> Seq<char> {
    "From: "@ + e.from_name@ + " <"@ + e.from_address@ + ">\r\nTo: "@ + n.recipient
        + "\r\nSubject: Atendimento pendente (conv "@ + int_text(n.conversation_id as int)
        + " - nivel "@ + int_text(n.level as int)
        + ")\r\nContent-Type: text/plain; charset=utf-8\r\n\r\n"@ + n.message + "\r\n"@
}

/// The dialogue with the relay.
pub open spec fn mail_steps(e: EmailNotifier, n: NotificationV) -> Seq<
    (Seq<char>, Seq<char>, bool),
> {
    seq![
        ("smtp ehlo write"@, "EHLO "@ + e.smtp_host@ + "\r\n"@, true),
        ("smtp mail write"@, "MAIL FROM:<"@ + e.from_address@ + ">\r\n"@, true),
        ("smtp rcpt write"@, "RCPT TO:<"@ + n.recipient + ">\r\n"@, true),
        ("smtp data write"@, "DATA\r\n"@, true),
        ("smtp body write"@, mail_text(e, n), false),
        ("smtp dot write"@, "\r\n.\r\n"@, true),
    ]
}

/// What the relay is told at the end, whether it listens or not.
pub const SMTP_QUIT: &'static str = "QUIT\r\n";

/// What is said where the relay cannot be reached.
pub const SMTP_CONNECT: &'static str = "smtp connect";

fn between(a: &str, b: &str, c: &str) -> (r: String)
    ensures
        r@ == a@ + b@ + c@,
{
    let mut r = a.to_string();
    r.append(b);
    r.append(c);
    r
}

impl EmailNotifier {
    /// A relay, and who the mail is from.
    pub fn new(smtp_host: &str, smtp_port: u16, from_address: &str, from_name: &str) -> (r: Self)
        ensures
            r.smtp_host@ == smtp_host@,
            r.smtp_port == smtp_port,
            r.from_address@ == from_address@,
            r.from_name@ == from_name@,
    {
        EmailNotifier {
            smtp_host: smtp_host.to_string(),
            smtp_port,
            from_address: from_address.to_string(),
            from_name: from_name.to_string(),
        }
    }

    /// The message as it is mailed.
    pub fn build_message(&self, notification: &Notification) -> (r: String)
        ensures
            r@ == mail_text(*self, notification@),
    {
        let mut r = "From: ".to_string();
        r.append(self.from_name.as_str());
        r.append(" <");
        r.append(self.from_address.as_str());
        r.append(">\r\nTo: ");
        r.append(notification.recipient.as_str());
        r.append("\r\nSubject: Atendimento pendente (conv ");
        r.append(text::i64_text(notification.conversation_id).as_str());
        r.append(" - nivel ");
        r.append(text::i64_text(notification.level as i64).as_str());
        r.append(")\r\nContent-Type: text/plain; charset=utf-8\r\n\r\n");
        r.append(notification.message.as_str());
        r.append("\r\n");
        r
    }

    /// The name of the channel.
    pub fn channel_name(&self) -> (r: &'static str)
        ensures
            r@ == "email"@,
    {
        "email"
    }

    /// What is sent.
    pub fn send(&self, notification: &Notification) -> (r: Delivery)
        ensures
            r@ == mail_delivery(*self, notification@),
    {
        let steps: Vec<SmtpStep> = vec![
            SmtpStep {
                label: "smtp ehlo write",
                text: between("EHLO ", self.smtp_host.as_str(), "\r\n"),
                answered: true,
            },
            SmtpStep {
                label: "smtp mail write",
                text: between("MAIL FROM:<", self.from_address.as_str(), ">\r\n"),
                answered: true,
            },
            SmtpStep {
                label: "smtp rcpt write",
                text: between("RCPT TO:<", notification.recipient.as_str(), ">\r\n"),
                answered: true,
            },
            SmtpStep { label: "smtp data write", text: "DATA\r\n".to_string(), answered: true },
            SmtpStep {
                label: "smtp body write",
                text: self.build_message(notification),
                answered: false,
            },
            SmtpStep { label: "smtp dot write", text: "\r\n.\r\n".to_string(), answered: true },
        ];
        assert(steps_of(steps@) =~= mail_steps(*self, notification@));
        Delivery::Smtp { host: self.smtp_host.clone(), port: self.smtp_port, steps }
    }
}

/// What goes over e-mail.
pub open spec fn mail_delivery(e: EmailNotifier, n: NotificationV) -> DeliveryV {
    DeliveryV::Smtp(e.smtp_host@, e.smtp_port, mail_steps(e, n))
}

// ---------------------------------------------------------------------------
// Channels by name
// ---------------------------------------------------------------------------

/// A channel.
#[derive(Debug, Clone)]
pub enum Notifier {
    Telegram(TelegramNotifier),
    WhatsApp(WhatsAppNotifier),
    Email(EmailNotifier),
}

/// The name of a channel.
pub open spec fn channel_of(n: Notifier) -> Seq<char> {
    match n {
        Notifier::Telegram(_) => "telegram"@,
        Notifier::WhatsApp(_) => "whatsapp"@,
        Notifier::Email(_) => "email"@,
    }
}

/// What goes over a channel.
pub open spec fn delivery_of(c: Notifier, n: NotificationV) -> DeliveryV {
    match c {
        Notifier::Telegram(t) => telegram_delivery(t, n),
        Notifier::WhatsApp(w) => whatsapp_delivery(w, n),
        Notifier::Email(e) => mail_delivery(e, n),
    }
}

impl Notifier {
    /// The name of the channel.
    pub fn channel_name(&self) -> (r: &'static str)
        ensures
            r@ == channel_of(*self),
    {
        match self {
            Notifier::Telegram(t) => t.channel_name(),
            Notifier::WhatsApp(w) => w.channel_name(),
            Notifier::Email(e) => e.channel_name(),
        }
    }

    /// What is sent.
    pub fn send(&self, notification: &Notification) -> (r: Delivery)
        ensures
            r@ == delivery_of(*self, notification@),
    {
        match self {
            Notifier::Telegram(t) => t.send(notification),
            Notifier::WhatsApp(w) => w.send(notification),
            Notifier::Email(e) => e.send(notification),
        }
    }
}

/// Channels by name.
pub struct NotifierRegistry {
    notifiers: Registry<Notifier>,
}

/// What is sent over which channels.
pub open spec fn sent_of(v: Seq<(&'static str, Delivery)>) -> Seq<(Seq<char>, DeliveryV)> {
    v.map_values(|x: (&'static str, Delivery)| (x.0@, x.1@))
}

/// What is sent over the channels of the given names: names without a channel
/// are passed over.
pub open spec fn sent_to(
    reg: NotifierRegistry,
    names: Seq<Seq<char>>,
    n: NotificationV,
) -> Seq<(Seq<char>, DeliveryV)>
    decreases names.len(),
{
    if names.len() == 0 {
        Seq::empty()
    } else {
        let rest = sent_to(reg, names.drop_last(), n);
        match reg.channel(names.last()) {
            Some(c) => rest.push((channel_of(c), delivery_of(c, n))),
            None => rest,
        }
    }
}

/// Whether a list names each channel of the registry once, and no other.
pub open spec fn lists_all(reg: NotifierRegistry, names: Seq<Seq<char>>) -> bool {
    &&& names.no_duplicates()
    &&& forall|id: Seq<char>| names.contains(id) <==> #[trigger] reg.channel(id) is Some
}

impl NotifierRegistry {
    /// The channel of a name.
    pub closed spec fn channel(self, name: Seq<char>) -> Option<Notifier> {
        self.notifiers.entry(name)
    }

    /// A registry without channels.
    pub fn new() -> (r: Self)
        ensures
            forall|id: Seq<char>| #[trigger] r.channel(id) is None,
    {
        NotifierRegistry { notifiers: Registry::new() }
    }

    /// Puts a channel under a name, in place of the one that was there.
    pub fn register(&mut self, name: &str, notifier: Notifier)
        ensures
            final(self).channel(name@) == Some(notifier),
            forall|x: Seq<char>| #[trigger]
                final(self).channel(x) == if x == name@ {
                    Some(notifier)
                } else {
                    old(self).channel(x)
                },
    {
        self.notifiers.register(name, notifier);
    }

    /// What is sent over all channels, each once, in no order that callers may
    /// rely on. Each channel is on its own: a failure of one stops no other.
    pub fn send_all(&self, notification: &Notification) -> (r: Vec<(&'static str, Delivery)>)
        ensures
            exists|names: Seq<Seq<char>>| #[trigger]
                lists_all(*self, names) && sent_of(r@) == sent_to(*self, names, notification@),
    {
        let all = self.notifiers.entries();
        let ghost names = all@.map_values(|x: (&str, &Notifier)| x.0@);
        let mut r: Vec<(&'static str, Delivery)> = Vec::new();
        let mut i: usize = 0;
        assert(sent_of(r@) =~= sent_to(*self, names.take(0), notification@));
        while i < all.len()
            invariant
                i <= all@.len(),
                names == all@.map_values(|x: (&str, &Notifier)| x.0@),
                forall|k: int|
                    0 <= k < all@.len() ==> self.notifiers.entry((#[trigger] all@[k]).0@) == Some(
                        *all@[k].1,
                    ),
                sent_of(r@) == sent_to(*self, names.take(i as int), notification@),
            decreases all@.len() - i,
        {
            let c = all[i].1;
            let ghost start = sent_of(r@);
            r.push((c.channel_name(), c.send(notification)));
            proof {
                let now = names.take(i as int + 1);
                assert(now.drop_last() =~= names.take(i as int));
                assert(now.last() == all@[i as int].0@);
                assert(self.channel(now.last()) == Some(*c));
                assert(sent_of(r@) =~= start.push((channel_of(*c), delivery_of(*c, notification@))));
            }
            i += 1;
        }
        proof {
            assert(names.take(i as int) =~= names);
            assert forall|a: int, b: int|
                0 <= a < names.len() && 0 <= b < names.len() && a != b implies names[a]
                != names[b] by {
                if a < b {
                    assert(all@[a].0@ != all@[b].0@);
                } else {
                    assert(all@[b].0@ != all@[a].0@);
                }
            }
            assert forall|id: Seq<char>| names.contains(id) <==> #[trigger]
                self.channel(id) is Some by {
                if names.contains(id) {
                    let k = choose|k: int| 0 <= k < names.len() && names[k] == id;
                    assert(self.notifiers.entry(all@[k].0@) == Some(*all@[k].1));
                }
                if self.channel(id) is Some {
                    assert(self.notifiers.entry(id) is Some);
                    let k = choose|k: int| 0 <= k < all@.len() && (#[trigger] all@[k]).0@ == id;
                    assert(names[k] == id);
                }
            }
            assert(lists_all(*self, names));
        }
        r
    }

    /// What is sent over the channels of the given names, in that order. A name
    /// without a channel is passed over.
    pub fn send_to_channels(&self, channels: &Vec<String>, notification: &Notification) -> (r: Vec<
        (&'static str, Delivery),
    >)
        ensures
            sent_of(r@) == sent_to(*self, texts(channels@), notification@),
    {
        let ghost names = texts(channels@);
        let mut r: Vec<(&'static str, Delivery)> = Vec::new();
        let mut i: usize = 0;
        assert(sent_of(r@) =~= sent_to(*self, names.take(0), notification@));
        while i < channels.len()
            invariant
                i <= channels@.len(),
                names == texts(channels@),
                sent_of(r@) == sent_to(*self, names.take(i as int), notification@),
            decreases channels@.len() - i,
        {
            let ghost start = sent_of(r@);
            proof {
                let now = names.take(i as int + 1);
                assert(now.drop_last() =~= names.take(i as int));
                assert(now.last() == channels@[i as int]@);
            }
            if let Some(c) = self.notifiers.get(channels[i].as_str()) {
                r.push((c.channel_name(), c.send(notification)));
                assert(sent_of(r@) =~= start.push((channel_of(*c), delivery_of(*c, notification@))));
            }
            i += 1;
        }
        assert(names.take(i as int) =~= names);
        r
    }
}

impl Default for NotifierRegistry {
    fn default() -> (r: Self)
        ensures
            forall|id: Seq<char>| #[trigger] r.channel(id) is None,
    {
        NotifierRegistry::new()
    }
}

// ---------------------------------------------------------------------------
// The text
// ---------------------------------------------------------------------------

/// The standard text of a notification.
pub fn format_notification(
    client_name: &str,
    company: &str,
    subject: &str,
    channel: &str,
    team: &str,
    deep_link: &str,
) -> (r: String)
    ensures
        r@ == "🔔 Atendimento pendente\n\nCliente: "@ + client_name@ + " — "@ + company@
            + "\nAssunto: "@ + subject@ + "\nCanal: "@ + channel@ + "\nFila: "@ + team@
            + "\n\nAbrir: "@ + deep_link@,
{
    let mut r = "🔔 Atendimento pendente\n\nCliente: ".to_string();
    r.append(client_name);
    r.append(" — ");
    r.append(company);
    r.append("\nAssunto: ");
    r.append(subject);
    r.append("\nCanal: ");
    r.append(channel);
    r.append("\nFila: ");
    r.append(team);
    r.append("\n\nAbrir: ");
    r.append(deep_link);
    r
}

// ---------------------------------------------------------------------------
// Laws
// ---------------------------------------------------------------------------

/// A notification read back from its JSON is the same.
pub proof fn law_notification_round_trip(n: NotificationV)
    ensures
        json_notification(notification_json(n)) == Some(n),
{
    reveal_strlit("conversation_id");
    reveal_strlit("recipient");
    reveal_strlit("level");
    reveal_strlit("message");
    reveal_strlit("deep_link");
    reveal_with_fuel(crate::json::first_member, 6);
    let m = notification_json(n)->Object_0;
    assert("conversation_id"@.len() == 15 && "recipient"@.len() == 9 && "level"@.len() == 5);
    assert("message"@.len() == 7 && "deep_link"@.len() == 9);
    assert("recipient"@[0] == 'r' && "deep_link"@[0] == 'd');
    let m1 = m.drop_first();
    let m2 = m1.drop_first();
    let m3 = m2.drop_first();
    let m4 = m3.drop_first();
    assert(m1[0] == m[1] && m2[0] == m[2] && m3[0] == m[3] && m4[0] == m[4]);
}

/// A name without a channel adds nothing to what is sent.
pub proof fn law_unknown_channels_are_passed_over(
    reg: NotifierRegistry,
    names: Seq<Seq<char>>,
    n: NotificationV,
)
    requires
        forall|i: int| 0 <= i < names.len() ==> reg.channel(#[trigger] names[i]) is None,
    ensures
        sent_to(reg, names, n).len() == 0,
    decreases names.len(),
{
    if names.len() > 0 {
        let rest = names.drop_last();
        assert forall|i: int| 0 <= i < rest.len() implies reg.channel(#[trigger] rest[i]) is None by {
            assert(rest[i] == names[i]);
        }
        law_unknown_channels_are_passed_over(reg, rest, n);
        assert(names.last() == names[names.len() - 1]);
    }
}

/// A notification that was written as JSON is read back as it was.
pub proof fn law_written_notifications_are_read_back(
    n: Notification,
    j: JsonValue,
    r: Option<Notification>,
)
    requires
        call_ensures(Notification::to_json, (&n,), j),
        call_ensures(Notification::from_json, (&j,), r),
    ensures
        r matches Some(m) && m.conversation_id == n.conversation_id && m.recipient@ == n.recipient@
            && m.level == n.level && m.message@ == n.message@ && m.deep_link@ == n.deep_link@,
{
    law_notification_round_trip(n@);
}

/// Only a status of success is one; any other makes the channel unavailable, and
/// says what it answered.
pub proof fn law_only_success_delivers(
    channel: &str,
    status: u16,
    shown: &str,
    body: &str,
    r: Result<(), NotifyError>,
)
    requires
        call_ensures(check_reply, (channel, status, shown, body), r),
    ensures
        r is Ok <==> 200 <= status < 300,
        r matches Err(e) ==> (e matches NotifyError::Unavailable(m) && m@ == channel@ + " "@
            + shown@ + ": "@ + body@),
{
}

/// The bot of Telegram writes the message to the chat of the recipient.
pub proof fn law_telegram_writes_to_the_recipient(
    t: TelegramNotifier,
    n: Notification,
    r: Delivery,
)
    requires
        call_ensures(TelegramNotifier::send, (&t, &n), r),
    ensures
        r matches Delivery::Post(c) && c.url@ == "https://api.telegram.org/bot"@ + t.bot_token@
            + "/sendMessage"@ && member(c.body@, "chat_id"@) == Some(Json::Str(n.recipient@))
            && member(c.body@, "text"@) == Some(Json::Str(n.message@)) && c.headers@.len() == 0
            && c.timeout_ms == 10000,
{
    reveal_strlit("chat_id");
    reveal_strlit("text");
    assert("chat_id"@.len() == 7 && "text"@.len() == 4);
    reveal_with_fuel(crate::json::first_member, 3);
    let c = r->Post_0;
    assert(headers_of(c.headers@).len() == c.headers@.len());
}

/// WhatsApp sends the template of the account to the recipient, with the message
/// as its one parameter, in Brazilian Portuguese.
pub proof fn law_whatsapp_sends_the_template(w: WhatsAppNotifier, n: Notification, r: Delivery)
    requires
        call_ensures(WhatsAppNotifier::send, (&w, &n), r),
    ensures
        r matches Delivery::Post(c) && c.url@ == "https://graph.facebook.com/v22.0/"@
            + w.phone_number_id@ + "/messages"@ && c.headers@.len() == 1 && c.headers@[0].0@
            == "authorization"@ && c.headers@[0].1@ == "Bearer "@ + w.cloud_token@ && member(
            c.body@,
            "to"@,
        ) == Some(Json::Str(n.recipient@)) && member(c.body@, "type"@) == Some(
            Json::Str("template"@),
        ) && (member(c.body@, "template"@) matches Some(t) && member(t, "name"@) == Some(
            Json::Str(w.template_name@),
        ) && member(t, "language"@) == Some(Json::Object(seq![("code"@, Json::Str("pt_BR"@))]))
            && member(t, "components"@) == Some(
            Json::Array(
                seq![
                    Json::Object(
                        seq![
                            ("type"@, Json::Str("body"@)),
                            (
                                "parameters"@,
                                Json::Array(
                                    seq![
                                        Json::Object(
                                            seq![
                                                ("type"@, Json::Str("text"@)),
                                                ("text"@, Json::Str(n.message@)),
                                            ],
                                        ),
                                    ],
                                ),
                            ),
                        ],
                    ),
                ],
            ),
        )),
{
    reveal_strlit("messaging_product");
    reveal_strlit("recipient_type");
    reveal_strlit("to");
    reveal_strlit("type");
    reveal_strlit("template");
    reveal_strlit("name");
    reveal_strlit("language");
    reveal_strlit("components");
    assert("messaging_product"@.len() == 17 && "recipient_type"@.len() == 14);
    assert("to"@.len() == 2 && "type"@.len() == 4 && "template"@.len() == 8);
    assert("name"@.len() == 4 && "language"@.len() == 8 && "components"@.len() == 10);
    reveal_with_fuel(crate::json::first_member, 6);
    let c = r->Post_0;
    let h = headers_of(c.headers@);
    assert(h.len() == c.headers@.len());
    assert(h[0] == (c.headers@[0].0@, c.headers@[0].1@));
    let m = c.body@->Object_0;
    let m1 = m.drop_first();
    let m2 = m1.drop_first();
    let m3 = m2.drop_first();
    let m4 = m3.drop_first();
    assert(m1[0] == m[1] && m2[0] == m[2] && m3[0] == m[3] && m4[0] == m[4]);
    let t = whatsapp_template(w.template_name@, n.message@)->Object_0;
    let t1 = t.drop_first();
    let t2 = t1.drop_first();
    assert(t1[0] == t[1] && t2[0] == t[2]);
}

/// A mail goes over the relay from the sender to the recipient, in the order that
/// the relay expects; the relay answers every step but the text itself.
pub proof fn law_mail_goes_over_the_relay(
    e: EmailNotifier,
    n: Notification,
    text: String,
    r: Delivery,
)
    requires
        call_ensures(EmailNotifier::build_message, (&e, &n), text),
        call_ensures(EmailNotifier::send, (&e, &n), r),
    ensures
        r matches Delivery::Smtp { host, port, steps } && host@ == e.smtp_host@ && port
            == e.smtp_port && steps@.len() == 6 && steps@[0].text@ == "EHLO "@ + e.smtp_host@
            + "\r\n"@ && steps@[1].text@ == "MAIL FROM:<"@ + e.from_address@ + ">\r\n"@
            && steps@[2].text@ == "RCPT TO:<"@ + n.recipient@ + ">\r\n"@ && steps@[3].text@
            == "DATA\r\n"@ && steps@[4].text@ == text@ && steps@[5].text@ == "\r\n.\r\n"@ && (
        forall|i: int| 0 <= i < 6 ==> ((#[trigger] steps@[i]).answered <==> i != 4)),
{
    let steps = r->steps;
    let v = steps_of(steps@);
    let w = mail_steps(e, n@);
    assert(v.len() == steps@.len() && w.len() == 6);
    assert(forall|i: int|
        0 <= i < v.len() ==> (#[trigger] steps@[i]).text@ == v[i].1 && steps@[i].answered
            == v[i].2);
    assert(v[0] == w[0] && v[1] == w[1] && v[2] == w[2] && v[3] == w[3]);
    assert(v[4] == w[4] && v[5] == w[5]);
}

/// The text of a mail names sender and recipient, the conversation and its level,
/// and carries the message.
pub proof fn law_mails_carry_the_message(e: EmailNotifier, n: Notification, text: String)
    requires
        call_ensures(EmailNotifier::build_message, (&e, &n), text),
    ensures
        text@ == "From: "@ + e.from_name@ + " <"@ + e.from_address@ + ">\r\nTo: "@ + n.recipient@
            + "\r\nSubject: Atendimento pendente (conv "@ + int_text(n.conversation_id as int)
            + " - nivel "@ + int_text(n.level as int)
            + ")\r\nContent-Type: text/plain; charset=utf-8\r\n\r\n"@ + n.message@ + "\r\n"@,
{
}

/// A channel is what it was made as: it has the name of its kind, and what it
/// sends is what that kind sends.
pub proof fn law_channels_are_what_they_were_made_as(
    c: Notifier,
    n: Notification,
    name: &'static str,
    r: Delivery,
    own: Delivery,
)
    requires
        call_ensures(Notifier::channel_name, (&c,), name),
        call_ensures(Notifier::send, (&c, &n), r),
    ensures
        c is Telegram <==> name@ == "telegram"@,
        c is WhatsApp <==> name@ == "whatsapp"@,
        c is Email <==> name@ == "email"@,
        c is Email <==> r is Smtp,
        c matches Notifier::Telegram(t) ==> (call_ensures(TelegramNotifier::send, (&t, &n), own)
            ==> own@ == r@),
        c matches Notifier::WhatsApp(w) ==> (call_ensures(WhatsAppNotifier::send, (&w, &n), own)
            ==> own@ == r@),
        c matches Notifier::Email(e) ==> (call_ensures(EmailNotifier::send, (&e, &n), own) ==> own@
            == r@),
{
    reveal_strlit("telegram");
    reveal_strlit("whatsapp");
    reveal_strlit("email");
    assert("telegram"@.len() == 8 && "whatsapp"@.len() == 8 && "email"@.len() == 5);
    assert("telegram"@[0] == 't' && "whatsapp"@[0] == 'w');
}

proof fn lemma_all_sent(reg: NotifierRegistry, names: Seq<Seq<char>>, n: NotificationV)
    requires
        forall|i: int| 0 <= i < names.len() ==> reg.channel(#[trigger] names[i]) is Some,
    ensures
        sent_to(reg, names, n).len() == names.len(),
        forall|i: int|
            0 <= i < names.len() ==> (#[trigger] sent_to(reg, names, n)[i]) == (
                channel_of(reg.channel(names[i])->Some_0),
                delivery_of(reg.channel(names[i])->Some_0, n),
            ),
    decreases names.len(),
{
    if names.len() > 0 {
        let rest = names.drop_last();
        assert(forall|i: int| 0 <= i < rest.len() ==> #[trigger] rest[i] == names[i]);
        assert(forall|i: int| 0 <= i < rest.len() ==> rest[i] == #[trigger] names[i]);
        lemma_all_sent(reg, rest, n);
        assert(names[names.len() - 1] == names.last());
    }
}

/// Every channel that is named gets the notification, in the order of the names,
/// and each gets what it sends.
pub proof fn law_every_named_channel_gets_it(
    reg: NotifierRegistry,
    channels: Vec<String>,
    n: Notification,
    r: Vec<(&'static str, Delivery)>,
    i: int,
    d: Delivery,
)
    requires
        call_ensures(NotifierRegistry::send_to_channels, (&reg, &channels, &n), r),
        forall|k: int| 0 <= k < channels@.len() ==> reg.channel((#[trigger] channels@[k])@) is Some,
        0 <= i < channels@.len(),
        call_ensures(Notifier::send, (&reg.channel(channels@[i]@)->Some_0, &n), d),
    ensures
        r@.len() == channels@.len(),
        r@[i].1@ == d@,
{
    let names = texts(channels@);
    assert(names.len() == channels@.len());
    assert forall|k: int| 0 <= k < names.len() implies reg.channel(#[trigger] names[k]) is Some by {
        assert(names[k] == channels@[k]@);
    }
    lemma_all_sent(reg, names, n@);
    let s = sent_of(r@);
    assert(s.len() == r@.len());
    assert(s[i] == (r@[i].0@, r@[i].1@));
    assert(names[i] == channels@[i]@);
    assert(sent_to(reg, names, n@)[i].1 == delivery_of(reg.channel(names[i])->Some_0, n@));
}

/// The standard text of a notification names the client, the company, the
/// subject, the channel, the queue and the link, in this order.
pub proof fn law_the_standard_text(
    client_name: &str,
    company: &str,
    subject: &str,
    channel: &str,
    team: &str,
    deep_link: &str,
    r: String,
)
    requires
        call_ensures(
            format_notification,
            (client_name, company, subject, channel, team, deep_link),
            r,
        ),
    ensures
        r@ == "🔔 Atendimento pendente\n\nCliente: "@ + client_name@ + " — "@ + company@
            + "\nAssunto: "@ + subject@ + "\nCanal: "@ + channel@ + "\nFila: "@ + team@
            + "\n\nAbrir: "@ + deep_link@,
{
}

/// A failure is shown by its kind, with its cause.
pub proof fn law_failures_are_shown_by_kind(e: NotifyError, r: String)
    requires
        call_ensures(NotifyError::to_string, (&e,), r),
    ensures
        e matches NotifyError::Http(m) ==> r@ == "http error: "@ + m@,
        e matches NotifyError::Template(m) ==> r@ == "template error: "@ + m@,
        e matches NotifyError::Unavailable(m) ==> r@ == "channel unavailable: "@ + m@,
{
}

/// A channel that was put under a name gets what is sent to that name, and under
/// every other name nothing changes.
pub proof fn law_registered_channels_are_sent_to(
    reg: &mut NotifierRegistry,
    name: &str,
    c: Notifier,
    channels: Vec<String>,
    n: Notification,
    r: Vec<(&'static str, Delivery)>,
    d: Delivery,
    other: Seq<char>,
)
    requires
        call_ensures(NotifierRegistry::register, (reg, name, c), ()),
        channels@.len() == 1,
        channels@[0]@ == name@,
        call_ensures(NotifierRegistry::send_to_channels, (&*final(reg), &channels, &n), r),
        call_ensures(Notifier::send, (&c, &n), d),
    ensures
        r@.len() == 1 && r@[0].1@ == d@,
        other != name@ ==> final(reg).channel(other) == old(reg).channel(other),
{
    let names = texts(channels@);
    assert(names.len() == 1 && names[0] == name@);
    assert(names.last() == name@);
    assert(final(reg).channel(name@) == Some(c));
    assert(names.drop_last() =~= Seq::<Seq<char>>::empty());
    assert(sent_to(*final(reg), names.drop_last(), n@) =~= Seq::<(Seq<char>, DeliveryV)>::empty());
    let s = sent_of(r@);
    assert(s.len() == r@.len());
    assert(s.len() == 1);
    assert(s[0] == (r@[0].0@, r@[0].1@));
}

proof fn lemma_sent_to_some(
    reg: NotifierRegistry,
    names: Seq<Seq<char>>,
    n: NotificationV,
    i: int,
)
    requires
        0 <= i < names.len(),
        reg.channel(names[i]) is Some,
    ensures
        sent_to(reg, names, n).contains(
            (channel_of(reg.channel(names[i])->Some_0), delivery_of(reg.channel(names[i])->Some_0, n)),
        ),
    decreases names.len(),
{
    let x = (
        channel_of(reg.channel(names[i])->Some_0),
        delivery_of(reg.channel(names[i])->Some_0, n),
    );
    let rest = sent_to(reg, names.drop_last(), n);
    let all = sent_to(reg, names, n);
    if i == names.len() - 1 {
        assert(all[rest.len() as int] == x);
    } else {
        assert(names.drop_last()[i] == names[i]);
        lemma_sent_to_some(reg, names.drop_last(), n, i);
        let k = choose|k: int| 0 <= k < rest.len() && rest[k] == x;
        assert(all[k] == x);
    }
}

/// Where all channels are told, every channel that there is gets what it sends.
pub proof fn law_all_channels_are_told(
    reg: NotifierRegistry,
    n: Notification,
    name: Seq<char>,
    c: Notifier,
    d: Delivery,
    r: Vec<(&'static str, Delivery)>,
)
    requires
        reg.channel(name) == Some(c),
        call_ensures(Notifier::send, (&c, &n), d),
        call_ensures(NotifierRegistry::send_all, (&reg, &n), r),
    ensures
        exists|i: int| 0 <= i < r@.len() && (#[trigger] r@[i]).1@ == d@,
{
    let names = choose|names: Seq<Seq<char>>| #[trigger]
        lists_all(reg, names) && sent_of(r@) == sent_to(reg, names, n@);
    assert(names.contains(name));
    let k = choose|k: int| 0 <= k < names.len() && names[k] == name;
    lemma_sent_to_some(reg, names, n@, k);
    let s = sent_of(r@);
    let x = (channel_of(c), delivery_of(c, n@));
    let i = choose|i: int| 0 <= i < s.len() && s[i] == x;
    assert(s[i] == (r@[i].0@, r@[i].1@));
    assert(r@[i].1@ == d@);
}

/// Channels keep what they were made with, and each has its own name.
pub proof fn law_channels_keep_their_settings(
    token: &str,
    phone: &str,
    template: &str,
    host: &str,
    port: u16,
    address: &str,
    name: &str,
    t: TelegramNotifier,
    w: WhatsAppNotifier,
    e: EmailNotifier,
    tn: &'static str,
    wn: &'static str,
    en: &'static str,
    tu: String,
    wu: String,
)
    requires
        call_ensures(TelegramNotifier::new, (token,), t),
        call_ensures(WhatsAppNotifier::new, (token, phone, template), w),
        call_ensures(EmailNotifier::new, (host, port, address, name), e),
        call_ensures(TelegramNotifier::channel_name, (&t,), tn),
        call_ensures(WhatsAppNotifier::channel_name, (&w,), wn),
        call_ensures(EmailNotifier::channel_name, (&e,), en),
        call_ensures(TelegramNotifier::url, (&t,), tu),
        call_ensures(WhatsAppNotifier::url, (&w,), wu),
    ensures
        w.cloud_token@ == token@ && w.phone_number_id@ == phone@ && w.template_name@ == template@,
        e.smtp_host@ == host@ && e.smtp_port == port && e.from_address@ == address@,
        e.from_name@ == name@,
        tn@ == "telegram"@ && wn@ == "whatsapp"@ && en@ == "email"@,
        tu@ == "https://api.telegram.org/bot"@ + token@ + "/sendMessage"@,
        wu@ == "https://graph.facebook.com/v22.0/"@ + phone@ + "/messages"@,
{
}

/// A failure of the mail server says what failed and why.
pub proof fn law_mail_failures_say_what_failed(label: &str, error: &str, r: NotifyError)
    requires
        call_ensures(smtp_failure, (label, error), r),
    ensures
        r matches NotifyError::Unavailable(m) && m@ == label@ + ": "@ + error@,
{
}

} // verus!
