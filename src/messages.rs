//! Message types exchanged with the service, and the verified readers that
//! build them from parsed JSON.

use vstd::prelude::*;
use vstd::string::*;
use crate::json::{
    Json, parse_doc, parsed_json, opt_text_field, text_field, opt_u32_field, u32_field, opt_text_list_field,
    text_field_of, req_text_of, u32_field_of, req_u32_of, text_list_of, opt_texts_view,
};
use crate::text::{decimal, decimal_of, trim_text, trimmed};
use crate::catalog::opt_view;

verus! {

/// Token introspection answer, also the body of a failed call.
#[derive(Debug, Clone)]
pub struct Validation {
    pub client_id: Option<String>,
    pub login: Option<String>,
    pub scopes: Option<Vec<String>>,
    pub user_id: Option<String>,
    pub expires_in: Option<u32>,
    pub status: Option<u32>,
    pub message: Option<String>,
}

/// The text that reports an error answer with `status` and `message`.
pub open spec fn error_text(status: u32, message: Option<Seq<char>>) -> Seq<char> {
    "status: "@ + decimal_of(status as nat) + ", message: "@ + match message {
        Some(m) => m,
        None => ""@,
    }
}

pub struct ValidationView {
    pub client_id: Option<Seq<char>>,
    pub login: Option<Seq<char>>,
    pub scopes: Option<Seq<Seq<char>>>,
    pub user_id: Option<Seq<char>>,
    pub expires_in: Option<u32>,
    pub status: Option<u32>,
    pub message: Option<Seq<char>>,
}

impl View for Validation {
    type V = ValidationView;

    open spec fn view(&self) -> ValidationView {
        ValidationView {
            client_id: opt_view(self.client_id),
            login: opt_view(self.login),
            scopes: opt_texts_view(self.scopes),
            user_id: opt_view(self.user_id),
            expires_in: self.expires_in,
            status: self.status,
            message: opt_view(self.message),
        }
    }
}

pub open spec fn opt_validation_view(o: Option<Validation>) -> Option<ValidationView> {
    match o {
        Some(v) => Some(v@),
        None => None,
    }
}

/// The answer that a document holds: an object whose fields, each optional,
/// have their types.
pub open spec fn validation_of(j: Json) -> Option<ValidationView> {
    if j is Obj && text_field_of(j, "client_id"@) is Ok && text_field_of(j, "login"@) is Ok && text_list_of(
        j,
        "scopes"@,
    ) is Ok && text_field_of(j, "user_id"@) is Ok && u32_field_of(j, "expires_in"@) is Ok && u32_field_of(
        j,
        "status"@,
    ) is Ok && text_field_of(j, "message"@) is Ok {
        Some(
            ValidationView {
                client_id: opt_view(text_field_of(j, "client_id"@)->Ok_0),
                login: opt_view(text_field_of(j, "login"@)->Ok_0),
                scopes: text_list_of(j, "scopes"@)->Ok_0,
                user_id: opt_view(text_field_of(j, "user_id"@)->Ok_0),
                expires_in: u32_field_of(j, "expires_in"@)->Ok_0,
                status: u32_field_of(j, "status"@)->Ok_0,
                message: opt_view(text_field_of(j, "message"@)->Ok_0),
            },
        )
    } else {
        None
    }
}

/// The answer that a text holds, where it is JSON.
pub open spec fn validation_in(text: Seq<char>) -> Option<ValidationView> {
    match parsed_json(text) {
        Some(j) => validation_of(j),
        None => None,
    }
}

impl Validation {
    /// An answer is an error exactly when it carries a status.
    pub fn is_error(&self) -> (r: bool)
        ensures
            r == self.status is Some,
    {
        self.status.is_some()
    }

    pub fn error_msg(&self) -> (r: String)
        requires
            self.status is Some,
        ensures
            r@ == error_text(self.status.unwrap(), opt_view(self.message)),
    {
        let status = match self.status {
            Some(s) => s,
            None => 0,
        };
        let mut s = String::from_str("status: ");
        let n = decimal(status);
        s.append(n.as_str());
        s.append(", message: ");
        match &self.message {
            Some(m) => s.append(m.as_str()),
            None => s.append(""),
        }
        s
    }

    /// Reads an answer from JSON text: `None` where the text is not a JSON
    /// object or a field has the wrong type.
    pub fn from_json(text: &str) -> (r: Option<Validation>)
        ensures
            opt_validation_view(r) == validation_in(text@),
    {
        let j = parse_doc(text)?;
        if !matches!(j, Json::Obj(_)) {
            return None;
        }
        let client_id = opt_text_field(&j, "client_id").ok()?;
        let login = opt_text_field(&j, "login").ok()?;
        let scopes = opt_text_list_field(&j, "scopes").ok()?;
        let user_id = opt_text_field(&j, "user_id").ok()?;
        let expires_in = opt_u32_field(&j, "expires_in").ok()?;
        let status = opt_u32_field(&j, "status").ok()?;
        let message = opt_text_field(&j, "message").ok()?;
        Some(Validation { client_id, login, scopes, user_id, expires_in, status, message })
    }
}

/// Answer of a token exchange.
#[derive(Debug, Clone)]
pub struct NewAccessTokenResponse {
    pub access_token: String,
    pub expires_in: u32,
    pub token_type: String,
    pub refresh_token: Option<String>,
    pub scope: Option<Vec<String>>,
}

pub struct TokenAnswerView {
    pub access_token: Seq<char>,
    pub expires_in: u32,
    pub token_type: Seq<char>,
    pub refresh_token: Option<Seq<char>>,
    pub scope: Option<Seq<Seq<char>>>,
}

impl View for NewAccessTokenResponse {
    type V = TokenAnswerView;

    open spec fn view(&self) -> TokenAnswerView {
        TokenAnswerView {
            access_token: self.access_token@,
            expires_in: self.expires_in,
            token_type: self.token_type@,
            refresh_token: opt_view(self.refresh_token),
            scope: opt_texts_view(self.scope),
        }
    }
}

/// The token exchange answer that a document holds.
pub open spec fn token_answer_of(j: Json) -> Option<TokenAnswerView> {
    if req_text_of(j, "access_token"@) is Some && req_u32_of(j, "expires_in"@) is Some && req_text_of(
        j,
        "token_type"@,
    ) is Some && text_field_of(j, "refresh_token"@) is Ok && text_list_of(j, "scope"@) is Ok {
        Some(
            TokenAnswerView {
                access_token: req_text_of(j, "access_token"@)->Some_0@,
                expires_in: req_u32_of(j, "expires_in"@)->Some_0,
                token_type: req_text_of(j, "token_type"@)->Some_0@,
                refresh_token: opt_view(text_field_of(j, "refresh_token"@)->Ok_0),
                scope: text_list_of(j, "scope"@)->Ok_0,
            },
        )
    } else {
        None
    }
}

/// The token exchange answer that a text holds, where it is JSON.
pub open spec fn token_answer_in(text: Seq<char>) -> Option<TokenAnswerView> {
    match parsed_json(text) {
        Some(j) => token_answer_of(j),
        None => None,
    }
}

impl NewAccessTokenResponse {
    /// Reads a token exchange answer from JSON text.
    pub fn from_json(text: &str) -> (r: Option<NewAccessTokenResponse>)
        ensures
            match r {
                Some(a) => token_answer_in(text@) == Some(a@),
                None => token_answer_in(text@) is None,
            },
    {
        let j = parse_doc(text)?;
        let access_token = text_field(&j, "access_token")?;
        let expires_in = u32_field(&j, "expires_in")?;
        let token_type = text_field(&j, "token_type")?;
        let refresh_token = opt_text_field(&j, "refresh_token").ok()?;
        let scope = opt_text_list_field(&j, "scope").ok()?;
        Some(NewAccessTokenResponse { access_token, expires_in, token_type, refresh_token, scope })
    }
}

#[derive(Debug, Clone)]
pub struct TimeoutRequestData {
    pub user_id: String,
    pub duration: u32,
    pub reason: String,
}

#[derive(Debug, Clone)]
pub struct SendTimeoutRequest {
    pub data: TimeoutRequestData,
}

#[derive(Debug, Clone)]
pub struct SendMessage {
    pub broadcaster_id: String,
    pub sender_id: String,
    pub message: String,
    pub reply_parent_message_id: Option<String>,
}

#[derive(Debug, Clone)]
pub struct Mention {
    pub user_id: String,
    pub user_login: String,
    pub user_name: String,
}

#[derive(Debug, Clone)]
pub struct Emote {
    pub id: String,
    pub emote_set_id: String,
    pub owner_id: String,
    pub format: Vec<String>,
}

#[derive(Debug, Clone)]
pub struct CheerMote {
    pub prefix: String,
    pub bits: u32,
    pub tier: u32,
}

/// One piece of a chat message: text, a mention, an emote or a cheermote.
#[derive(Debug, Clone)]
pub struct Fragments {
    pub kind: String,
    pub text: String,
    pub cheermote: Option<CheerMote>,
    pub emote: Option<Emote>,
    pub mention: Option<Mention>,
}

impl Fragments {
    pub fn _is_text(&self) -> (r: bool)
        ensures
            r == (self.kind@ == "text"@),
    {
        self.kind == String::from_str("text")
    }

    pub fn is_mention(&self) -> (r: bool)
        ensures
            r == (self.kind@ == "mention"@),
    {
        self.kind == String::from_str("mention")
    }

    pub fn text(&self) -> (r: String)
        ensures
            r@ == self.text@,
    {
        self.text.clone()
    }
}

/// A chat message: its full text and its fragments.
#[derive(Debug, Clone)]
pub struct Message {
    pub text: String,
    pub fragments: Vec<Fragments>,
}

/// The readable text of fragments: the texts of those that are no mention,
/// in order, joined by one space, the first one trimmed; `None` where every
/// fragment is a mention.
pub open spec fn written_text(fs: Seq<Fragments>) -> Option<Seq<char>>
    decreases fs.len(),
{
    if fs.len() == 0 {
        None
    } else {
        let prev = written_text(fs.drop_last());
        let f = fs.last();
        if f.kind@ == "mention"@ {
            prev
        } else {
            match prev {
                Some(t) => Some(t + " "@ + f.text@),
                None => Some(trimmed(f.text@)),
            }
        }
    }
}

impl Message {
    pub fn get_written_message(&self) -> (r: Option<String>)
        ensures
            opt_view(r) == written_text(self.fragments@),
    {
        let mut text: Option<String> = None;
        let mut i: usize = 0;
        while i < self.fragments.len()
            invariant
                0 <= i <= self.fragments.len(),
                opt_view(text) == written_text(self.fragments@.take(i as int)),
            decreases self.fragments.len() - i,
        {
            proof {
                assert(self.fragments@.take(i as int + 1).drop_last() =~= self.fragments@.take(i as int));
            }
            let fragment = &self.fragments[i];
            if !fragment.is_mention() {
                text = match text {
                    Some(t) => {
                        let mut t = t;
                        t.append(" ");
                        t.append(fragment.text().as_str());
                        Some(t)
                    },
                    None => Some(trim_text(fragment.text().as_str())),
                };
            }
            i = i + 1;
        }
        assert(self.fragments@.take(i as int) =~= self.fragments@);
        text
    }
}

#[derive(Debug, Clone)]
pub struct Badge {
    pub set_id: String,
    pub id: String,
    pub info: String,
}

#[derive(Debug, Clone)]
pub struct Reply {
    pub thread_user_id: String,
    pub thread_user_name: String,
    pub thread_user_login: String,
    pub parent_user_id: String,
    pub parent_user_name: String,
    pub parent_user_login: String,
    pub parent_message_id: String,
    pub parent_message_body: String,
    pub thread_message_id: String,
}

#[derive(Debug, Clone)]
pub struct Reward {
    pub id: String,
    pub title: String,
    pub prompt: String,
    pub cost: u32,
}

#[derive(Debug, Clone)]
pub struct Cheer {
    pub bits: u32,
}

/// Lifecycle phase of an inbound envelope.
#[derive(Clone, Copy, PartialEq, Eq, Structural, Debug)]
pub enum EventMessageType {
    Welcome,
    KeepAlive,
    Notification,
    Unknown,
}

/// The phase named by a `message_type`; any other text is `Unknown`.
pub open spec fn phase_of(t: Seq<char>) -> EventMessageType {
    if t == "session_welcome"@ {
        EventMessageType::Welcome
    } else if t == "session_keepalive"@ {
        EventMessageType::KeepAlive
    } else if t == "notification"@ {
        EventMessageType::Notification
    } else {
        EventMessageType::Unknown
    }
}

impl EventMessageType {
    pub fn from_string(t: &str) -> (r: EventMessageType)
        ensures
            r == phase_of(t@),
    {
        let t = String::from_str(t);
        if t == String::from_str("session_welcome") {
            EventMessageType::Welcome
        } else if t == String::from_str("session_keepalive") {
            EventMessageType::KeepAlive
        } else if t == String::from_str("notification") {
            EventMessageType::Notification
        } else {
            EventMessageType::Unknown
        }
    }
}

} // verus!
