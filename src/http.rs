//! Authenticated requests: headers, query strings, the request values handed
//! to the executor, and the refresh-and-retry-once state machine around them.

use vstd::prelude::*;
use vstd::string::*;
use crate::text::{join2, decimal, decimal_of, chars_of, find_char, first_index, has_word, contains_word};
use crate::json::{quote, json_quoted};
use crate::messages::{
    Validation, ValidationView, error_text, NewAccessTokenResponse, TokenAnswerView, opt_validation_view, validation_in,
    token_answer_in,
};
use crate::catalog::{Subscription, scope_of};

verus! {

/// Scheme word of an Authorization header.
#[derive(Clone, Copy, PartialEq, Eq, Structural, Debug)]
pub enum AuthType {
    Bearer,
    OAuth,
}

pub open spec fn auth_name(a: AuthType) -> Seq<char> {
    match a {
        AuthType::Bearer => "Bearer"@,
        AuthType::OAuth => "OAuth"@,
    }
}

impl AuthType {
    pub fn to_string(&self) -> (r: String)
        ensures
            r@ == auth_name(*self),
    {
        match self {
            AuthType::Bearer => String::from_str("Bearer"),
            AuthType::OAuth => String::from_str("OAuth"),
        }
    }
}

/// One header of a request.
#[derive(Clone, Debug)]
pub enum Header {
    Auth(AuthType, String),
    ClientId(String),
    ContentJson,
    ContentUrlEncoded,
}

pub enum HeaderView {
    Auth(AuthType, Seq<char>),
    ClientId(Seq<char>),
    ContentJson,
    ContentUrlEncoded,
}

impl View for Header {
    type V = HeaderView;

    open spec fn view(&self) -> HeaderView {
        match self {
            Header::Auth(a, t) => HeaderView::Auth(*a, t@),
            Header::ClientId(id) => HeaderView::ClientId(id@),
            Header::ContentJson => HeaderView::ContentJson,
            Header::ContentUrlEncoded => HeaderView::ContentUrlEncoded,
        }
    }
}

/// The text line of a header.
pub open spec fn header_line(h: HeaderView) -> Seq<char> {
    match h {
        HeaderView::Auth(a, t) => "Authorization: "@ + auth_name(a) + " "@ + t,
        HeaderView::ClientId(id) => "Client-Id: "@ + id,
        HeaderView::ContentJson => "Content-Type: application/json"@,
        HeaderView::ContentUrlEncoded => "Content-Type: application/x-www-form-urlencoded"@,
    }
}

impl Header {
    pub fn generate(&self) -> (r: String)
        ensures
            r@ == header_line(self@),
    {
        match self {
            Header::Auth(auth_type, token) => {
                let mut s = String::from_str("Authorization: ");
                let name = auth_type.to_string();
                s.append(name.as_str());
                s.append(" ");
                s.append(token.as_str());
                s
            },
            Header::ClientId(id) => join2("Client-Id: ", id.as_str()),
            Header::ContentJson => String::from_str("Content-Type: application/json"),
            Header::ContentUrlEncoded => String::from_str("Content-Type: application/x-www-form-urlencoded"),
        }
    }
}

/// Method of a request, with its body for a POST.
#[derive(Clone, Debug)]
pub enum RequestType {
    Post(String),
    Delete,
}

pub enum RequestTypeView {
    Post(Seq<char>),
    Delete,
}

impl View for RequestType {
    type V = RequestTypeView;

    open spec fn view(&self) -> RequestTypeView {
        match self {
            RequestType::Post(d) => RequestTypeView::Post(d@),
            RequestType::Delete => RequestTypeView::Delete,
        }
    }
}

pub open spec fn opt_request_type_view(o: Option<RequestType>) -> Option<RequestTypeView> {
    match o {
        Some(t) => Some(t@),
        None => None,
    }
}

pub open spec fn headers_view(hs: Seq<Header>) -> Seq<HeaderView> {
    hs.map_values(|h: Header| h@)
}

/// One request: its url, its headers in order, and its method.
#[derive(Clone, Debug)]
pub struct TwitchHttpRequest {
    url: String,
    headers: Vec<Header>,
    request_type: Option<RequestType>,
}

pub struct RequestView {
    pub url: Seq<char>,
    pub headers: Seq<HeaderView>,
    pub request_type: Option<RequestTypeView>,
}

impl View for TwitchHttpRequest {
    type V = RequestView;

    closed spec fn view(&self) -> RequestView {
        RequestView {
            url: self.url@,
            headers: headers_view(self.headers@),
            request_type: opt_request_type_view(self.request_type),
        }
    }
}

/// The headers with the token of the first Authorization header replaced by
/// `t`; the others untouched.
pub open spec fn replace_first_token(hs: Seq<HeaderView>, t: Seq<char>) -> Seq<HeaderView>
    decreases hs.len(),
{
    if hs.len() == 0 {
        hs
    } else {
        match hs[0] {
            HeaderView::Auth(a, _) => seq![HeaderView::Auth(a, t)] + hs.drop_first(),
            _ => seq![hs[0]] + replace_first_token(hs.drop_first(), t),
        }
    }
}

proof fn lemma_replace_after_prefix(hs: Seq<HeaderView>, i: int, t: Seq<char>)
    requires
        0 <= i <= hs.len(),
        forall|j: int| 0 <= j < i ==> !(hs[j] is Auth),
    ensures
        replace_first_token(hs, t) == hs.take(i) + replace_first_token(hs.skip(i), t),
    decreases i,
{
    if i > 0 {
        let rest = hs.drop_first();
        assert forall|j: int| 0 <= j < i - 1 implies !(rest[j] is Auth) by {
            assert(rest[j] == hs[j + 1]);
        }
        lemma_replace_after_prefix(rest, i - 1, t);
        assert(rest.skip(i - 1) =~= hs.skip(i));
        assert(hs.take(i) =~= seq![hs[0]] + rest.take(i - 1));
        assert(!(hs[0] is Auth));
    } else {
        assert(hs.skip(0) =~= hs);
    }
}

impl TwitchHttpRequest {
    pub fn new(url: &str) -> (r: TwitchHttpRequest)
        ensures
            r@ == (RequestView { url: url@, headers: Seq::empty(), request_type: None }),
    {
        let r = TwitchHttpRequest { url: String::from_str(url), headers: Vec::new(), request_type: None };
        assert(headers_view(r.headers@) =~= Seq::empty());
        r
    }

    /// The url of the request.
    pub fn url(&self) -> (r: &str)
        ensures
            r@ == self@.url,
    {
        self.url.as_str()
    }

    /// The headers of the request, in order.
    pub fn headers(&self) -> (r: &Vec<Header>)
        ensures
            headers_view(r@) == self@.headers,
    {
        &self.headers
    }

    /// The method of the request.
    pub fn request_type(&self) -> (r: &Option<RequestType>)
        ensures
            opt_request_type_view(*r) == self@.request_type,
    {
        &self.request_type
    }

    pub fn add_header(self, header: Header) -> (r: TwitchHttpRequest)
        ensures
            r@ == (RequestView { headers: self@.headers.push(header@), ..self@ }),
    {
        let mut s = self;
        proof {
            assert(headers_view(s.headers@.push(header)) =~= headers_view(s.headers@).push(header@));
        }
        s.headers.push(header);
        s
    }

    /// Adds both authentication headers: a Bearer token, then the client id.
    pub fn full_auth(self, access_token: String, client_id: String) -> (r: TwitchHttpRequest)
        ensures
            r@ == (RequestView {
                headers: self@.headers.push(HeaderView::Auth(AuthType::Bearer, access_token@)).push(
                    HeaderView::ClientId(client_id@),
                ),
                ..self@
            }),
    {
        self.header_authorisation(access_token, AuthType::Bearer).header_client_id(client_id)
    }

    pub fn header_authorisation(self, token: String, auth_type: AuthType) -> (r: TwitchHttpRequest)
        ensures
            r@ == (RequestView { headers: self@.headers.push(HeaderView::Auth(auth_type, token@)), ..self@ }),
    {
        self.add_header(Header::Auth(auth_type, token))
    }

    pub fn header_client_id(self, client_id: String) -> (r: TwitchHttpRequest)
        ensures
            r@ == (RequestView { headers: self@.headers.push(HeaderView::ClientId(client_id@)), ..self@ }),
    {
        self.add_header(Header::ClientId(client_id))
    }

    pub fn json_content(self) -> (r: TwitchHttpRequest)
        ensures
            r@ == (RequestView { headers: self@.headers.push(HeaderView::ContentJson), ..self@ }),
    {
        self.add_header(Header::ContentJson)
    }

    pub fn url_encoded_content(self) -> (r: TwitchHttpRequest)
        ensures
            r@ == (RequestView { headers: self@.headers.push(HeaderView::ContentUrlEncoded), ..self@ }),
    {
        self.add_header(Header::ContentUrlEncoded)
    }

    pub fn is_delete(self) -> (r: TwitchHttpRequest)
        ensures
            r@ == (RequestView { request_type: Some(RequestTypeView::Delete), ..self@ }),
    {
        let mut s = self;
        s.request_type = Some(RequestType::Delete);
        s
    }

    pub fn is_post(self, data: String) -> (r: TwitchHttpRequest)
        ensures
            r@ == (RequestView { request_type: Some(RequestTypeView::Post(data@)), ..self@ }),
    {
        let mut s = self;
        s.request_type = Some(RequestType::Post(data));
        s
    }

    /// Replaces the token of the first Authorization header, leaving every
    /// other header and the rest of the request as they were.
    pub fn update_token(&mut self, new_token: String)
        ensures
            final(self)@ == (RequestView { headers: replace_first_token(old(self)@.headers, new_token@), ..old(self)@ }),
    {
        let ghost hs = headers_view(self.headers@);
        let mut i: usize = 0;
        while i < self.headers.len()
            invariant
                *self == *old(self),
                hs == headers_view(self.headers@),
                0 <= i <= self.headers.len(),
                forall|j: int| 0 <= j < i ==> !(hs[j] is Auth),
            decreases self.headers.len() - i,
        {
            let found: Option<AuthType> = match &self.headers[i] {
                Header::Auth(a, _) => Some(*a),
                _ => None,
            };
            if let Some(a) = found {
                proof {
                    lemma_replace_after_prefix(hs, i as int, new_token@);
                }
                self.headers.set(i, Header::Auth(a, new_token));
                proof {
                    let nh = headers_view(self.headers@);
                    assert(nh =~= hs.take(i as int) + replace_first_token(hs.skip(i as int), new_token@));
                }
                return;
            }
            i = i + 1;
        }
        proof {
            lemma_replace_after_prefix(hs, i as int, new_token@);
            assert(hs.take(i as int) =~= hs);
            assert(hs.skip(i as int) =~= Seq::<HeaderView>::empty());
        }
    }
}

/// Endpoint that sends a chat message.
pub const SEND_MESSAGE_URL: &'static str = "https://api.twitch.tv/helix/chat/messages";
/// Endpoint that deletes a chat message.
pub const TWITCH_DELETE_MESSAGE_URL: &'static str = "https://api.twitch.tv/helix/moderation/chat";
/// Endpoint that bans or times out a user.
pub const TWITCH_BAN_URL: &'static str = "https://api.twitch.tv/helix/moderation/bans";
/// Base of the authorisation endpoints.
pub const TWITCH_AUTHORISE_URL: &'static str = "https://id.twitch.tv/oauth2/";
/// Endpoint of the token exchange.
pub const TWITCH_TOKEN_URL: &'static str = "https://id.twitch.tv/oauth2/token";
/// Longest chat message, in bytes of UTF-8, that the service accepts.
pub const MAX_MESSAGE_BYTES: usize = 500;

impl Header {
    /// A copy of this header.
    pub fn duplicate(&self) -> (r: Header)
        ensures
            r@ == self@,
    {
        match self {
            Header::Auth(a, t) => Header::Auth(*a, t.clone()),
            Header::ClientId(id) => Header::ClientId(id.clone()),
            Header::ContentJson => Header::ContentJson,
            Header::ContentUrlEncoded => Header::ContentUrlEncoded,
        }
    }
}

impl TwitchHttpRequest {
    /// A copy of this request.
    pub fn duplicate(&self) -> (r: TwitchHttpRequest)
        ensures
            r@ == self@,
    {
        let mut headers: Vec<Header> = Vec::new();
        let mut i: usize = 0;
        while i < self.headers.len()
            invariant
                0 <= i <= self.headers.len(),
                headers@.len() == i,
                forall|j: int| 0 <= j < i ==> (#[trigger] headers@[j])@ == self.headers@[j]@,
            decreases self.headers.len() - i,
        {
            headers.push(self.headers[i].duplicate());
            i = i + 1;
        }
        let request_type = match &self.request_type {
            Some(RequestType::Post(d)) => Some(RequestType::Post(d.clone())),
            Some(RequestType::Delete) => Some(RequestType::Delete),
            None => None,
        };
        let r = TwitchHttpRequest { url: self.url.clone(), headers, request_type };
        assert(headers_view(r.headers@) =~= headers_view(self.headers@));
        r
    }
}

/// Pairs `key=value` of a query string.
pub struct RequestBuilder {
    data: Vec<(String, String)>,
}

impl View for RequestBuilder {
    type V = Seq<(Seq<char>, Seq<char>)>;

    closed spec fn view(&self) -> Seq<(Seq<char>, Seq<char>)> {
        self.data@.map_values(|p: (String, String)| (p.0@, p.1@))
    }
}

/// The pairs joined as `k1=v1&k2=v2...`, in insertion order.
pub open spec fn query_text(pairs: Seq<(Seq<char>, Seq<char>)>) -> Seq<char>
    decreases pairs.len(),
{
    if pairs.len() == 0 {
        Seq::empty()
    } else if pairs.len() == 1 {
        pairs[0].0 + "="@ + pairs[0].1
    } else {
        query_text(pairs.drop_last()) + "&"@ + pairs.last().0 + "="@ + pairs.last().1
    }
}

/// The url with its query string, if there are pairs.
pub open spec fn with_query(url: Seq<char>, pairs: Seq<(Seq<char>, Seq<char>)>) -> Seq<char> {
    if pairs.len() == 0 {
        url
    } else {
        url + "?"@ + query_text(pairs)
    }
}

impl RequestBuilder {
    pub fn new() -> (r: RequestBuilder)
        ensures
            r@ == Seq::<(Seq<char>, Seq<char>)>::empty(),
    {
        let r = RequestBuilder { data: Vec::new() };
        assert(r@ =~= Seq::<(Seq<char>, Seq<char>)>::empty());
        r
    }

    pub fn add_key_value(self, key: &str, value: String) -> (r: RequestBuilder)
        ensures
            r@ == self@.push((key@, value@)),
    {
        let mut s = self;
        s.data.push((String::from_str(key), value));
        assert(s@ =~= self@.push((key@, value@)));
        s
    }

    pub fn build(self, url: &str) -> (r: String)
        ensures
            r@ == with_query(url@, self@),
    {
        let ghost pairs = self@;
        let mut request = String::from_str(url);
        if self.data.len() == 0 {
            return request;
        }
        request.append("?");
        let mut i: usize = 0;
        while i < self.data.len()
            invariant
                pairs == self@,
                0 <= i <= self.data.len(),
                request@ == url@ + "?"@ + query_text(pairs.take(i as int)),
            decreases self.data.len() - i,
        {
            proof {
                assert(pairs.take(i as int + 1).drop_last() =~= pairs.take(i as int));
                if i == 0 {
                    assert(query_text(pairs.take(0)) =~= Seq::<char>::empty());
                }
            }
            if i > 0 {
                request.append("&");
            }
            request.append(self.data[i].0.as_str());
            request.append("=");
            request.append(self.data[i].1.as_str());
            assert(request@ =~= url@ + "?"@ + query_text(pairs.take(i as int + 1)));
            i = i + 1;
        }
        assert(pairs.take(i as int) =~= pairs);
        request
    }
}

/// An access/refresh token pair with its lifetime in seconds.
#[derive(Debug, Clone)]
pub struct Token {
    pub access_token: String,
    pub refresh_token: String,
    pub expires_in: u32,
}

/// Failures of this layer.
#[derive(Debug, Clone)]
pub enum EventSubError {
    /// A chat message over the length limit; nothing was sent.
    MessageTooLong,
    /// The service reported an expired token for this request.
    TokenRequiresRefreshing(TwitchHttpRequest),
    /// The token is still rejected after a refresh, or the refresh failed.
    InvalidOauthToken(String),
    /// A token exchange answer could not be read.
    AuthorisationError(String),
    /// The transport failed for a reason other than authorisation.
    CurlFailed(String),
    /// The authorisation flow reported an error.
    UnhandledError(String),
    /// An inbound envelope could not be decoded.
    DecodeError(String),
}

pub enum ErrorView {
    MessageTooLong,
    TokenRequiresRefreshing(RequestView),
    InvalidOauthToken(Seq<char>),
    AuthorisationError(Seq<char>),
    CurlFailed(Seq<char>),
    UnhandledError(Seq<char>),
    DecodeError(Seq<char>),
}

impl View for EventSubError {
    type V = ErrorView;

    open spec fn view(&self) -> ErrorView {
        match self {
            EventSubError::MessageTooLong => ErrorView::MessageTooLong,
            EventSubError::TokenRequiresRefreshing(r) => ErrorView::TokenRequiresRefreshing(r@),
            EventSubError::InvalidOauthToken(s) => ErrorView::InvalidOauthToken(s@),
            EventSubError::AuthorisationError(s) => ErrorView::AuthorisationError(s@),
            EventSubError::CurlFailed(s) => ErrorView::CurlFailed(s@),
            EventSubError::UnhandledError(s) => ErrorView::UnhandledError(s@),
            EventSubError::DecodeError(s) => ErrorView::DecodeError(s@),
        }
    }
}

/// The error for a failed call of `req` whose failure text is `text`, and
/// whose text read as an answer gives `v`: a 401 asks for a refresh; any other
/// failure is a transport error, reported with the answer's status where
/// there is one.
pub open spec fn failure_view(req: RequestView, text: Seq<char>, v: Option<ValidationView>) -> ErrorView {
    match v {
        Some(val) => match val.status {
            Some(status) => if status == 401 {
                ErrorView::TokenRequiresRefreshing(req)
            } else {
                ErrorView::CurlFailed(error_text(status, val.message))
            },
            None => ErrorView::CurlFailed(text),
        },
        None => ErrorView::CurlFailed(text),
    }
}

/// Classifies the failure of `request`, given the failure text and what it
/// reads as when taken for an answer.
pub fn classify_failure(request: &TwitchHttpRequest, failure_text: &str, validation: Option<Validation>) -> (r: EventSubError)
    ensures
        r@ == failure_view(request@, failure_text@, opt_validation_view(validation)),
{
    match validation {
        Some(val) => {
            if val.is_error() {
                let status = match val.status {
                    Some(s) => s,
                    None => 0,
                };
                if status == 401 {
                    EventSubError::TokenRequiresRefreshing(request.duplicate())
                } else {
                    EventSubError::CurlFailed(val.error_msg())
                }
            } else {
                EventSubError::CurlFailed(String::from_str(failure_text))
            }
        },
        None => EventSubError::CurlFailed(String::from_str(failure_text)),
    }
}

impl TwitchHttpRequest {
    /// The error for a failed execution of this request whose failure text
    /// is `failure_text`; the text is read as a JSON answer where it is one.
    pub fn failure(&self, failure_text: &str) -> (r: EventSubError)
        ensures
            r@ == failure_view(self@, failure_text@, validation_in(failure_text@)),
    {
        let v = Validation::from_json(failure_text);
        classify_failure(self, failure_text, v)
    }
}

/// Request constructors for the service's endpoints.
pub struct TwitchApi;

/// The JSON body that sends `message` to broadcaster `b` as sender `s`.
pub open spec fn chat_body(b: Seq<char>, s: Seq<char>, message: Seq<char>, reply: Option<Seq<char>>) -> Seq<char> {
    "{\"broadcaster_id\":"@ + json_quoted(b) + ",\"sender_id\":"@ + json_quoted(s) + ",\"message\":"@
        + json_quoted(message) + ",\"reply_parent_message_id\":"@ + match reply {
        Some(r) => json_quoted(r),
        None => "null"@,
    } + "}"@
}

/// The JSON body that times out `user` for `duration` seconds.
pub open spec fn timeout_body(user: Seq<char>, duration: u32, reason: Seq<char>) -> Seq<char> {
    "{\"data\":{\"user_id\":"@ + json_quoted(user) + ",\"duration\":"@ + decimal_of(duration as nat)
        + ",\"reason\":"@ + json_quoted(reason) + "}}"@
}

/// The scopes of the kinds that require one, joined by `+`, in order.
pub open spec fn joined_scopes(kinds: Seq<Subscription>) -> Seq<char>
    decreases kinds.len(),
{
    if kinds.len() == 0 {
        Seq::empty()
    } else {
        let prev = joined_scopes(kinds.drop_last());
        let sc = scope_of(kinds.last());
        if sc.len() == 0 {
            prev
        } else if prev.len() == 0 {
            sc
        } else {
            prev + "+"@ + sc
        }
    }
}

pub open spec fn bearer_auth(access_token: Seq<char>, client_id: Seq<char>) -> Seq<HeaderView> {
    seq![HeaderView::Auth(AuthType::Bearer, access_token), HeaderView::ClientId(client_id)]
}

fn opt_quote(o: &Option<String>) -> (r: String)
    ensures
        r@ == match o {
            Some(s) => json_quoted(s@),
            None => "null"@,
        },
{
    match o {
        Some(s) => quote(s.as_str()),
        None => String::from_str("null"),
    }
}

impl TwitchApi {
    /// The request that sends a chat message; `MessageTooLong`, and no
    /// request, where the message is over the length limit. Without a sender
    /// the broadcaster sends.
    pub fn send_chat_message_request(
        message: &str,
        access_token: String,
        client_id: String,
        broadcaster_account_id: &str,
        sender_account_id: Option<String>,
        reply_parent_message_id: Option<String>,
    ) -> (r: Result<TwitchHttpRequest, EventSubError>)
        ensures
            r is Err <==> message.len() > MAX_MESSAGE_BYTES,
            r is Err ==> r->Err_0@ == ErrorView::MessageTooLong,
            r is Ok ==> r->Ok_0@ == (RequestView {
                url: SEND_MESSAGE_URL@,
                headers: seq![HeaderView::ContentJson] + bearer_auth(access_token@, client_id@),
                request_type: Some(RequestTypeView::Post(chat_body(
                    broadcaster_account_id@,
                    match sender_account_id {
                        Some(s) => s@,
                        None => broadcaster_account_id@,
                    },
                    message@,
                    match reply_parent_message_id {
                        Some(p) => Some(p@),
                        None => None,
                    },
                ))),
            }),
    {
        if message.len() > MAX_MESSAGE_BYTES {
            return Err(EventSubError::MessageTooLong);
        }
        let sender = match sender_account_id {
            Some(s) => s,
            None => String::from_str(broadcaster_account_id),
        };
        let mut body = String::from_str("{\"broadcaster_id\":");
        body.append(quote(broadcaster_account_id).as_str());
        body.append(",\"sender_id\":");
        body.append(quote(sender.as_str()).as_str());
        body.append(",\"message\":");
        body.append(quote(message).as_str());
        body.append(",\"reply_parent_message_id\":");
        body.append(opt_quote(&reply_parent_message_id).as_str());
        body.append("}");
        let r = TwitchHttpRequest::new(SEND_MESSAGE_URL).json_content().full_auth(access_token, client_id).is_post(body);
        assert(r@.headers =~= seq![HeaderView::ContentJson] + bearer_auth(access_token@, client_id@));
        Ok(r)
    }

    /// The request that times a user out for `duration_secs` seconds.
    pub fn timeout_user_request(
        access_token: String,
        client_id: String,
        broadcaster_id: String,
        moderator_id: String,
        user_id: &str,
        duration_secs: u32,
        reason: &str,
    ) -> (r: TwitchHttpRequest)
        ensures
            r@ == (RequestView {
                url: with_query(
                    TWITCH_BAN_URL@,
                    seq![("broadcaster_id"@, broadcaster_id@), ("moderator_id"@, moderator_id@)],
                ),
                headers: bearer_auth(access_token@, client_id@).push(HeaderView::ContentJson),
                request_type: Some(RequestTypeView::Post(timeout_body(user_id@, duration_secs, reason@))),
            }),
    {
        let url = RequestBuilder::new().add_key_value("broadcaster_id", broadcaster_id).add_key_value(
            "moderator_id",
            moderator_id,
        ).build(TWITCH_BAN_URL);
        let mut body = String::from_str("{\"data\":{\"user_id\":");
        body.append(quote(user_id).as_str());
        body.append(",\"duration\":");
        body.append(decimal(duration_secs).as_str());
        body.append(",\"reason\":");
        body.append(quote(reason).as_str());
        body.append("}}");
        let r = TwitchHttpRequest::new(url.as_str()).header_authorisation(access_token, AuthType::Bearer).header_client_id(
            client_id,
        ).json_content().is_post(body);
        assert(r@.headers =~= bearer_auth(access_token@, client_id@).push(HeaderView::ContentJson));
        assert(seq![("broadcaster_id"@, broadcaster_id@), ("moderator_id"@, moderator_id@)] =~= Seq::empty().push(
            ("broadcaster_id"@, broadcaster_id@),
        ).push(("moderator_id"@, moderator_id@)));
        r
    }

    /// The request that deletes a chat message; the identifiers go in the
    /// query string.
    pub fn delete_message(
        broadcaster_id: String,
        moderator_id: String,
        message_id: String,
        access_token: String,
        client_id: String,
    ) -> (r: TwitchHttpRequest)
        ensures
            r@ == (RequestView {
                url: with_query(
                    TWITCH_DELETE_MESSAGE_URL@,
                    seq![
                        ("broadcaster_id"@, broadcaster_id@),
                        ("moderator_id"@, moderator_id@),
                        ("message_id"@, message_id@),
                    ],
                ),
                headers: bearer_auth(access_token@, client_id@),
                request_type: Some(RequestTypeView::Delete),
            }),
    {
        let ghost pairs = seq![
            ("broadcaster_id"@, broadcaster_id@),
            ("moderator_id"@, moderator_id@),
            ("message_id"@, message_id@),
        ];
        let builder = RequestBuilder::new().add_key_value("broadcaster_id", broadcaster_id).add_key_value(
            "moderator_id",
            moderator_id,
        ).add_key_value("message_id", message_id);
        assert(builder@ =~= pairs);
        let url = builder.build(TWITCH_DELETE_MESSAGE_URL);
        let r = TwitchHttpRequest::new(url.as_str()).header_authorisation(access_token, AuthType::Bearer).header_client_id(
            client_id,
        ).is_delete();
        assert(r@.headers =~= bearer_auth(access_token@, client_id@));
        r
    }

    /// The token exchange request that trades a refresh token for a new token.
    pub fn generate_token_from_refresh_token(client_id: &str, client_secret: &str, refresh_token: &str) -> (r:
        TwitchHttpRequest)
        ensures
            r@ == (RequestView {
                url: TWITCH_TOKEN_URL@,
                headers: seq![HeaderView::ContentUrlEncoded],
                request_type: Some(RequestTypeView::Post(
                    "grant_type=refresh_token&refresh_token="@ + refresh_token@ + "&client_id="@ + client_id@
                        + "&client_secret="@ + client_secret@,
                )),
            }),
    {
        let mut data = String::from_str("grant_type=refresh_token&refresh_token=");
        data.append(refresh_token);
        data.append("&client_id=");
        data.append(client_id);
        data.append("&client_secret=");
        data.append(client_secret);
        let r = TwitchHttpRequest::new(TWITCH_TOKEN_URL).url_encoded_content().is_post(data);
        assert(r@.headers =~= seq![HeaderView::ContentUrlEncoded]);
        r
    }

    /// The token exchange request that trades an authorisation code for a
    /// user token.
    pub fn get_user_token_from_authorisation_code(
        client_id: &str,
        client_secret: &str,
        authorisation_code: &str,
        redirect_url: &str,
    ) -> (r: TwitchHttpRequest)
        ensures
            r@ == (RequestView {
                url: TWITCH_TOKEN_URL@,
                headers: seq![HeaderView::ContentUrlEncoded],
                request_type: Some(RequestTypeView::Post(
                    "client_id="@ + client_id@ + "&client_secret="@ + client_secret@ + "&code="@
                        + authorisation_code@ + "&grant_type=authorization_code&redirect_uri="@ + redirect_url@,
                )),
            }),
    {
        let mut data = String::from_str("client_id=");
        data.append(client_id);
        data.append("&client_secret=");
        data.append(client_secret);
        data.append("&code=");
        data.append(authorisation_code);
        data.append("&grant_type=authorization_code&redirect_uri=");
        data.append(redirect_url);
        let r = TwitchHttpRequest::new(TWITCH_TOKEN_URL).url_encoded_content().is_post(data);
        assert(r@.headers =~= seq![HeaderView::ContentUrlEncoded]);
        r
    }

    /// The scopes that the kinds require, without the empty ones, joined by `+`.
    pub fn joined_scopes(scopes: &Vec<Subscription>) -> (r: String)
        ensures
            r@ == joined_scopes(scopes@),
    {
        let mut out = String::new();
        let mut i: usize = 0;
        while i < scopes.len()
            invariant
                0 <= i <= scopes.len(),
                out@ == joined_scopes(scopes@.take(i as int)),
            decreases scopes.len() - i,
        {
            proof {
                assert(scopes@.take(i as int + 1).drop_last() =~= scopes@.take(i as int));
            }
            let sc = scopes[i].required_scope();
            if !sc.as_str().is_empty() {
                if !out.as_str().is_empty() {
                    out.append("+");
                }
                out.append(sc.as_str());
            }
            i = i + 1;
        }
        assert(scopes@.take(i as int) =~= scopes@);
        out
    }

    /// The address that asks the user to authorise the scopes of `scopes`.
    pub fn authorisation_url(client_id: &str, redirect_url: &str, scopes: &Vec<Subscription>) -> (r: String)
        ensures
            r@ == TWITCH_AUTHORISE_URL@ + "authorize?response_type=code&client_id="@ + client_id@
                + "&redirect_uri="@ + redirect_url@ + "&scope="@ + joined_scopes(scopes@),
    {
        let mut url = String::from_str(TWITCH_AUTHORISE_URL);
        url.append("authorize?response_type=code&client_id=");
        url.append(client_id);
        url.append("&redirect_uri=");
        url.append(redirect_url);
        url.append("&scope=");
        let sc = TwitchApi::joined_scopes(scopes);
        url.append(sc.as_str());
        url
    }
}

/// Where an authenticated call stands.
#[derive(Clone, Copy, PartialEq, Eq, Structural, Debug)]
pub enum CallPhase {
    /// The request is to be executed (first time, or once more after a refresh).
    Executing,
    /// The token expired; the caller is to exchange the refresh token.
    AwaitingRefresh,
    /// The call is over.
    Finished,
}

/// What the caller does next for an authenticated call.
#[derive(Debug)]
pub enum CallAction {
    /// Execute `request()` and report the outcome with `on_response`.
    Execute,
    /// Exchange the refresh token once and report it with `on_refresh`.
    Refresh,
    /// The call ends with this result.
    Finish(Result<String, EventSubError>),
}

pub enum ActionView {
    Execute,
    Refresh,
    Finish(Result<Seq<char>, ErrorView>),
}

impl View for CallAction {
    type V = ActionView;

    open spec fn view(&self) -> ActionView {
        match self {
            CallAction::Execute => ActionView::Execute,
            CallAction::Refresh => ActionView::Refresh,
            CallAction::Finish(r) => ActionView::Finish(result_view(*r)),
        }
    }
}

pub open spec fn result_view(r: Result<String, EventSubError>) -> Result<Seq<char>, ErrorView> {
    match r {
        Ok(s) => Ok(s@),
        Err(e) => Err(e@),
    }
}

/// Text of the error that ends a call whose token stays invalid after one refresh.
pub const STILL_EXPIRED_TEXT: &'static str = "access token rejected after refresh";
/// Text of the error that ends a call whose token refresh failed.
pub const REFRESH_FAILED_TEXT: &'static str = "token refresh failed";

/// One authenticated request, executed at most twice: once, and once more
/// with a refreshed token where the first answer reports an expired token.
#[derive(Debug)]
pub struct AuthenticatedCall {
    request: TwitchHttpRequest,
    phase: CallPhase,
    refreshed: bool,
}

pub struct CallView {
    pub request: RequestView,
    pub phase: CallPhase,
    pub refreshed: bool,
}

impl View for AuthenticatedCall {
    type V = CallView;

    closed spec fn view(&self) -> CallView {
        CallView { request: self.request@, phase: self.phase, refreshed: self.refreshed }
    }
}

/// The state of a call that has not run yet.
pub open spec fn call_start(req: RequestView) -> CallView {
    CallView { request: req, phase: CallPhase::Executing, refreshed: false }
}

/// The next state and action after an execution of the request ends with `o`.
pub open spec fn after_response(s: CallView, o: Result<Seq<char>, ErrorView>) -> (CallView, ActionView) {
    match o {
        Ok(body) => (CallView { phase: CallPhase::Finished, ..s }, ActionView::Finish(Ok(body))),
        Err(ErrorView::TokenRequiresRefreshing(_)) => if s.refreshed {
            (
                CallView { phase: CallPhase::Finished, ..s },
                ActionView::Finish(Err(ErrorView::InvalidOauthToken(STILL_EXPIRED_TEXT@))),
            )
        } else {
            (CallView { phase: CallPhase::AwaitingRefresh, ..s }, ActionView::Refresh)
        },
        Err(e) => (CallView { phase: CallPhase::Finished, ..s }, ActionView::Finish(Err(e))),
    }
}

/// The next state and action after the refresh ends with a new access token,
/// or fails.
pub open spec fn after_refresh(s: CallView, t: Result<Seq<char>, ErrorView>) -> (CallView, ActionView) {
    match t {
        Ok(access) => (
            CallView {
                request: RequestView { headers: replace_first_token(s.request.headers, access), ..s.request },
                phase: CallPhase::Executing,
                refreshed: true,
            },
            ActionView::Execute,
        ),
        Err(_) => (
            CallView { phase: CallPhase::Finished, ..s },
            ActionView::Finish(Err(ErrorView::InvalidOauthToken(REFRESH_FAILED_TEXT@))),
        ),
    }
}

pub open spec fn token_result_view(t: Result<Token, EventSubError>) -> Result<Seq<char>, ErrorView> {
    match t {
        Ok(tok) => Ok(tok.access_token@),
        Err(e) => Err(e@),
    }
}

impl AuthenticatedCall {
    pub fn new(request: TwitchHttpRequest) -> (r: AuthenticatedCall)
        ensures
            r@ == call_start(request@),
    {
        AuthenticatedCall { request, phase: CallPhase::Executing, refreshed: false }
    }

    /// The request to execute now.
    pub fn request(&self) -> (r: &TwitchHttpRequest)
        ensures
            r@ == self@.request,
    {
        &self.request
    }

    pub fn phase(&self) -> (r: CallPhase)
        ensures
            r == self@.phase,
    {
        self.phase
    }

    /// Whether the token was refreshed once already.
    pub fn refreshed(&self) -> (r: bool)
        ensures
            r == self@.refreshed,
    {
        self.refreshed
    }

    /// Takes the outcome of one execution of the request.
    pub fn on_response(&mut self, outcome: Result<String, EventSubError>) -> (r: CallAction)
        requires
            old(self)@.phase == CallPhase::Executing,
        ensures
            (final(self)@, r@) == after_response(old(self)@, result_view(outcome)),
    {
        match outcome {
            Ok(body) => {
                self.phase = CallPhase::Finished;
                CallAction::Finish(Ok(body))
            },
            Err(EventSubError::TokenRequiresRefreshing(_)) => {
                if self.refreshed {
                    self.phase = CallPhase::Finished;
                    CallAction::Finish(Err(EventSubError::InvalidOauthToken(String::from_str(STILL_EXPIRED_TEXT))))
                } else {
                    self.phase = CallPhase::AwaitingRefresh;
                    CallAction::Refresh
                }
            },
            Err(e) => {
                self.phase = CallPhase::Finished;
                CallAction::Finish(Err(e))
            },
        }
    }

    /// Takes the outcome of the refresh-token exchange: on success the new
    /// access token replaces the old one in the Authorization header, and the
    /// request is executed once more.
    pub fn on_refresh(&mut self, token: Result<Token, EventSubError>) -> (r: CallAction)
        requires
            old(self)@.phase == CallPhase::AwaitingRefresh,
        ensures
            (final(self)@, r@) == after_refresh(old(self)@, token_result_view(token)),
    {
        match token {
            Ok(t) => {
                self.request.update_token(t.access_token);
                self.refreshed = true;
                self.phase = CallPhase::Executing;
                CallAction::Execute
            },
            Err(_) => {
                self.phase = CallPhase::Finished;
                CallAction::Finish(Err(EventSubError::InvalidOauthToken(String::from_str(REFRESH_FAILED_TEXT))))
            },
        }
    }
}

/// The headers hold exactly one Authorization header.
pub open spec fn single_auth(hs: Seq<HeaderView>) -> bool {
    &&& exists|i: int| 0 <= i < hs.len() && hs[i] is Auth
    &&& forall|i: int, j: int| 0 <= i < hs.len() && 0 <= j < hs.len() && hs[i] is Auth && hs[j] is Auth ==> i == j
}

/// Replacing the first token changes the Authorization header where there is
/// one, and no other header.
pub proof fn lemma_replace_first_token(hs: Seq<HeaderView>, t: Seq<char>)
    requires
        single_auth(hs),
    ensures
        replace_first_token(hs, t).len() == hs.len(),
        forall|i: int| 0 <= i < hs.len() ==> (#[trigger] replace_first_token(hs, t)[i]) == match hs[i] {
            HeaderView::Auth(a, _) => HeaderView::Auth(a, t),
            h => h,
        },
    decreases hs.len(),
{
    let r = replace_first_token(hs, t);
    if hs[0] is Auth {
        assert forall|i: int| 0 <= i < hs.len() implies r[i] == match hs[i] {
            HeaderView::Auth(a, _) => HeaderView::Auth(a, t),
            h => h,
        } by {
            if i > 0 {
                assert(!(hs[i] is Auth));
            }
        }
    } else {
        let rest = hs.drop_first();
        let k = choose|i: int| 0 <= i < hs.len() && hs[i] is Auth;
        assert(rest[k - 1] is Auth);
        assert forall|i: int, j: int|
            0 <= i < rest.len() && 0 <= j < rest.len() && rest[i] is Auth && rest[j] is Auth implies i == j by {
            assert(hs[i + 1] is Auth && hs[j + 1] is Auth);
        }
        lemma_replace_first_token(rest, t);
        assert forall|i: int| 0 <= i < hs.len() implies r[i] == match hs[i] {
            HeaderView::Auth(a, _) => HeaderView::Auth(a, t),
            h => h,
        } by {
            if i > 0 {
                assert(r[i] == replace_first_token(rest, t)[i - 1]);
                assert(rest[i - 1] == hs[i]);
            }
        }
    }
}

/// Adding the authentication headers to headers that hold no Authorization
/// header gives exactly one.
pub proof fn lemma_full_auth_single(hs: Seq<HeaderView>, access_token: Seq<char>, client_id: Seq<char>)
    requires
        forall|i: int| 0 <= i < hs.len() ==> !(#[trigger] hs[i] is Auth),
    ensures
        single_auth(hs.push(HeaderView::Auth(AuthType::Bearer, access_token)).push(HeaderView::ClientId(client_id))),
{
    let r = hs.push(HeaderView::Auth(AuthType::Bearer, access_token)).push(HeaderView::ClientId(client_id));
    assert(r[hs.len() as int] is Auth);
    assert forall|i: int, j: int| 0 <= i < r.len() && 0 <= j < r.len() && r[i] is Auth && r[j] is Auth implies i == j by {
        if i < hs.len() {
            assert(r[i] == hs[i]);
        }
        if j < hs.len() {
            assert(r[j] == hs[j]);
        }
    }
}

/// A call whose first execution reports an expired token and whose second
/// succeeds asks for exactly one refresh, executes once more with the
/// refreshed token in place of the old one (all else in the request as it
/// was), and ends with the body of the second answer.
pub proof fn lemma_refresh_once_then_success(
    req: RequestView,
    expired: RequestView,
    access: Seq<char>,
    body: Seq<char>,
)
    requires
        single_auth(req.headers),
    ensures
        ({
            let (s1, a1) = after_response(call_start(req), Err(ErrorView::TokenRequiresRefreshing(expired)));
            let (s2, a2) = after_refresh(s1, Ok(access));
            let (s3, a3) = after_response(s2, Ok(body));
            &&& a1 == ActionView::Refresh
            &&& a2 == ActionView::Execute
            &&& s2.request.url == req.url
            &&& s2.request.request_type == req.request_type
            &&& s2.request.headers.len() == req.headers.len()
            &&& forall|i: int| 0 <= i < req.headers.len() ==> (#[trigger] s2.request.headers[i]) == match req.headers[i] {
                HeaderView::Auth(a, _) => HeaderView::Auth(a, access),
                h => h,
            }
            &&& a3 == ActionView::Finish(Ok(body))
            &&& s3.phase == CallPhase::Finished
        }),
{
    lemma_replace_first_token(req.headers, access);
}

/// A call whose token is rejected on every execution ends after exactly one
/// refresh, with `InvalidOauthToken`: once the token has been refreshed, no
/// answer leads to another refresh.
pub proof fn lemma_refresh_at_most_once(
    req: RequestView,
    expired1: RequestView,
    expired2: RequestView,
    access: Seq<char>,
)
    ensures
        ({
            let (s1, a1) = after_response(call_start(req), Err(ErrorView::TokenRequiresRefreshing(expired1)));
            let (s2, a2) = after_refresh(s1, Ok(access));
            let (s3, a3) = after_response(s2, Err(ErrorView::TokenRequiresRefreshing(expired2)));
            &&& a1 == ActionView::Refresh
            &&& a2 == ActionView::Execute
            &&& a3 == ActionView::Finish(Err(ErrorView::InvalidOauthToken(STILL_EXPIRED_TEXT@)))
            &&& s3.phase == CallPhase::Finished
        }),
        forall|s: CallView, o: Result<Seq<char>, ErrorView>|
            s.refreshed ==> after_response(s, o).1 != ActionView::Refresh && (#[trigger] after_response(s, o)).0.refreshed,
        forall|s: CallView, t: Result<Seq<char>, ErrorView>|
            (#[trigger] after_refresh(s, t)).1 != ActionView::Refresh,
{
}

/// The word whose presence in a redirect marks a refused authorisation.
pub open spec fn error_word() -> Seq<char> {
    seq!['e', 'r', 'r', 'o', 'r']
}

/// The code in a redirect query `code=<value>&...`: the text after the first
/// `=` of the first `&`-separated part, up to the next `=`; `None` where that
/// part holds no `=`.
pub open spec fn code_of(s: Seq<char>) -> Option<Seq<char>> {
    let amp = first_index(s, '&', 0, s.len() as int);
    let eq = first_index(s, '=', 0, amp);
    if eq >= amp {
        None
    } else {
        Some(s.subrange(eq + 1, first_index(s, '=', eq + 1, amp)))
    }
}

impl TwitchApi {
    /// Reads the authorisation code out of the redirect query: an error where
    /// the redirect reports one, or holds no code.
    pub fn authorisation_code_from_response(http_response: &str) -> (r: Result<String, EventSubError>)
        ensures
            contains_word(http_response@, error_word()) ==> r is Err && r->Err_0@ == ErrorView::UnhandledError(
                http_response@,
            ),
            !contains_word(http_response@, error_word()) ==> match code_of(http_response@) {
                Some(code) => r is Ok && r->Ok_0@ == code,
                None => r is Err && r->Err_0@ == ErrorView::AuthorisationError(http_response@),
            },
    {
        let cs = chars_of(http_response);
        let mut word: Vec<char> = Vec::new();
        word.push('e');
        word.push('r');
        word.push('r');
        word.push('o');
        word.push('r');
        assert(word@ =~= error_word());
        if has_word(&cs, &word) {
            return Err(EventSubError::UnhandledError(String::from_str(http_response)));
        }
        let amp = find_char(&cs, '&', 0, cs.len());
        let eq = find_char(&cs, '=', 0, amp);
        if eq >= amp {
            return Err(EventSubError::AuthorisationError(String::from_str(http_response)));
        }
        let end = find_char(&cs, '=', eq + 1, amp);
        let code = http_response.substring_char(eq + 1, end);
        Ok(String::from_str(code))
    }
}

/// The token of an exchange answer: `None` where the answer has no refresh token.
pub open spec fn token_of(resp: TokenAnswerView) -> Option<(Seq<char>, Seq<char>, u32)> {
    match resp.refresh_token {
        Some(rt) => Some((resp.access_token, rt, resp.expires_in)),
        None => None,
    }
}

impl NewAccessTokenResponse {
    /// The token that a token exchange answered with.
    pub fn into_token(self, raw_data: &str) -> (r: Result<Token, EventSubError>)
        ensures
            match token_of(self@) {
                Some(t) => r is Ok && (r->Ok_0.access_token@, r->Ok_0.refresh_token@, r->Ok_0.expires_in) == t,
                None => r is Err && r->Err_0@ == ErrorView::AuthorisationError(raw_data@),
            },
    {
        match self.refresh_token {
            Some(rt) => Ok(Token { access_token: self.access_token, refresh_token: rt, expires_in: self.expires_in }),
            None => Err(EventSubError::AuthorisationError(String::from_str(raw_data))),
        }
    }

    /// Reads the token out of the text of a token exchange answer.
    pub fn _get_token_from_data(raw_data: &str) -> (r: Result<Token, EventSubError>)
        ensures
            match token_answer_in(raw_data@) {
                Some(a) => match token_of(a) {
                    Some(t) => r is Ok && (r->Ok_0.access_token@, r->Ok_0.refresh_token@, r->Ok_0.expires_in) == t,
                    None => r is Err && r->Err_0@ == ErrorView::AuthorisationError(raw_data@),
                },
                None => r is Err && r->Err_0@ == ErrorView::AuthorisationError(raw_data@),
            },
    {
        match NewAccessTokenResponse::from_json(raw_data) {
            Some(resp) => resp.into_token(raw_data),
            None => Err(EventSubError::AuthorisationError(String::from_str(raw_data))),
        }
    }
}

} // verus!
