use twitch_eventsub::catalog::{catalog_kinds, Condition, EventSubscription, Subscription, Transport, TwitchKeys};
use twitch_eventsub::decode::{classify, EventKind, GenericMessage};
use twitch_eventsub::http::{
    classify_failure, AuthType, AuthenticatedCall, CallAction, CallPhase, EventSubError, Header, RequestBuilder,
    RequestType, Token, TwitchApi, TwitchHttpRequest,
};
use twitch_eventsub::messages::{EventMessageType, Fragments, Message, NewAccessTokenResponse, Validation};
use twitch_eventsub::text::decimal;

fn keys() -> TwitchKeys {
    TwitchKeys {
        client_id: "cid".to_string(),
        client_secret: "secret".to_string(),
        broadcaster_account_id: "1234".to_string(),
    }
}

fn fragment(kind: &str, text: &str) -> Fragments {
    Fragments { kind: kind.to_string(), text: text.to_string(), cheermote: None, emote: None, mention: None }
}

fn auth_tokens(r: &TwitchHttpRequest) -> Vec<String> {
    r.headers()
        .iter()
        .filter_map(|h| match h {
            Header::Auth(_, t) => Some(t.clone()),
            _ => None,
        })
        .collect()
}

#[test]
fn scopes_and_versions_of_catalog() {
    for k in catalog_kinds() {
        let scope_free = matches!(k, Subscription::UserUpdate | Subscription::ChannelRaid | Subscription::ChannelUpdate);
        assert_eq!(k.required_scope().is_empty(), scope_free, "{:?}", k);
        if !matches!(k, Subscription::BanTimeoutUser | Subscription::DeleteMessage) {
            let v = k.version();
            assert!(!v.is_empty() && v.chars().all(|c| c.is_ascii_digit()), "{:?}", k);
        }
    }
    assert_eq!(Subscription::ChatMessage.required_scope(), "user:read:chat+user:write:chat");
    assert_eq!(Subscription::ChannelFollow.version(), "2");
    assert_eq!(Subscription::ChannelRaid.tag(), "channel.raid");
}

#[test]
fn lookup_by_tag() {
    assert!(matches!(Subscription::from_string("channel.raid"), Some(Subscription::ChannelRaid)));
    assert!(matches!(Subscription::from_string("channel.chat.message"), Some(Subscription::ChatMessage)));
    assert!(Subscription::from_string("channel.nonsense").is_none());
    assert!(Subscription::from_string("").is_none());
}

#[test]
fn custom_kind_keeps_its_triple() {
    let body = EventSubscription::new(&Subscription::ChannelCheer, Transport::new("old"));
    let c = Subscription::Custom("x.custom".to_string(), "some:scope".to_string(), body);
    assert_eq!(c.tag(), "x.custom");
    assert_eq!(c.required_scope(), "some:scope");
    assert_eq!(c.version(), "");
    let data = c.construct_data("sess", &keys());
    assert_eq!(data.kind, "channel.cheer");
    assert_eq!(data.transport.session_id, "sess");
}

#[test]
fn conditions_hold_only_declared_fields() {
    let chat = Subscription::ChatMessage.construct_data("s1", &keys());
    assert_eq!(chat.kind, "channel.chat.message");
    assert_eq!(chat.version, "1");
    assert_eq!(chat.transport.method, "websocket");
    assert_eq!(chat.transport.session_id, "s1");
    assert_eq!(chat.condition.user_id.as_deref(), Some("1234"));
    assert_eq!(chat.condition.broadcaster_user_id.as_deref(), Some("1234"));
    assert!(chat.condition.moderator_user_id.is_none());
    assert!(chat.condition.reward_id.is_none());
    let user = Subscription::UserUpdate.construct_data("s1", &keys());
    assert_eq!(user.condition.user_id.as_deref(), Some("1234"));
    assert!(user.condition.broadcaster_user_id.is_none());
    let follow = Subscription::ChannelFollow.construct_data("s1", &keys());
    assert_eq!(follow.condition.moderator_user_id.as_deref(), Some("1234"));
    let poll = Subscription::ChannelPollBegin.construct_data("s1", &keys());
    assert!(poll.condition.broadcaster_user_id.is_none());
    assert!(poll.condition.user_id.is_none());
}

#[test]
fn subscription_json_round_trip() {
    let sub = Subscription::ChannelFollow.construct_data("sess\"1", &keys());
    let text = sub.to_json();
    assert!(!text.contains("reward_id"));
    assert!(text.contains("\"session_id\":\"sess\\\"1\""));
    let back = EventSubscription::from_json(&text).expect("decodes");
    assert_eq!(back.kind, sub.kind);
    assert_eq!(back.version, sub.version);
    assert_eq!(back.transport.method, sub.transport.method);
    assert_eq!(back.transport.session_id, sub.transport.session_id);
    assert_eq!(back.condition.user_id, sub.condition.user_id);
    assert_eq!(back.condition.moderator_user_id, sub.condition.moderator_user_id);
    assert_eq!(back.condition.broadcaster_user_id, sub.condition.broadcaster_user_id);
    assert_eq!(back.condition.reward_id, None);
    assert_eq!(back.condition.extension_client_id, None);
}

#[test]
fn condition_json_omits_absent_fields() {
    assert_eq!(Condition::new().to_json(), "{}");
    let c = Condition::new().broadcaster_user_id("7".to_string()).reward_id("r".to_string());
    assert_eq!(c.to_json(), "{\"broadcaster_user_id\":\"7\",\"reward_id\":\"r\"}");
}

fn expired(req: &TwitchHttpRequest) -> Result<String, EventSubError> {
    Err(req.failure("{\"status\":401,\"message\":\"invalid\"}"))
}

#[test]
fn refresh_once_then_success() {
    let req = TwitchHttpRequest::new("https://x/y").json_content().full_auth("old".to_string(), "cid".to_string());
    let mut call = AuthenticatedCall::new(req);
    let mut executions = 0;
    let mut refreshes = 0;
    let mut seen_tokens = Vec::new();
    let result = loop {
        let action = if call.phase() == CallPhase::Executing {
            executions += 1;
            seen_tokens.push(auth_tokens(call.request()));
            let outcome = if executions == 1 { expired(call.request()) } else { Ok("done".to_string()) };
            call.on_response(outcome)
        } else {
            refreshes += 1;
            call.on_refresh(Ok(Token { access_token: "new".to_string(), refresh_token: "r".to_string(), expires_in: 10 }))
        };
        if let CallAction::Finish(r) = action {
            break r;
        }
    };
    assert_eq!(result.unwrap(), "done");
    assert_eq!(executions, 2);
    assert_eq!(refreshes, 1);
    assert_eq!(seen_tokens, vec![vec!["old".to_string()], vec!["new".to_string()]]);
    assert_eq!(call.request().headers().len(), 3);
    assert!(matches!(call.request().headers()[0], Header::ContentJson));
    assert!(matches!(&call.request().headers()[2], Header::ClientId(c) if c == "cid"));
}

#[test]
fn persistent_401_stops_after_one_refresh() {
    let req = TwitchHttpRequest::new("https://x/y").full_auth("old".to_string(), "cid".to_string());
    let mut call = AuthenticatedCall::new(req);
    let mut executions = 0;
    let mut refreshes = 0;
    let result = loop {
        assert!(executions <= 2);
        let action = if call.phase() == CallPhase::Executing {
            executions += 1;
            call.on_response(expired(call.request()))
        } else {
            refreshes += 1;
            call.on_refresh(Ok(Token { access_token: "new".to_string(), refresh_token: "r".to_string(), expires_in: 10 }))
        };
        if let CallAction::Finish(r) = action {
            break r;
        }
    };
    assert!(matches!(result, Err(EventSubError::InvalidOauthToken(_))));
    assert_eq!(executions, 2);
    assert_eq!(refreshes, 1);
}

#[test]
fn failed_refresh_ends_call() {
    let req = TwitchHttpRequest::new("https://x/y").full_auth("old".to_string(), "cid".to_string());
    let mut call = AuthenticatedCall::new(req);
    assert!(matches!(call.on_response(expired(call.request())), CallAction::Refresh));
    let a = call.on_refresh(Err(EventSubError::AuthorisationError("bad".to_string())));
    assert!(matches!(a, CallAction::Finish(Err(EventSubError::InvalidOauthToken(_)))));
}

#[test]
fn message_length_guard() {
    let long = "a".repeat(501);
    let ok = "a".repeat(500);
    let r = TwitchApi::send_chat_message_request(&long, "t".to_string(), "c".to_string(), "b", None, None);
    assert!(matches!(r, Err(EventSubError::MessageTooLong)));
    let r = TwitchApi::send_chat_message_request(&ok, "t".to_string(), "c".to_string(), "b", None, None);
    assert!(r.is_ok());
}

#[test]
fn chat_message_body_and_headers() {
    let r = TwitchApi::send_chat_message_request("hi \"you\"", "tok".to_string(), "cid".to_string(), "b1", None, Some("p".to_string()))
        .unwrap();
    assert_eq!(r.url(), "https://api.twitch.tv/helix/chat/messages");
    let lines: Vec<String> = r.headers().iter().map(|h| h.generate()).collect();
    assert_eq!(lines, vec!["Content-Type: application/json", "Authorization: Bearer tok", "Client-Id: cid"]);
    match r.request_type() {
        Some(RequestType::Post(body)) => assert_eq!(
            body,
            "{\"broadcaster_id\":\"b1\",\"sender_id\":\"b1\",\"message\":\"hi \\\"you\\\"\",\"reply_parent_message_id\":\"p\"}"
        ),
        _ => panic!("not a post"),
    }
}

#[test]
fn written_message_skips_mentions() {
    let m = Message {
        text: "@bob hello world".to_string(),
        fragments: vec![fragment("mention", "@bob"), fragment("text", " hello"), fragment("text", "world")],
    };
    assert_eq!(m.get_written_message().as_deref(), Some("hello world"));
    let only = Message { text: "@bob".to_string(), fragments: vec![fragment("mention", "@bob")] };
    assert_eq!(only.get_written_message(), None);
    assert!(fragment("mention", "x").is_mention());
    assert!(fragment("text", "x")._is_text());
}

const RAID: &str = "{\"from_broadcaster_user_id\":\"1\",\"from_broadcaster_user_login\":\"a\",\"from_broadcaster_user_name\":\"A\",\"to_broadcaster_user_id\":\"2\",\"to_broadcaster_user_login\":\"b\",\"to_broadcaster_user_name\":\"B\",\"viewers\":9}";

fn envelope(message_type: &str, subscription_type: Option<&str>, event: &str) -> String {
    let st = match subscription_type {
        Some(t) => format!(",\"subscription_type\":\"{}\",\"subscription_version\":\"1\"", t),
        None => String::new(),
    };
    format!(
        "{{\"metadata\":{{\"message_id\":\"m\",\"message_type\":\"{}\",\"message_timestamp\":\"t\"{}}},\"payload\":{{\"event\":{}}}}}",
        message_type, st, event
    )
}

#[test]
fn raid_body_decodes_to_raid() {
    for hint in [None, Some("channel.raid")] {
        let (phase, m) = classify(&envelope("notification", hint, RAID)).expect("decodes");
        assert_eq!(phase, EventMessageType::Notification);
        let e = m.payload.unwrap().event.unwrap();
        assert_eq!(e.kind(), EventKind::Raid);
    }
    assert!(classify(&envelope("notification", Some("channel.cheer"), RAID)).is_err());
    assert!(classify(&envelope("notification", None, "{\"nothing\":1}")).is_err());
    let wrong_type = RAID.replace("\"viewers\":9", "\"viewers\":\"x\"");
    assert!(classify(&envelope("notification", None, &wrong_type)).is_err());
    assert!(classify(&envelope("notification", Some("channel.raid"), &wrong_type)).is_err());
}

#[test]
fn null_event_is_absent() {
    let m = GenericMessage::from_json(&envelope("session_keepalive", None, "null")).unwrap();
    assert!(m.payload.unwrap().event.is_none());
    assert!(GenericMessage::from_json(&envelope("notification", None, "5")).is_err());
}

#[test]
fn chat_event_text() {
    let body = "{\"broadcaster_user_id\":\"1\",\"chatter_user_id\":\"2\",\"chatter_user_login\":\"c\",\"chatter_user_name\":\"C\",\"message_id\":\"x\",\"color\":\"\",\"badges\":[],\"message_type\":\"text\",\"message\":{\"text\":\"@a hi there\",\"fragments\":[{\"type\":\"mention\",\"text\":\"@a\",\"cheermote\":null,\"emote\":null,\"mention\":{\"user_id\":\"9\",\"user_login\":\"a\",\"user_name\":\"A\"}},{\"type\":\"text\",\"text\":\" hi there\",\"cheermote\":null,\"emote\":null,\"mention\":null}]}}";
    let m = GenericMessage::from_json(&envelope("notification", Some("channel.chat.message"), body)).unwrap();
    let e = m.payload.unwrap().event.unwrap();
    assert_eq!(e.kind(), EventKind::ChatMessage);
    assert_eq!(e.chat_message().unwrap().get_written_message().as_deref(), Some("hi there"));
}

#[test]
fn unknown_message_type_is_unknown_phase() {
    let raw = "{\"metadata\":{\"message_id\":\"m\",\"message_type\":\"session_reconnect\",\"message_timestamp\":\"t\"}}";
    let (phase, _) = classify(raw).expect("no error");
    assert_eq!(phase, EventMessageType::Unknown);
    assert_eq!(EventMessageType::from_string("session_welcome"), EventMessageType::Welcome);
    assert_eq!(EventMessageType::from_string("session_keepalive"), EventMessageType::KeepAlive);
    assert_eq!(EventMessageType::from_string("whatever"), EventMessageType::Unknown);
}

#[test]
fn welcome_envelope_session() {
    let raw = "{\"metadata\":{\"message_id\":\"m\",\"message_type\":\"session_welcome\",\"message_timestamp\":\"t\"},\"payload\":{\"session\":{\"id\":\"abc\",\"status\":\"connected\",\"connected_at\":\"now\",\"keepalive_timeout_seconds\":10,\"reconnect_url\":null,\"recovery_url\":null}}}";
    let m = GenericMessage::from_json(raw).unwrap();
    assert_eq!(m.event_type(), EventMessageType::Welcome);
    let s = m.payload.unwrap().session.unwrap();
    assert_eq!(s.id, "abc");
    assert_eq!(s.keepalive_timeout_seconds, Some(10));
    assert!(GenericMessage::from_json("not json").is_err());
}

#[test]
fn query_string_in_insertion_order() {
    let url = RequestBuilder::new()
        .add_key_value("b", "1".to_string())
        .add_key_value("a", "2".to_string())
        .build("https://h/p");
    assert_eq!(url, "https://h/p?b=1&a=2");
    assert_eq!(RequestBuilder::new().build("https://h/p"), "https://h/p");
    let d = TwitchApi::delete_message("b".to_string(), "m".to_string(), "x".to_string(), "t".to_string(), "c".to_string());
    assert_eq!(d.url(), "https://api.twitch.tv/helix/moderation/chat?broadcaster_id=b&moderator_id=m&message_id=x");
    assert!(matches!(d.request_type(), Some(RequestType::Delete)));
}

#[test]
fn header_lines() {
    assert_eq!(Header::Auth(AuthType::OAuth, "t".to_string()).generate(), "Authorization: OAuth t");
    assert_eq!(Header::ContentUrlEncoded.generate(), "Content-Type: application/x-www-form-urlencoded");
    assert_eq!(AuthType::Bearer.to_string(), "Bearer");
}

#[test]
fn update_token_replaces_only_auth() {
    let mut r = TwitchHttpRequest::new("u").header_client_id("c".to_string()).header_authorisation("a".to_string(), AuthType::OAuth);
    r.update_token("b".to_string());
    assert!(matches!(&r.headers()[0], Header::ClientId(c) if c == "c"));
    assert!(matches!(&r.headers()[1], Header::Auth(AuthType::OAuth, t) if t == "b"));
}

#[test]
fn failure_classification() {
    let req = TwitchHttpRequest::new("u");
    let text = "{\"status\":400,\"message\":\"bad\"}";
    match classify_failure(&req, text, Validation::from_json(text)) {
        EventSubError::CurlFailed(m) => assert_eq!(m, "status: 400, message: bad"),
        e => panic!("{:?}", e),
    }
    assert!(matches!(req.failure("{\"status\":401,\"message\":\"x\"}"), EventSubError::TokenRequiresRefreshing(_)));
    assert!(matches!(req.failure("couldn't connect"), EventSubError::CurlFailed(_)));
    assert!(matches!(req.failure("{\"login\":\"x\"}"), EventSubError::CurlFailed(_)));
}

#[test]
fn validation_fields() {
    let v = Validation::from_json("{\"client_id\":\"c\",\"scopes\":[\"a\",\"b\"],\"expires_in\":50}").unwrap();
    assert!(!v.is_error());
    assert_eq!(v.scopes, Some(vec!["a".to_string(), "b".to_string()]));
    assert_eq!(v.expires_in, Some(50));
    assert!(Validation::from_json("{\"status\":\"x\"}").is_none());
}

#[test]
fn decimal_numerals() {
    assert_eq!(decimal(0), "0");
    assert_eq!(decimal(401), "401");
    assert_eq!(decimal(u32::MAX), "4294967295");
}

#[test]
fn token_exchange() {
    let t = NewAccessTokenResponse::_get_token_from_data(
        "{\"access_token\":\"a\",\"expires_in\":100,\"token_type\":\"bearer\",\"refresh_token\":\"r\",\"scope\":[\"x\"]}",
    )
    .unwrap();
    assert_eq!((t.access_token.as_str(), t.refresh_token.as_str(), t.expires_in), ("a", "r", 100));
    assert!(matches!(
        NewAccessTokenResponse::_get_token_from_data("{\"access_token\":\"a\",\"expires_in\":1,\"token_type\":\"b\"}"),
        Err(EventSubError::AuthorisationError(_))
    ));
    let r = TwitchApi::generate_token_from_refresh_token("c", "s", "r");
    assert!(matches!(r.request_type(), Some(RequestType::Post(d)) if d == "grant_type=refresh_token&refresh_token=r&client_id=c&client_secret=s"));
}

#[test]
fn authorisation_flow_pieces() {
    let kinds = vec![Subscription::UserUpdate, Subscription::ChatMessage, Subscription::ChannelCheer];
    assert_eq!(
        TwitchApi::authorisation_url("cid", "http://localhost", &kinds),
        "https://id.twitch.tv/oauth2/authorize?response_type=code&client_id=cid&redirect_uri=http://localhost&scope=user:read:chat+user:write:chat+bits:read"
    );
    assert_eq!(TwitchApi::authorisation_code_from_response("code=abc&scope=x").unwrap(), "abc");
    assert!(matches!(
        TwitchApi::authorisation_code_from_response("error=access_denied&x=1"),
        Err(EventSubError::UnhandledError(_))
    ));
    assert!(matches!(TwitchApi::authorisation_code_from_response("nothing"), Err(EventSubError::AuthorisationError(_))));
}

#[test]
fn timeout_request_body() {
    let r = TwitchApi::timeout_user_request("t".to_string(), "c".to_string(), "b".to_string(), "m".to_string(), "u", 60, "spam");
    assert_eq!(r.url(), "https://api.twitch.tv/helix/moderation/bans?broadcaster_id=b&moderator_id=m");
    assert!(matches!(r.request_type(), Some(RequestType::Post(d)) if d == "{\"data\":{\"user_id\":\"u\",\"duration\":60,\"reason\":\"spam\"}}"));
}

#[test]
fn control_characters_are_escaped() {
    let r = TwitchApi::send_chat_message_request("a\u{1}b\n\\", "t".to_string(), "c".to_string(), "b", Some("s".to_string()), None)
        .unwrap();
    match r.request_type() {
        Some(RequestType::Post(body)) => assert_eq!(
            body,
            "{\"broadcaster_id\":\"b\",\"sender_id\":\"s\",\"message\":\"a\\u0001b\\n\\\\\",\"reply_parent_message_id\":null}"
        ),
        _ => panic!("not a post"),
    }
}
