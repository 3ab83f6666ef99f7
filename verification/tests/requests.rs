use slaq::api::chat::delete::Delete;
use slaq::api::chat::delete_scheduled_message::DeleteScheduledMessage;
use slaq::api::chat::me_message::MeMessage;
use slaq::api::chat::post_message::PostMessage;
use slaq::api::chat::schedule_message::ScheduleMessage;
use slaq::api::chat::scheduled_messages_list::ScheduledMessagesList;
use slaq::api::chat::unfurl::Unfurl;
use slaq::api::chat::update::Update;
use slaq::blocks;
use slaq::encode::ToJson;
use slaq::json::Json;
use slaq::client::{encoded, RequestError, triage, Encoding, HttpMethod, SlackMethod, SlackRequest, Triage};

#[test]
fn build_delete_minimal() {
    let channel = "C123".to_string();
    let ts = "1727612345.000200".to_string();

    let payload = Delete::new(&channel, &ts);
    let req = payload.build_request();

    assert_eq!(req.path, "/chat.delete");
    assert!(matches!(req.method, HttpMethod::Post));
    assert!(matches!(req.encoding, Encoding::Json));

    // Body JSON should only contain the required fields by default
    let body = req.to_json().expect("json");
    assert!(body.contains("\"channel\""));
    assert!(body.contains(&format!("\"{channel}\"")));
    assert!(body.contains("\"ts\""));
    assert!(body.contains(&format!("\"{ts}\"")));
    assert!(!body.contains("as_user"));
}

#[test]
fn from_method_into_request_delete() {
    let method = Delete::new("C999", "1727612345.000300").as_user(true);
    let req: SlackRequest<Delete> = method.into();
    assert_eq!(req.path, "/chat.delete");
    let json = req.to_json().expect("json");
    assert!(json.contains("\"as_user\":true"));
}

#[test]
fn build_delete_scheduled_message_minimal() {
    let channel = "C123".to_string();
    let scheduled_message_id = "Q1234ABCD".to_string();

    let payload = DeleteScheduledMessage::new(&channel, &scheduled_message_id);
    let req = payload.build_request();

    assert_eq!(req.path, "/chat.deleteScheduledMessage");
    assert!(matches!(req.method, HttpMethod::Post));
    assert!(matches!(req.encoding, Encoding::Json));

    // Body JSON should only contain required fields by default
    let body = req.to_json().expect("json");
    assert!(body.contains("\"channel\""));
    assert!(body.contains(&format!("\"{channel}\"")));
    assert!(body.contains("\"scheduled_message_id\""));
    assert!(body.contains(&format!("\"{scheduled_message_id}\"")));
    assert!(!body.contains("as_user"));
}

#[test]
fn from_method_into_request_delete_scheduled_message() {
    let method = DeleteScheduledMessage::new("C999", "Q0000AAAA").as_user(true);
    let req: SlackRequest<DeleteScheduledMessage> = method.into();
    assert_eq!(req.path, "/chat.deleteScheduledMessage");
    let json = req.to_json().expect("json");
    assert!(json.contains("\"as_user\":true"));
}

#[test]
fn build_me_message_minimal() {
    let channel = "C123".to_string();
    let text = "waves".to_string();

    let payload = MeMessage::new(&channel, &text);
    let req = payload.build_request();

    assert_eq!(req.path, "/chat.meMessage");
    assert!(matches!(req.method, HttpMethod::Post));
    assert!(matches!(req.encoding, Encoding::Json));

    let body = req.to_json().expect("json");
    assert!(body.contains("\"channel\""));
    assert!(body.contains(&format!("\"{channel}\"")));
    assert!(body.contains("\"text\""));
    assert!(body.contains(&format!("\"{text}\"")));
}

#[test]
fn from_method_into_request_me_message() {
    let method = MeMessage::new("C999", "does a thing");
    let req: SlackRequest<MeMessage> = method.into();
    assert_eq!(req.path, "/chat.meMessage");
}

#[test]
fn build_post_message_minimal() {
    let channel = "C123".to_string();
    let payload = PostMessage::new(&channel);
    let req = payload.build_request();

    assert_eq!(req.path, "/chat.postMessage");
    assert!(matches!(req.method, HttpMethod::Post));
    assert!(matches!(req.encoding, Encoding::Json));

    // Body JSON should only contain the required field
    let body = req.to_json().expect("json");
    assert!(body.contains("\"channel\""));
    assert!(body.contains(&format!("\"{channel}\"")));
    // No optional fields by default
    assert!(!body.contains("text"));
}

#[test]
fn build_post_message_with_options() {
    let channel = "C456".to_string();
    let payload = PostMessage::new(&channel)
        .text("hello")
        .username("bot")
        .mrkdwn(true)
        .blocks(vec![
            blocks::Divider::new().build().expect("divider"),
            blocks::Markdown::new("notes").build().expect("markdown"),
        ]);
    let req = payload.build_request();

    let json = req.to_json().expect("json");
    assert!(json.contains("\"text\":"));
    assert!(json.contains("hello"));
    assert!(json.contains("\"username\":"));
    assert!(json.contains("bot"));
    assert!(json.contains("\"mrkdwn\":true"));
}

#[test]
fn from_method_into_request() {
    let method = PostMessage::new("C789").text("hi");
    let req: SlackRequest<PostMessage> = method.into();
    assert_eq!(req.path, "/chat.postMessage");
    let json = req.to_json().expect("json");
    assert!(json.contains("\"text\":\"hi\""));
}

#[test]
fn build_schedule_message_minimal() {
    let channel = "C123".to_string();
    let post_at: i64 = 299876400;

    let payload = ScheduleMessage::new(&channel, post_at);
    let req = payload.build_request();

    assert_eq!(req.path, "/chat.scheduleMessage");
    assert!(matches!(req.method, HttpMethod::Post));
    assert!(matches!(req.encoding, Encoding::Json));

    let body = req.to_json().expect("json");
    assert!(body.contains("\"channel\""));
    assert!(body.contains(&format!("\"{channel}\"")));
    assert!(body.contains("\"post_at\""));
    assert!(body.contains(&format!("{post_at}")));
}

#[test]
fn from_method_into_request_schedule_message() {
    let method = ScheduleMessage::new("C999", 299876401i64).text("hi later");
    let req: SlackRequest<ScheduleMessage> = method.into();
    assert_eq!(req.path, "/chat.scheduleMessage");
    let json = req.to_json().expect("json");
    assert!(json.contains("\"text\":\"hi later\""));
}

#[test]
fn build_scheduled_messages_list_minimal() {
    let payload = ScheduledMessagesList::new();
    let req = payload.build_request();
    assert_eq!(req.path, "/chat.scheduledMessages.list");
    assert!(matches!(req.method, HttpMethod::Post));
    assert!(matches!(req.encoding, Encoding::Json));

    let body = req.to_json().expect("json");
    // No optional fields by default
    assert_eq!(body, "{}");
}

#[test]
fn build_scheduled_messages_list_with_options() {
    let payload = ScheduledMessagesList::new()
        .channel("C123")
        .cursor("abc")
        .limit(50u32)
        .oldest("1562137200")
        .latest("1562138200");
    let req = payload.build_request();
    let json = req.to_json().expect("json");
    assert!(json.contains("\"channel\":\"C123\""));
    assert!(json.contains("\"cursor\":\"abc\""));
    assert!(json.contains("\"limit\":50"));
    assert!(json.contains("\"oldest\":\"1562137200\""));
    assert!(json.contains("\"latest\":\"1562138200\""));
}

#[test]
fn from_method_into_request_scheduled_messages_list() {
    let method = ScheduledMessagesList::new().limit(10u32);
    let req: SlackRequest<ScheduledMessagesList> = method.into();
    assert_eq!(req.path, "/chat.scheduledMessages.list");
}

#[test]
fn build_unfurl_minimal() {
    let channel = "C123".to_string();
    let ts = "1727612345.000200".to_string();
    let unfurls = "{\"https://example.com\":{\"blocks\":[...]}}".to_string();

    let payload = Unfurl::new(&channel, &ts, &unfurls);
    let req = payload.build_request();

    assert_eq!(req.path, "/chat.unfurl");
    assert!(matches!(req.method, HttpMethod::Post));
    assert!(matches!(req.encoding, Encoding::Json));

    let body = req.to_json().expect("json");
    assert!(body.contains("\"channel\""));
    assert!(body.contains(&format!("\"{channel}\"")));
    assert!(body.contains("\"ts\""));
    assert!(body.contains(&format!("\"{ts}\"")));
    assert!(body.contains("\"unfurls\""));
}

#[test]
fn from_method_into_request_unfurl() {
    let method = Unfurl::new("C999", "1727612345.000300", "{}").user_auth_required(true);
    let req: SlackRequest<Unfurl> = method.into();
    assert_eq!(req.path, "/chat.unfurl");
    let json = req.to_json().expect("json");
    assert!(json.contains("\"user_auth_required\":true"));
}

#[test]
fn build_update_minimal() {
    let channel = "C123".to_string();
    let ts = "1405894322.002768".to_string();

    let payload = Update::new(&channel, &ts);
    let req = payload.build_request();
    assert_eq!(req.path, "/chat.update");
    assert!(matches!(req.method, HttpMethod::Post));
    assert!(matches!(req.encoding, Encoding::Json));

    let body = req.to_json().expect("json");
    assert!(body.contains("\"channel\""));
    assert!(body.contains(&format!("\"{channel}\"")));
    assert!(body.contains("\"ts\""));
    assert!(body.contains(&format!("\"{ts}\"")));
}

#[test]
fn build_update_with_options() {
    let payload = Update::new("C999", "1405894322.002769")
        .text("updated")
        .link_names(true)
        .blocks(vec![
            blocks::Divider::new().build().expect("divider"),
            blocks::Markdown::new("updated notes")
                .build()
                .expect("markdown"),
        ]);
    let req = payload.build_request();
    let json = req.to_json().expect("json");
    assert!(json.contains("\"text\":\"updated\""));
    assert!(json.contains("\"link_names\":true"));
}

#[test]
fn from_method_into_request_update() {
    let method = Update::new("C999", "1405894322.002770").text("hi");
    let req: SlackRequest<Update> = method.into();
    assert_eq!(req.path, "/chat.update");
    let json = req.to_json().expect("json");
    assert!(json.contains("\"text\":\"hi\""));
}

#[test]
fn request_has_json_content_type_and_body() {
    let req: SlackRequest<ScheduledMessagesList> = ScheduledMessagesList::new().limit(1).into();
    assert_eq!(req.content_type(), "application/json");
    let json = req.to_json().expect("json");
    assert_eq!(json, "{\"limit\":1}");
    assert_eq!(ScheduledMessagesList::path(), "/chat.scheduledMessages.list");
}

#[test]
fn answers_are_triaged_by_status() {
    assert_eq!(
        triage(429, Some(30)),
        Triage::RateLimited {
            retry_after_secs: 30
        }
    );
    assert_eq!(
        triage(429, None),
        Triage::RateLimited {
            retry_after_secs: 1
        }
    );
    assert_eq!(triage(200, None), Triage::Read);
    assert_eq!(triage(299, Some(5)), Triage::Read);
    assert_eq!(triage(199, None), Triage::Failed);
    assert_eq!(triage(300, None), Triage::Failed);
    assert_eq!(triage(404, Some(5)), Triage::Failed);
    assert_eq!(triage(500, None), Triage::Failed);
}

#[test]
fn build_post_ephemeral_minimal() {
    let channel = "C123".to_string();
    let user = "U123".to_string();
    let req = slaq::api::chat::post_ephemeral::PostEphemeral::new(&channel, &user).build_request();
    assert_eq!(req.path, "/chat.postEphemeral");
    assert!(matches!(req.method, HttpMethod::Post));
    assert!(matches!(req.encoding, Encoding::Json));
}

struct Body {
    a: u8,
}

impl ToJson for Body {
    fn json(&self) -> Json {
        Json::Null
    }

    fn to_value(&self) -> serde_json::Value {
        let mut map = serde_json::Map::new();
        map.insert("a".to_string(), serde_json::Value::from(self.a));
        serde_json::Value::Object(map)
    }
}

impl SlackMethod for Body {
    type Response = ();

    fn path_of() -> &'static str {
        "/x"
    }

    fn path() -> &'static str {
        "/x"
    }

    fn method_of() -> HttpMethod {
        HttpMethod::Post
    }

    fn method() -> HttpMethod {
        HttpMethod::Post
    }

    fn encoding() -> Encoding {
        Encoding::Json
    }
}

#[test]
fn slack_request_json_and_content_type() {
    let req: SlackRequest<Body> = Body { a: 1 }.into();
    assert_eq!(req.content_type(), "application/json");
    let json = req.to_json().expect("json");
    assert_eq!(json, "{\"a\":1}");
}

#[test]
fn encoder_result_is_handed_on() {
    assert_eq!(encoded(Ok("{}".to_string())).expect("text"), "{}");
    let failure = serde_json::from_str::<serde_json::Value>("{").expect_err("no json");
    let line = failure.line();
    match encoded(Err(failure)) {
        Err(RequestError::Encode(e)) => assert_eq!(e.line(), line),
        Ok(text) => panic!("expected the encoder's error, got {text}"),
    }
}

#[test]
fn default_payloads_have_empty_fields() {
    let req = Delete::default().build_request();
    assert_eq!(req.to_json().expect("json"), r#"{"channel":"","ts":""}"#);
    let req = ScheduleMessage::default().build_request();
    assert_eq!(
        req.to_json().expect("json"),
        r#"{"channel":"","post_at":0}"#
    );
}

#[test]
fn payloads_carry_blocks_as_they_are_written() {
    let divider = blocks::Divider::new().build().expect("divider");
    let req = PostMessage::new("C1")
        .blocks(vec![divider])
        .thread_ts("1.2")
        .unfurl_links(false)
        .build_request();
    assert_eq!(
        req.to_json().expect("json"),
        r#"{"channel":"C1","blocks":[{"type":"divider"}],"thread_ts":"1.2","unfurl_links":false}"#
    );
}

#[test]
fn every_payload_is_written() {
    let odd = "quote \" backslash \\ newline \n nul \u{0} tab \t emoji \u{1F600} \u{7f}";
    let req = MeMessage::new(odd, "").build_request();
    let text = req.to_json().expect("json");
    let read: serde_json::Value = serde_json::from_str(&text).expect("valid json");
    assert_eq!(read["channel"], serde_json::Value::String(odd.to_string()));
    assert_eq!(read["text"], serde_json::Value::String(String::new()));
    let req = ScheduleMessage::new("C", i64::MIN)
        .text(odd)
        .build_request();
    let text = req.to_json().expect("json");
    let read: serde_json::Value = serde_json::from_str(&text).expect("valid json");
    assert_eq!(read["post_at"], serde_json::Value::from(i64::MIN));
    assert_eq!(read["text"], serde_json::Value::String(odd.to_string()));
}
