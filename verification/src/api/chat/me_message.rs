//! The method `chat.meMessage`.

use vstd::prelude::*;
use vstd::string::StringExecFns;
use crate::client::{Encoding, HttpMethod, SlackMethod, SlackRequest};
use crate::encode::{ToJson, put};
use crate::json::{Json, json_object, map_new, no_members};

verus! {

/// Sends a message that tells what the sender does.
#[derive(Debug, Clone)]
pub struct MeMessage {
    /// The channel, by its identifier.
    pub channel: String,
    /// The text of the message.
    pub text: String,
}

impl MeMessage {
    /// A payload of `chat.meMessage` of the given fields.
    pub fn new(channel: &str, text: &str) -> (r: Self)
        ensures
            r.channel@ == channel@,
            r.text@ == text@,
    {
        MeMessage { channel: String::from_str(channel), text: String::from_str(text) }
    }

    /// The request that sends this payload.
    pub fn build_request(self) -> (r: SlackRequest<Self>)
        ensures
            r.well_formed(),
            r.body == self,
    {
        SlackRequest::new(self)
    }
}

impl Default for MeMessage {
    fn default() -> (r: Self)
        ensures
            r.channel@.len() == 0,
            r.text@.len() == 0,
    {
        MeMessage { channel: String::new(), text: String::new() }
    }
}

impl ToJson for MeMessage {
    open spec fn json(&self) -> Json {
        let m = no_members().insert("channel"@, self.channel.json());
        let m = m.insert("text"@, self.text.json());
        Json::Object(m)
    }

    fn to_value(&self) -> (v: serde_json::Value) {
        let mut m = map_new();
        put(&mut m, "channel", &self.channel);
        put(&mut m, "text", &self.text);
        json_object(m)
    }
}

impl SlackMethod for MeMessage {
    type Response = MeMessageResponse;

    open spec fn path_of() -> &'static str {
        "/chat.meMessage"
    }

    fn path() -> (p: &'static str) {
        "/chat.meMessage"
    }

    open spec fn method_of() -> HttpMethod {
        HttpMethod::Post
    }

    fn method() -> (m: HttpMethod) {
        HttpMethod::Post
    }

    fn encoding() -> (e: Encoding) {
        Encoding::Json
    }
}

/// The answer to `chat.meMessage`.
#[derive(Debug, Clone)]
pub struct MeMessageResponse {
    /// The channel, by its identifier.
    pub channel: String,
    /// The timestamp that identifies the message.
    pub ts: String,
}

} // verus!
