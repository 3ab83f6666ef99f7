//! The method `chat.delete`.

use vstd::prelude::*;
use vstd::string::StringExecFns;
use crate::client::{Encoding, HttpMethod, SlackMethod, SlackRequest};
use crate::encode::{ToJson, put, put_opt, with_opt};
use crate::json::{Json, json_object, map_new, no_members};

verus! {

/// Deletes a message.
#[derive(Debug, Clone)]
pub struct Delete {
    /// The channel, by its identifier.
    pub channel: String,
    /// The timestamp that identifies the message.
    pub ts: String,
    /// Whether the method acts as the user that the token belongs to.
    pub as_user: Option<bool>,
}

impl Delete {
    /// A payload of `chat.delete` with its required fields; every optional
    /// field is unset.
    pub fn new(channel: &str, ts: &str) -> (r: Self)
        ensures
            r.channel@ == channel@,
            r.ts@ == ts@,
            r.as_user is None,
    {
        Delete { channel: String::from_str(channel), ts: String::from_str(ts), as_user: None }
    }

    /// Sets `as_user`: whether the method acts as the user that the token
    /// belongs to.
    pub fn as_user(self, as_user: bool) -> (r: Self)
        ensures
            r == (Delete { as_user: Some(as_user), ..self }),
    {
        Delete { as_user: Some(as_user), ..self }
    }

    /// The request that sends this payload.
    pub fn build_request(self) -> (r: SlackRequest<Self>)
        ensures
            r.well_formed(),
            r.body == self,
    {
        SlackRequest::new(self)
    }
}

impl Default for Delete {
    fn default() -> (r: Self)
        ensures
            r.channel@.len() == 0,
            r.ts@.len() == 0,
            r.as_user is None,
    {
        Delete { channel: String::new(), ts: String::new(), as_user: None }
    }
}

impl ToJson for Delete {
    open spec fn json(&self) -> Json {
        let m = no_members().insert("channel"@, self.channel.json());
        let m = m.insert("ts"@, self.ts.json());
        let m = with_opt(m, "as_user"@, self.as_user);
        Json::Object(m)
    }

    fn to_value(&self) -> (v: serde_json::Value) {
        let mut m = map_new();
        put(&mut m, "channel", &self.channel);
        put(&mut m, "ts", &self.ts);
        put_opt(&mut m, "as_user", &self.as_user);
        json_object(m)
    }
}

impl SlackMethod for Delete {
    type Response = DeleteResponse;

    open spec fn path_of() -> &'static str {
        "/chat.delete"
    }

    fn path() -> (p: &'static str) {
        "/chat.delete"
    }

    open spec fn method_of() -> HttpMethod {
        HttpMethod::Post
    }

    fn method() -> (m: HttpMethod) {
        HttpMethod::Post
    }

    fn encoding() -> (e: Encoding) {
        Encoding::Json
    }
}

/// The answer to `chat.delete`.
#[derive(Debug, Clone)]
pub struct DeleteResponse {
    /// The channel, by its identifier.
    pub channel: String,
    /// The timestamp that identifies the message.
    pub ts: String,
}

} // verus!
