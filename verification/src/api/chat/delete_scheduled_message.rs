//! The method `chat.deleteScheduledMessage`.

use vstd::prelude::*;
use vstd::string::StringExecFns;
use crate::client::{Encoding, HttpMethod, SlackMethod, SlackRequest};
use crate::encode::{ToJson, put, put_opt, with_opt};
use crate::json::{Json, json_object, map_new, no_members};

verus! {

/// Deletes a message that is waiting to be sent.
#[derive(Debug, Clone)]
pub struct DeleteScheduledMessage {
    /// The channel, by its identifier.
    pub channel: String,
    /// The identifier of the waiting message.
    pub scheduled_message_id: String,
    /// Whether the method acts as the user that the token belongs to.
    pub as_user: Option<bool>,
}

impl DeleteScheduledMessage {
    /// A payload of `chat.deleteScheduledMessage` with its required fields;
    /// every optional field is unset.
    pub fn new(channel: &str, scheduled_message_id: &str) -> (r: Self)
        ensures
            r.channel@ == channel@,
            r.scheduled_message_id@ == scheduled_message_id@,
            r.as_user is None,
    {
        DeleteScheduledMessage {
            channel: String::from_str(channel),
            scheduled_message_id: String::from_str(scheduled_message_id),
            as_user: None,
        }
    }

    /// Sets `as_user`: whether the method acts as the user that the token
    /// belongs to.
    pub fn as_user(self, as_user: bool) -> (r: Self)
        ensures
            r == (DeleteScheduledMessage { as_user: Some(as_user), ..self }),
    {
        DeleteScheduledMessage { as_user: Some(as_user), ..self }
    }

    /// The request that sends this payload.
    pub fn build_request(self) -> (r: SlackRequest<Self>)
        ensures
            r.well_formed(),
            r.body == self,
    {
        SlackRequest::new(self)
    }
}

impl Default for DeleteScheduledMessage {
    fn default() -> (r: Self)
        ensures
            r.channel@.len() == 0,
            r.scheduled_message_id@.len() == 0,
            r.as_user is None,
    {
        DeleteScheduledMessage {
            channel: String::new(),
            scheduled_message_id: String::new(),
            as_user: None,
        }
    }
}

impl ToJson for DeleteScheduledMessage {
    open spec fn json(&self) -> Json {
        let m = no_members().insert("channel"@, self.channel.json());
        let m = m.insert("scheduled_message_id"@, self.scheduled_message_id.json());
        let m = with_opt(m, "as_user"@, self.as_user);
        Json::Object(m)
    }

    fn to_value(&self) -> (v: serde_json::Value) {
        let mut m = map_new();
        put(&mut m, "channel", &self.channel);
        put(&mut m, "scheduled_message_id", &self.scheduled_message_id);
        put_opt(&mut m, "as_user", &self.as_user);
        json_object(m)
    }
}

impl SlackMethod for DeleteScheduledMessage {
    type Response = DeleteScheduledMessageResponse;

    open spec fn path_of() -> &'static str {
        "/chat.deleteScheduledMessage"
    }

    fn path() -> (p: &'static str) {
        "/chat.deleteScheduledMessage"
    }

    open spec fn method_of() -> HttpMethod {
        HttpMethod::Post
    }

    fn method() -> (m: HttpMethod) {
        HttpMethod::Post
    }

    fn encoding() -> (e: Encoding) {
        Encoding::Json
    }
}

/// The answer to `chat.deleteScheduledMessage`.
#[derive(Debug, Clone)]
pub struct DeleteScheduledMessageResponse {}

} // verus!
