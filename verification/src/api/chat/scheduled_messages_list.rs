//! The method `chat.scheduledMessages.list`.

use vstd::prelude::*;
use vstd::string::StringExecFns;
use crate::client::{Encoding, HttpMethod, SlackMethod, SlackRequest};
use crate::encode::{ToJson, put_opt, with_opt};
use crate::json::{Json, json_object, map_new, no_members};

verus! {

/// Lists the messages that are waiting to be sent.
#[derive(Debug, Clone)]
pub struct ScheduledMessagesList {
    /// The channel whose waiting messages are listed.
    pub channel: Option<String>,
    /// Where the list goes on, as a former answer told.
    pub cursor: Option<String>,
    /// The latest time that is listed.
    pub latest: Option<String>,
    /// Most entries that are listed.
    pub limit: Option<u32>,
    /// The earliest time that is listed.
    pub oldest: Option<String>,
    /// The team whose channels are listed.
    pub team_id: Option<String>,
}

impl ScheduledMessagesList {
    /// A payload of `chat.scheduledMessages.list` with every field unset.
    pub fn new() -> (r: Self)
        ensures
            r.channel is None,
            r.cursor is None,
            r.latest is None,
            r.limit is None,
            r.oldest is None,
            r.team_id is None,
    {
        ScheduledMessagesList {
            channel: None,
            cursor: None,
            latest: None,
            limit: None,
            oldest: None,
            team_id: None,
        }
    }

    /// Sets `channel`: the channel whose waiting messages are listed.
    pub fn channel(self, channel: &str) -> (r: Self)
        ensures
            r.channel matches Some(s) && s@ == channel@,
            r == (ScheduledMessagesList { channel: r.channel, ..self }),
    {
        ScheduledMessagesList { channel: Some(String::from_str(channel)), ..self }
    }

    /// Sets `cursor`: where the list goes on, as a former answer told.
    pub fn cursor(self, cursor: &str) -> (r: Self)
        ensures
            r.cursor matches Some(s) && s@ == cursor@,
            r == (ScheduledMessagesList { cursor: r.cursor, ..self }),
    {
        ScheduledMessagesList { cursor: Some(String::from_str(cursor)), ..self }
    }

    /// Sets `latest`: the latest time that is listed.
    pub fn latest(self, latest: &str) -> (r: Self)
        ensures
            r.latest matches Some(s) && s@ == latest@,
            r == (ScheduledMessagesList { latest: r.latest, ..self }),
    {
        ScheduledMessagesList { latest: Some(String::from_str(latest)), ..self }
    }

    /// Sets `limit`: most entries that are listed.
    pub fn limit(self, limit: u32) -> (r: Self)
        ensures
            r == (ScheduledMessagesList { limit: Some(limit), ..self }),
    {
        ScheduledMessagesList { limit: Some(limit), ..self }
    }

    /// Sets `oldest`: the earliest time that is listed.
    pub fn oldest(self, oldest: &str) -> (r: Self)
        ensures
            r.oldest matches Some(s) && s@ == oldest@,
            r == (ScheduledMessagesList { oldest: r.oldest, ..self }),
    {
        ScheduledMessagesList { oldest: Some(String::from_str(oldest)), ..self }
    }

    /// Sets `team_id`: the team whose channels are listed.
    pub fn team_id(self, team_id: &str) -> (r: Self)
        ensures
            r.team_id matches Some(s) && s@ == team_id@,
            r == (ScheduledMessagesList { team_id: r.team_id, ..self }),
    {
        ScheduledMessagesList { team_id: Some(String::from_str(team_id)), ..self }
    }

    /// The request that sends this payload.
    pub fn build_request(self) -> (r: SlackRequest<Self>)
        ensures
            r.well_formed(),
            r.body == self,
    {
        SlackRequest::new(self)
    }
}

impl Default for ScheduledMessagesList {
    fn default() -> (r: Self)
        ensures
            r.channel is None,
            r.cursor is None,
            r.latest is None,
            r.limit is None,
            r.oldest is None,
            r.team_id is None,
    {
        ScheduledMessagesList {
            channel: None,
            cursor: None,
            latest: None,
            limit: None,
            oldest: None,
            team_id: None,
        }
    }
}

impl ToJson for ScheduledMessagesList {
    open spec fn json(&self) -> Json {
        let m = with_opt(no_members(), "channel"@, self.channel);
        let m = with_opt(m, "cursor"@, self.cursor);
        let m = with_opt(m, "latest"@, self.latest);
        let m = with_opt(m, "limit"@, self.limit);
        let m = with_opt(m, "oldest"@, self.oldest);
        let m = with_opt(m, "team_id"@, self.team_id);
        Json::Object(m)
    }

    fn to_value(&self) -> (v: serde_json::Value) {
        let mut m = map_new();
        put_opt(&mut m, "channel", &self.channel);
        put_opt(&mut m, "cursor", &self.cursor);
        put_opt(&mut m, "latest", &self.latest);
        put_opt(&mut m, "limit", &self.limit);
        put_opt(&mut m, "oldest", &self.oldest);
        put_opt(&mut m, "team_id", &self.team_id);
        json_object(m)
    }
}

impl SlackMethod for ScheduledMessagesList {
    type Response = ScheduledMessagesListResponse;

    open spec fn path_of() -> &'static str {
        "/chat.scheduledMessages.list"
    }

    fn path() -> (p: &'static str) {
        "/chat.scheduledMessages.list"
    }

    open spec fn method_of() -> HttpMethod {
        HttpMethod::Post
    }

    fn method() -> (m: HttpMethod) {
        HttpMethod::Post
    }

    fn encoding() -> (e: Encoding) {
        Encoding::Json
    }
}

/// The answer to `chat.scheduledMessages.list`.
#[derive(Debug, Clone)]
pub struct ScheduledMessagesListResponse {
    /// The waiting messages.
    pub scheduled_messages: Vec<ScheduledMessage>,
    /// What the platform adds, such as where the list goes on.
    pub response_metadata: Option<serde_json::Value>,
}

/// A message that is waiting to be sent.
#[derive(Debug, Clone)]
pub struct ScheduledMessage {
    /// The identifier of the waiting message.
    pub id: i64,
    /// The channel that the message goes to.
    pub channel_id: String,
    /// When the message is sent, in seconds since the epoch.
    pub post_at: i64,
    /// When the message was scheduled, in seconds since the epoch.
    pub date_created: i64,
    /// The text of the message.
    pub text: String,
}

} // verus!
