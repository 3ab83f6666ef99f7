//! The method `chat.scheduleMessage`.

use vstd::prelude::*;
use vstd::string::StringExecFns;
use crate::blocks::Block;
use crate::client::{Encoding, HttpMethod, SlackMethod, SlackRequest};
use crate::encode::{ToJson, put, put_opt, with_opt};
use crate::json::{Json, json_object, map_new, no_members};

verus! {

/// Sends a message at a later time.
#[derive(Debug, Clone)]
pub struct ScheduleMessage {
    /// The channel, by its identifier.
    pub channel: String,
    /// When the message is sent, in seconds since the epoch.
    pub post_at: i64,
    /// The blocks of the message.
    pub blocks: Option<Vec<Block>>,
    /// Whether names in the text are turned into links.
    pub link_names: Option<bool>,
    /// The message in markdown.
    pub markdown_text: Option<String>,
    /// Whether the method acts as the user that the token belongs to.
    pub as_user: Option<bool>,
    /// How the text is parsed.
    pub parse: Option<String>,
    /// Whether a reply in a thread is shown in the channel too.
    pub reply_broadcast: Option<bool>,
    /// The text of the message.
    pub text: Option<String>,
    /// The timestamp of the message to reply to.
    pub thread_ts: Option<String>,
    /// Whether links to text are unfurled.
    pub unfurl_links: Option<bool>,
    /// Whether links to media are unfurled.
    pub unfurl_media: Option<bool>,
}

impl ScheduleMessage {
    /// A payload of `chat.scheduleMessage` with its required fields; every
    /// optional field is unset.
    pub fn new(channel: &str, post_at: i64) -> (r: Self)
        ensures
            r.channel@ == channel@,
            r.post_at == post_at,
            r.blocks is None,
            r.link_names is None,
            r.markdown_text is None,
            r.as_user is None,
            r.parse is None,
            r.reply_broadcast is None,
            r.text is None,
            r.thread_ts is None,
            r.unfurl_links is None,
            r.unfurl_media is None,
    {
        ScheduleMessage {
            channel: String::from_str(channel),
            post_at,
            blocks: None,
            link_names: None,
            markdown_text: None,
            as_user: None,
            parse: None,
            reply_broadcast: None,
            text: None,
            thread_ts: None,
            unfurl_links: None,
            unfurl_media: None,
        }
    }

    /// Sets `blocks`: the blocks of the message.
    pub fn blocks(self, blocks: Vec<Block>) -> (r: Self)
        ensures
            r == (ScheduleMessage { blocks: Some(blocks), ..self }),
    {
        ScheduleMessage { blocks: Some(blocks), ..self }
    }

    /// Sets `link_names`: whether names in the text are turned into links.
    pub fn link_names(self, link_names: bool) -> (r: Self)
        ensures
            r == (ScheduleMessage { link_names: Some(link_names), ..self }),
    {
        ScheduleMessage { link_names: Some(link_names), ..self }
    }

    /// Sets `markdown_text`: the message in markdown.
    pub fn markdown_text(self, markdown_text: &str) -> (r: Self)
        ensures
            r.markdown_text matches Some(s) && s@ == markdown_text@,
            r == (ScheduleMessage { markdown_text: r.markdown_text, ..self }),
    {
        ScheduleMessage { markdown_text: Some(String::from_str(markdown_text)), ..self }
    }

    /// Sets `as_user`: whether the method acts as the user that the token
    /// belongs to.
    pub fn as_user(self, as_user: bool) -> (r: Self)
        ensures
            r == (ScheduleMessage { as_user: Some(as_user), ..self }),
    {
        ScheduleMessage { as_user: Some(as_user), ..self }
    }

    /// Sets `parse`: how the text is parsed.
    pub fn parse(self, parse: &str) -> (r: Self)
        ensures
            r.parse matches Some(s) && s@ == parse@,
            r == (ScheduleMessage { parse: r.parse, ..self }),
    {
        ScheduleMessage { parse: Some(String::from_str(parse)), ..self }
    }

    /// Sets `reply_broadcast`: whether a reply in a thread is shown in the
    /// channel too.
    pub fn reply_broadcast(self, reply_broadcast: bool) -> (r: Self)
        ensures
            r == (ScheduleMessage { reply_broadcast: Some(reply_broadcast), ..self }),
    {
        ScheduleMessage { reply_broadcast: Some(reply_broadcast), ..self }
    }

    /// Sets `text`: the text of the message.
    pub fn text(self, text: &str) -> (r: Self)
        ensures
            r.text matches Some(s) && s@ == text@,
            r == (ScheduleMessage { text: r.text, ..self }),
    {
        ScheduleMessage { text: Some(String::from_str(text)), ..self }
    }

    /// Sets `thread_ts`: the timestamp of the message to reply to.
    pub fn thread_ts(self, thread_ts: &str) -> (r: Self)
        ensures
            r.thread_ts matches Some(s) && s@ == thread_ts@,
            r == (ScheduleMessage { thread_ts: r.thread_ts, ..self }),
    {
        ScheduleMessage { thread_ts: Some(String::from_str(thread_ts)), ..self }
    }

    /// Sets `unfurl_links`: whether links to text are unfurled.
    pub fn unfurl_links(self, unfurl_links: bool) -> (r: Self)
        ensures
            r == (ScheduleMessage { unfurl_links: Some(unfurl_links), ..self }),
    {
        ScheduleMessage { unfurl_links: Some(unfurl_links), ..self }
    }

    /// Sets `unfurl_media`: whether links to media are unfurled.
    pub fn unfurl_media(self, unfurl_media: bool) -> (r: Self)
        ensures
            r == (ScheduleMessage { unfurl_media: Some(unfurl_media), ..self }),
    {
        ScheduleMessage { unfurl_media: Some(unfurl_media), ..self }
    }

    /// The request that sends this payload.
    pub fn build_request(self) -> (r: SlackRequest<Self>)
        ensures
            r.well_formed(),
            r.body == self,
    {
        SlackRequest::new(self)
    }
}

impl Default for ScheduleMessage {
    fn default() -> (r: Self)
        ensures
            r.channel@.len() == 0,
            r.post_at == 0,
            r.blocks is None,
            r.link_names is None,
            r.markdown_text is None,
            r.as_user is None,
            r.parse is None,
            r.reply_broadcast is None,
            r.text is None,
            r.thread_ts is None,
            r.unfurl_links is None,
            r.unfurl_media is None,
    {
        ScheduleMessage {
            channel: String::new(),
            post_at: 0,
            blocks: None,
            link_names: None,
            markdown_text: None,
            as_user: None,
            parse: None,
            reply_broadcast: None,
            text: None,
            thread_ts: None,
            unfurl_links: None,
            unfurl_media: None,
        }
    }
}

impl ToJson for ScheduleMessage {
    open spec fn json(&self) -> Json {
        let m = no_members().insert("channel"@, self.channel.json());
        let m = m.insert("post_at"@, self.post_at.json());
        let m = with_opt(m, "blocks"@, self.blocks);
        let m = with_opt(m, "link_names"@, self.link_names);
        let m = with_opt(m, "markdown_text"@, self.markdown_text);
        let m = with_opt(m, "as_user"@, self.as_user);
        let m = with_opt(m, "parse"@, self.parse);
        let m = with_opt(m, "reply_broadcast"@, self.reply_broadcast);
        let m = with_opt(m, "text"@, self.text);
        let m = with_opt(m, "thread_ts"@, self.thread_ts);
        let m = with_opt(m, "unfurl_links"@, self.unfurl_links);
        let m = with_opt(m, "unfurl_media"@, self.unfurl_media);
        Json::Object(m)
    }

    fn to_value(&self) -> (v: serde_json::Value) {
        let mut m = map_new();
        put(&mut m, "channel", &self.channel);
        put(&mut m, "post_at", &self.post_at);
        put_opt(&mut m, "blocks", &self.blocks);
        put_opt(&mut m, "link_names", &self.link_names);
        put_opt(&mut m, "markdown_text", &self.markdown_text);
        put_opt(&mut m, "as_user", &self.as_user);
        put_opt(&mut m, "parse", &self.parse);
        put_opt(&mut m, "reply_broadcast", &self.reply_broadcast);
        put_opt(&mut m, "text", &self.text);
        put_opt(&mut m, "thread_ts", &self.thread_ts);
        put_opt(&mut m, "unfurl_links", &self.unfurl_links);
        put_opt(&mut m, "unfurl_media", &self.unfurl_media);
        json_object(m)
    }
}

impl SlackMethod for ScheduleMessage {
    type Response = ScheduleMessageResponse;

    open spec fn path_of() -> &'static str {
        "/chat.scheduleMessage"
    }

    fn path() -> (p: &'static str) {
        "/chat.scheduleMessage"
    }

    open spec fn method_of() -> HttpMethod {
        HttpMethod::Post
    }

    fn method() -> (m: HttpMethod) {
        HttpMethod::Post
    }

    fn encoding() -> (e: Encoding) {
        Encoding::Json
    }
}

/// The answer to `chat.scheduleMessage`.
#[derive(Debug, Clone)]
pub struct ScheduleMessageResponse {
    /// The channel, by its identifier.
    pub channel: String,
    /// The identifier of the waiting message.
    pub scheduled_message_id: String,
    /// When the message is sent.
    pub post_at: String,
}

} // verus!
