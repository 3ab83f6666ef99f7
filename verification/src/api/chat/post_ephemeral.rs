//! The method `chat.postEphemeral`.

use vstd::prelude::*;
use vstd::string::StringExecFns;
use crate::blocks::Block;
use crate::client::{Encoding, HttpMethod, SlackMethod, SlackRequest};
use crate::encode::{ToJson, put, put_opt, with_opt};
use crate::json::{Json, json_object, map_new, no_members};

verus! {

/// Sends a message that only one user sees.
#[derive(Debug, Clone)]
pub struct PostEphemeral {
    /// The channel, by its identifier.
    pub channel: String,
    /// The user who sees the message.
    pub user: String,
    /// Whether the method acts as the user that the token belongs to.
    pub as_user: Option<bool>,
    /// The blocks of the message.
    pub blocks: Option<Vec<Block>>,
    /// An emoji to show as the icon of the message.
    pub icon_emoji: Option<String>,
    /// An image to show as the icon of the message.
    pub icon_url: Option<String>,
    /// Whether names in the text are turned into links.
    pub link_names: Option<bool>,
    /// The message in markdown.
    pub markdown_text: Option<String>,
    /// How the text is parsed.
    pub parse: Option<String>,
    /// The text of the message.
    pub text: Option<String>,
    /// The timestamp of the message to reply to.
    pub thread_ts: Option<String>,
    /// The name that the message is shown under.
    pub username: Option<String>,
}

impl PostEphemeral {
    /// A payload of `chat.postEphemeral` with its required fields; every
    /// optional field is unset.
    pub fn new(channel: &str, user: &str) -> (r: Self)
        ensures
            r.channel@ == channel@,
            r.user@ == user@,
            r.as_user is None,
            r.blocks is None,
            r.icon_emoji is None,
            r.icon_url is None,
            r.link_names is None,
            r.markdown_text is None,
            r.parse is None,
            r.text is None,
            r.thread_ts is None,
            r.username is None,
    {
        PostEphemeral {
            channel: String::from_str(channel),
            user: String::from_str(user),
            as_user: None,
            blocks: None,
            icon_emoji: None,
            icon_url: None,
            link_names: None,
            markdown_text: None,
            parse: None,
            text: None,
            thread_ts: None,
            username: None,
        }
    }

    /// Sets `as_user`: whether the method acts as the user that the token
    /// belongs to.
    pub fn as_user(self, as_user: bool) -> (r: Self)
        ensures
            r == (PostEphemeral { as_user: Some(as_user), ..self }),
    {
        PostEphemeral { as_user: Some(as_user), ..self }
    }

    /// Sets `blocks`: the blocks of the message.
    pub fn blocks(self, blocks: Vec<Block>) -> (r: Self)
        ensures
            r == (PostEphemeral { blocks: Some(blocks), ..self }),
    {
        PostEphemeral { blocks: Some(blocks), ..self }
    }

    /// Sets `icon_emoji`: an emoji to show as the icon of the message.
    pub fn icon_emoji(self, icon_emoji: &str) -> (r: Self)
        ensures
            r.icon_emoji matches Some(s) && s@ == icon_emoji@,
            r == (PostEphemeral { icon_emoji: r.icon_emoji, ..self }),
    {
        PostEphemeral { icon_emoji: Some(String::from_str(icon_emoji)), ..self }
    }

    /// Sets `icon_url`: an image to show as the icon of the message.
    pub fn icon_url(self, icon_url: &str) -> (r: Self)
        ensures
            r.icon_url matches Some(s) && s@ == icon_url@,
            r == (PostEphemeral { icon_url: r.icon_url, ..self }),
    {
        PostEphemeral { icon_url: Some(String::from_str(icon_url)), ..self }
    }

    /// Sets `link_names`: whether names in the text are turned into links.
    pub fn link_names(self, link_names: bool) -> (r: Self)
        ensures
            r == (PostEphemeral { link_names: Some(link_names), ..self }),
    {
        PostEphemeral { link_names: Some(link_names), ..self }
    }

    /// Sets `markdown_text`: the message in markdown.
    pub fn markdown_text(self, markdown_text: &str) -> (r: Self)
        ensures
            r.markdown_text matches Some(s) && s@ == markdown_text@,
            r == (PostEphemeral { markdown_text: r.markdown_text, ..self }),
    {
        PostEphemeral { markdown_text: Some(String::from_str(markdown_text)), ..self }
    }

    /// Sets `parse`: how the text is parsed.
    pub fn parse(self, parse: &str) -> (r: Self)
        ensures
            r.parse matches Some(s) && s@ == parse@,
            r == (PostEphemeral { parse: r.parse, ..self }),
    {
        PostEphemeral { parse: Some(String::from_str(parse)), ..self }
    }

    /// Sets `text`: the text of the message.
    pub fn text(self, text: &str) -> (r: Self)
        ensures
            r.text matches Some(s) && s@ == text@,
            r == (PostEphemeral { text: r.text, ..self }),
    {
        PostEphemeral { text: Some(String::from_str(text)), ..self }
    }

    /// Sets `thread_ts`: the timestamp of the message to reply to.
    pub fn thread_ts(self, thread_ts: &str) -> (r: Self)
        ensures
            r.thread_ts matches Some(s) && s@ == thread_ts@,
            r == (PostEphemeral { thread_ts: r.thread_ts, ..self }),
    {
        PostEphemeral { thread_ts: Some(String::from_str(thread_ts)), ..self }
    }

    /// Sets `username`: the name that the message is shown under.
    pub fn username(self, username: &str) -> (r: Self)
        ensures
            r.username matches Some(s) && s@ == username@,
            r == (PostEphemeral { username: r.username, ..self }),
    {
        PostEphemeral { username: Some(String::from_str(username)), ..self }
    }

    /// The request that sends this payload.
    pub fn build_request(self) -> (r: SlackRequest<Self>)
        ensures
            r.well_formed(),
            r.body == self,
    {
        SlackRequest::new(self)
    }
}

impl Default for PostEphemeral {
    fn default() -> (r: Self)
        ensures
            r.channel@.len() == 0,
            r.user@.len() == 0,
            r.as_user is None,
            r.blocks is None,
            r.icon_emoji is None,
            r.icon_url is None,
            r.link_names is None,
            r.markdown_text is None,
            r.parse is None,
            r.text is None,
            r.thread_ts is None,
            r.username is None,
    {
        PostEphemeral {
            channel: String::new(),
            user: String::new(),
            as_user: None,
            blocks: None,
            icon_emoji: None,
            icon_url: None,
            link_names: None,
            markdown_text: None,
            parse: None,
            text: None,
            thread_ts: None,
            username: None,
        }
    }
}

impl ToJson for PostEphemeral {
    open spec fn json(&self) -> Json {
        let m = no_members().insert("channel"@, self.channel.json());
        let m = m.insert("user"@, self.user.json());
        let m = with_opt(m, "as_user"@, self.as_user);
        let m = with_opt(m, "blocks"@, self.blocks);
        let m = with_opt(m, "icon_emoji"@, self.icon_emoji);
        let m = with_opt(m, "icon_url"@, self.icon_url);
        let m = with_opt(m, "link_names"@, self.link_names);
        let m = with_opt(m, "markdown_text"@, self.markdown_text);
        let m = with_opt(m, "parse"@, self.parse);
        let m = with_opt(m, "text"@, self.text);
        let m = with_opt(m, "thread_ts"@, self.thread_ts);
        let m = with_opt(m, "username"@, self.username);
        Json::Object(m)
    }

    fn to_value(&self) -> (v: serde_json::Value) {
        let mut m = map_new();
        put(&mut m, "channel", &self.channel);
        put(&mut m, "user", &self.user);
        put_opt(&mut m, "as_user", &self.as_user);
        put_opt(&mut m, "blocks", &self.blocks);
        put_opt(&mut m, "icon_emoji", &self.icon_emoji);
        put_opt(&mut m, "icon_url", &self.icon_url);
        put_opt(&mut m, "link_names", &self.link_names);
        put_opt(&mut m, "markdown_text", &self.markdown_text);
        put_opt(&mut m, "parse", &self.parse);
        put_opt(&mut m, "text", &self.text);
        put_opt(&mut m, "thread_ts", &self.thread_ts);
        put_opt(&mut m, "username", &self.username);
        json_object(m)
    }
}

impl SlackMethod for PostEphemeral {
    type Response = PostEphemeralResponse;

    open spec fn path_of() -> &'static str {
        "/chat.postEphemeral"
    }

    fn path() -> (p: &'static str) {
        "/chat.postEphemeral"
    }

    open spec fn method_of() -> HttpMethod {
        HttpMethod::Post
    }

    fn method() -> (m: HttpMethod) {
        HttpMethod::Post
    }

    fn encoding() -> (e: Encoding) {
        Encoding::Json
    }
}

/// The answer to `chat.postEphemeral`.
#[derive(Debug, Clone)]
pub struct PostEphemeralResponse {
    /// The timestamp of the message.
    pub message_ts: String,
}

} // verus!
