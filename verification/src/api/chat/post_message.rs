//! The method `chat.postMessage`.

use vstd::prelude::*;
use vstd::string::StringExecFns;
use crate::blocks::Block;
use crate::client::{Encoding, HttpMethod, SlackMethod, SlackRequest};
use crate::encode::{ToJson, put, put_opt, with_opt};
use crate::json::{Json, json_object, map_new, no_members};

verus! {

/// Sends a message to a channel.
#[derive(Debug, Clone)]
pub struct PostMessage {
    /// The channel, by its identifier.
    pub channel: String,
    /// Whether the method acts as the user that the token belongs to.
    pub as_user: Option<bool>,
    /// The blocks of the message.
    pub blocks: Option<Vec<Block>>,
    /// When the draft of the message was last updated.
    pub current_draft_last_updated_ts: Option<String>,
    /// An emoji to show as the icon of the message.
    pub icon_emoji: Option<String>,
    /// An image to show as the icon of the message.
    pub icon_url: Option<String>,
    /// Whether names in the text are turned into links.
    pub link_names: Option<bool>,
    /// The message in markdown.
    pub markdown_text: Option<String>,
    /// Whether markup in the text is parsed.
    pub mrkdwn: Option<bool>,
    /// How the text is parsed.
    pub parse: Option<String>,
    /// Whether a reply in a thread is shown in the channel too.
    pub reply_broadcast: Option<bool>,
    /// The text of the message.
    pub text: Option<String>,
    /// The timestamp of the message to reply to.
    pub thread_ts: Option<String>,
    /// Whether links to text are unfurled.
    pub unfurl_links: Option<bool>,
    /// Whether links to media are unfurled.
    pub unfurl_media: Option<bool>,
    /// The name that the message is shown under.
    pub username: Option<String>,
}

impl PostMessage {
    /// A payload of `chat.postMessage` with its required fields; every
    /// optional field is unset.
    pub fn new(channel: &str) -> (r: Self)
        ensures
            r.channel@ == channel@,
            r.as_user is None,
            r.blocks is None,
            r.current_draft_last_updated_ts is None,
            r.icon_emoji is None,
            r.icon_url is None,
            r.link_names is None,
            r.markdown_text is None,
            r.mrkdwn is None,
            r.parse is None,
            r.reply_broadcast is None,
            r.text is None,
            r.thread_ts is None,
            r.unfurl_links is None,
            r.unfurl_media is None,
            r.username is None,
    {
        PostMessage {
            channel: String::from_str(channel),
            as_user: None,
            blocks: None,
            current_draft_last_updated_ts: None,
            icon_emoji: None,
            icon_url: None,
            link_names: None,
            markdown_text: None,
            mrkdwn: None,
            parse: None,
            reply_broadcast: None,
            text: None,
            thread_ts: None,
            unfurl_links: None,
            unfurl_media: None,
            username: None,
        }
    }

    /// Sets `as_user`: whether the method acts as the user that the token
    /// belongs to.
    pub fn as_user(self, as_user: bool) -> (r: Self)
        ensures
            r == (PostMessage { as_user: Some(as_user), ..self }),
    {
        PostMessage { as_user: Some(as_user), ..self }
    }

    /// Sets `blocks`: the blocks of the message.
    pub fn blocks(self, blocks: Vec<Block>) -> (r: Self)
        ensures
            r == (PostMessage { blocks: Some(blocks), ..self }),
    {
        PostMessage { blocks: Some(blocks), ..self }
    }

    /// Sets `current_draft_last_updated_ts`: when the draft of the message
    /// was last updated.
    pub fn current_draft_last_updated_ts(self, current_draft_last_updated_ts: &str) -> (r: Self)
        ensures
            r.current_draft_last_updated_ts matches Some(s) && s@ == current_draft_last_updated_ts@,
            r == (PostMessage {
                current_draft_last_updated_ts: r.current_draft_last_updated_ts,
                ..self
            }),
    {
        PostMessage {
            current_draft_last_updated_ts: Some(String::from_str(current_draft_last_updated_ts)),
            ..self
        }
    }

    /// Sets `icon_emoji`: an emoji to show as the icon of the message.
    pub fn icon_emoji(self, icon_emoji: &str) -> (r: Self)
        ensures
            r.icon_emoji matches Some(s) && s@ == icon_emoji@,
            r == (PostMessage { icon_emoji: r.icon_emoji, ..self }),
    {
        PostMessage { icon_emoji: Some(String::from_str(icon_emoji)), ..self }
    }

    /// Sets `icon_url`: an image to show as the icon of the message.
    pub fn icon_url(self, icon_url: &str) -> (r: Self)
        ensures
            r.icon_url matches Some(s) && s@ == icon_url@,
            r == (PostMessage { icon_url: r.icon_url, ..self }),
    {
        PostMessage { icon_url: Some(String::from_str(icon_url)), ..self }
    }

    /// Sets `link_names`: whether names in the text are turned into links.
    pub fn link_names(self, link_names: bool) -> (r: Self)
        ensures
            r == (PostMessage { link_names: Some(link_names), ..self }),
    {
        PostMessage { link_names: Some(link_names), ..self }
    }

    /// Sets `markdown_text`: the message in markdown.
    pub fn markdown_text(self, markdown_text: &str) -> (r: Self)
        ensures
            r.markdown_text matches Some(s) && s@ == markdown_text@,
            r == (PostMessage { markdown_text: r.markdown_text, ..self }),
    {
        PostMessage { markdown_text: Some(String::from_str(markdown_text)), ..self }
    }

    /// Sets `mrkdwn`: whether markup in the text is parsed.
    pub fn mrkdwn(self, mrkdwn: bool) -> (r: Self)
        ensures
            r == (PostMessage { mrkdwn: Some(mrkdwn), ..self }),
    {
        PostMessage { mrkdwn: Some(mrkdwn), ..self }
    }

    /// Sets `parse`: how the text is parsed.
    pub fn parse(self, parse: &str) -> (r: Self)
        ensures
            r.parse matches Some(s) && s@ == parse@,
            r == (PostMessage { parse: r.parse, ..self }),
    {
        PostMessage { parse: Some(String::from_str(parse)), ..self }
    }

    /// Sets `reply_broadcast`: whether a reply in a thread is shown in the
    /// channel too.
    pub fn reply_broadcast(self, reply_broadcast: bool) -> (r: Self)
        ensures
            r == (PostMessage { reply_broadcast: Some(reply_broadcast), ..self }),
    {
        PostMessage { reply_broadcast: Some(reply_broadcast), ..self }
    }

    /// Sets `text`: the text of the message.
    pub fn text(self, text: &str) -> (r: Self)
        ensures
            r.text matches Some(s) && s@ == text@,
            r == (PostMessage { text: r.text, ..self }),
    {
        PostMessage { text: Some(String::from_str(text)), ..self }
    }

    /// Sets `thread_ts`: the timestamp of the message to reply to.
    pub fn thread_ts(self, thread_ts: &str) -> (r: Self)
        ensures
            r.thread_ts matches Some(s) && s@ == thread_ts@,
            r == (PostMessage { thread_ts: r.thread_ts, ..self }),
    {
        PostMessage { thread_ts: Some(String::from_str(thread_ts)), ..self }
    }

    /// Sets `unfurl_links`: whether links to text are unfurled.
    pub fn unfurl_links(self, unfurl_links: bool) -> (r: Self)
        ensures
            r == (PostMessage { unfurl_links: Some(unfurl_links), ..self }),
    {
        PostMessage { unfurl_links: Some(unfurl_links), ..self }
    }

    /// Sets `unfurl_media`: whether links to media are unfurled.
    pub fn unfurl_media(self, unfurl_media: bool) -> (r: Self)
        ensures
            r == (PostMessage { unfurl_media: Some(unfurl_media), ..self }),
    {
        PostMessage { unfurl_media: Some(unfurl_media), ..self }
    }

    /// Sets `username`: the name that the message is shown under.
    pub fn username(self, username: &str) -> (r: Self)
        ensures
            r.username matches Some(s) && s@ == username@,
            r == (PostMessage { username: r.username, ..self }),
    {
        PostMessage { username: Some(String::from_str(username)), ..self }
    }

    /// The request that sends this payload.
    pub fn build_request(self) -> (r: SlackRequest<Self>)
        ensures
            r.well_formed(),
            r.body == self,
    {
        SlackRequest::new(self)
    }
}

impl Default for PostMessage {
    fn default() -> (r: Self)
        ensures
            r.channel@.len() == 0,
            r.as_user is None,
            r.blocks is None,
            r.current_draft_last_updated_ts is None,
            r.icon_emoji is None,
            r.icon_url is None,
            r.link_names is None,
            r.markdown_text is None,
            r.mrkdwn is None,
            r.parse is None,
            r.reply_broadcast is None,
            r.text is None,
            r.thread_ts is None,
            r.unfurl_links is None,
            r.unfurl_media is None,
            r.username is None,
    {
        PostMessage {
            channel: String::new(),
            as_user: None,
            blocks: None,
            current_draft_last_updated_ts: None,
            icon_emoji: None,
            icon_url: None,
            link_names: None,
            markdown_text: None,
            mrkdwn: None,
            parse: None,
            reply_broadcast: None,
            text: None,
            thread_ts: None,
            unfurl_links: None,
            unfurl_media: None,
            username: None,
        }
    }
}

impl ToJson for PostMessage {
    open spec fn json(&self) -> Json {
        let m = no_members().insert("channel"@, self.channel.json());
        let m = with_opt(m, "as_user"@, self.as_user);
        let m = with_opt(m, "blocks"@, self.blocks);
        let m = with_opt(m, "current_draft_last_updated_ts"@, self.current_draft_last_updated_ts);
        let m = with_opt(m, "icon_emoji"@, self.icon_emoji);
        let m = with_opt(m, "icon_url"@, self.icon_url);
        let m = with_opt(m, "link_names"@, self.link_names);
        let m = with_opt(m, "markdown_text"@, self.markdown_text);
        let m = with_opt(m, "mrkdwn"@, self.mrkdwn);
        let m = with_opt(m, "parse"@, self.parse);
        let m = with_opt(m, "reply_broadcast"@, self.reply_broadcast);
        let m = with_opt(m, "text"@, self.text);
        let m = with_opt(m, "thread_ts"@, self.thread_ts);
        let m = with_opt(m, "unfurl_links"@, self.unfurl_links);
        let m = with_opt(m, "unfurl_media"@, self.unfurl_media);
        let m = with_opt(m, "username"@, self.username);
        Json::Object(m)
    }

    fn to_value(&self) -> (v: serde_json::Value) {
        let mut m = map_new();
        put(&mut m, "channel", &self.channel);
        put_opt(&mut m, "as_user", &self.as_user);
        put_opt(&mut m, "blocks", &self.blocks);
        put_opt(&mut m, "current_draft_last_updated_ts", &self.current_draft_last_updated_ts);
        put_opt(&mut m, "icon_emoji", &self.icon_emoji);
        put_opt(&mut m, "icon_url", &self.icon_url);
        put_opt(&mut m, "link_names", &self.link_names);
        put_opt(&mut m, "markdown_text", &self.markdown_text);
        put_opt(&mut m, "mrkdwn", &self.mrkdwn);
        put_opt(&mut m, "parse", &self.parse);
        put_opt(&mut m, "reply_broadcast", &self.reply_broadcast);
        put_opt(&mut m, "text", &self.text);
        put_opt(&mut m, "thread_ts", &self.thread_ts);
        put_opt(&mut m, "unfurl_links", &self.unfurl_links);
        put_opt(&mut m, "unfurl_media", &self.unfurl_media);
        put_opt(&mut m, "username", &self.username);
        json_object(m)
    }
}

impl SlackMethod for PostMessage {
    type Response = PostMessageResponse;

    open spec fn path_of() -> &'static str {
        "/chat.postMessage"
    }

    fn path() -> (p: &'static str) {
        "/chat.postMessage"
    }

    open spec fn method_of() -> HttpMethod {
        HttpMethod::Post
    }

    fn method() -> (m: HttpMethod) {
        HttpMethod::Post
    }

    fn encoding() -> (e: Encoding) {
        Encoding::Json
    }
}

/// The answer to `chat.postMessage`.
#[derive(Debug, Clone)]
pub struct PostMessageResponse {}

} // verus!
