//! The method `chat.update`.

use vstd::prelude::*;
use vstd::string::StringExecFns;
use crate::blocks::Block;
use crate::client::{Encoding, HttpMethod, SlackMethod, SlackRequest};
use crate::encode::{ToJson, put, put_opt, with_opt};
use crate::json::{Json, json_object, map_new, no_members};

verus! {

/// Changes a message.
#[derive(Debug, Clone)]
pub struct Update {
    /// The channel, by its identifier.
    pub channel: String,
    /// The timestamp that identifies the message.
    pub ts: String,
    /// Whether the method acts as the user that the token belongs to.
    pub as_user: Option<bool>,
    /// The blocks of the message.
    pub blocks: Option<Vec<Block>>,
    /// The message in markdown.
    pub markdown_text: Option<String>,
    /// Whether names in the text are turned into links.
    pub link_names: Option<bool>,
    /// How the text is parsed.
    pub parse: Option<String>,
    /// The text of the message.
    pub text: Option<String>,
}

impl Update {
    /// A payload of `chat.update` with its required fields; every optional
    /// field is unset.
    pub fn new(channel: &str, ts: &str) -> (r: Self)
        ensures
            r.channel@ == channel@,
            r.ts@ == ts@,
            r.as_user is None,
            r.blocks is None,
            r.markdown_text is None,
            r.link_names is None,
            r.parse is None,
            r.text is None,
    {
        Update {
            channel: String::from_str(channel),
            ts: String::from_str(ts),
            as_user: None,
            blocks: None,
            markdown_text: None,
            link_names: None,
            parse: None,
            text: None,
        }
    }

    /// Sets `as_user`: whether the method acts as the user that the token
    /// belongs to.
    pub fn as_user(self, as_user: bool) -> (r: Self)
        ensures
            r == (Update { as_user: Some(as_user), ..self }),
    {
        Update { as_user: Some(as_user), ..self }
    }

    /// Sets `blocks`: the blocks of the message.
    pub fn blocks(self, blocks: Vec<Block>) -> (r: Self)
        ensures
            r == (Update { blocks: Some(blocks), ..self }),
    {
        Update { blocks: Some(blocks), ..self }
    }

    /// Sets `markdown_text`: the message in markdown.
    pub fn markdown_text(self, markdown_text: &str) -> (r: Self)
        ensures
            r.markdown_text matches Some(s) && s@ == markdown_text@,
            r == (Update { markdown_text: r.markdown_text, ..self }),
    {
        Update { markdown_text: Some(String::from_str(markdown_text)), ..self }
    }

    /// Sets `link_names`: whether names in the text are turned into links.
    pub fn link_names(self, link_names: bool) -> (r: Self)
        ensures
            r == (Update { link_names: Some(link_names), ..self }),
    {
        Update { link_names: Some(link_names), ..self }
    }

    /// Sets `parse`: how the text is parsed.
    pub fn parse(self, parse: &str) -> (r: Self)
        ensures
            r.parse matches Some(s) && s@ == parse@,
            r == (Update { parse: r.parse, ..self }),
    {
        Update { parse: Some(String::from_str(parse)), ..self }
    }

    /// Sets `text`: the text of the message.
    pub fn text(self, text: &str) -> (r: Self)
        ensures
            r.text matches Some(s) && s@ == text@,
            r == (Update { text: r.text, ..self }),
    {
        Update { text: Some(String::from_str(text)), ..self }
    }

    /// The request that sends this payload.
    pub fn build_request(self) -> (r: SlackRequest<Self>)
        ensures
            r.well_formed(),
            r.body == self,
    {
        SlackRequest::new(self)
    }
}

impl Default for Update {
    fn default() -> (r: Self)
        ensures
            r.channel@.len() == 0,
            r.ts@.len() == 0,
            r.as_user is None,
            r.blocks is None,
            r.markdown_text is None,
            r.link_names is None,
            r.parse is None,
            r.text is None,
    {
        Update {
            channel: String::new(),
            ts: String::new(),
            as_user: None,
            blocks: None,
            markdown_text: None,
            link_names: None,
            parse: None,
            text: None,
        }
    }
}

impl ToJson for Update {
    open spec fn json(&self) -> Json {
        let m = no_members().insert("channel"@, self.channel.json());
        let m = m.insert("ts"@, self.ts.json());
        let m = with_opt(m, "as_user"@, self.as_user);
        let m = with_opt(m, "blocks"@, self.blocks);
        let m = with_opt(m, "markdown_text"@, self.markdown_text);
        let m = with_opt(m, "link_names"@, self.link_names);
        let m = with_opt(m, "parse"@, self.parse);
        let m = with_opt(m, "text"@, self.text);
        Json::Object(m)
    }

    fn to_value(&self) -> (v: serde_json::Value) {
        let mut m = map_new();
        put(&mut m, "channel", &self.channel);
        put(&mut m, "ts", &self.ts);
        put_opt(&mut m, "as_user", &self.as_user);
        put_opt(&mut m, "blocks", &self.blocks);
        put_opt(&mut m, "markdown_text", &self.markdown_text);
        put_opt(&mut m, "link_names", &self.link_names);
        put_opt(&mut m, "parse", &self.parse);
        put_opt(&mut m, "text", &self.text);
        json_object(m)
    }
}

impl SlackMethod for Update {
    type Response = UpdateResponse;

    open spec fn path_of() -> &'static str {
        "/chat.update"
    }

    fn path() -> (p: &'static str) {
        "/chat.update"
    }

    open spec fn method_of() -> HttpMethod {
        HttpMethod::Post
    }

    fn method() -> (m: HttpMethod) {
        HttpMethod::Post
    }

    fn encoding() -> (e: Encoding) {
        Encoding::Json
    }
}

/// The answer to `chat.update`.
#[derive(Debug, Clone)]
pub struct UpdateResponse {
    /// The channel, by its identifier.
    pub channel: String,
    /// The timestamp that identifies the message.
    pub ts: String,
}

} // verus!
