//! The method `chat.unfurl`.

use vstd::prelude::*;
use vstd::string::StringExecFns;
use crate::blocks::Block;
use crate::client::{Encoding, HttpMethod, SlackMethod, SlackRequest};
use crate::encode::{ToJson, put, put_opt, with_opt};
use crate::json::{Json, json_object, map_new, no_members};

verus! {

/// Gives the previews for the links of a message.
#[derive(Debug, Clone)]
pub struct Unfurl {
    /// The channel, by its identifier.
    pub channel: String,
    /// The timestamp that identifies the message.
    pub ts: String,
    /// The previews by link, as JSON text.
    pub unfurls: String,
    /// A message that asks the user to authenticate.
    pub user_auth_message: Option<String>,
    /// Whether the user has to authenticate first.
    pub user_auth_required: Option<bool>,
    /// Where the user authenticates.
    pub user_auth_url: Option<String>,
    /// Blocks that ask the user to authenticate.
    pub user_auth_blocks: Option<Vec<Block>>,
}

impl Unfurl {
    /// A payload of `chat.unfurl` with its required fields; every optional
    /// field is unset.
    pub fn new(channel: &str, ts: &str, unfurls: &str) -> (r: Self)
        ensures
            r.channel@ == channel@,
            r.ts@ == ts@,
            r.unfurls@ == unfurls@,
            r.user_auth_message is None,
            r.user_auth_required is None,
            r.user_auth_url is None,
            r.user_auth_blocks is None,
    {
        Unfurl {
            channel: String::from_str(channel),
            ts: String::from_str(ts),
            unfurls: String::from_str(unfurls),
            user_auth_message: None,
            user_auth_required: None,
            user_auth_url: None,
            user_auth_blocks: None,
        }
    }

    /// Sets `user_auth_message`: a message that asks the user to
    /// authenticate.
    pub fn user_auth_message(self, user_auth_message: &str) -> (r: Self)
        ensures
            r.user_auth_message matches Some(s) && s@ == user_auth_message@,
            r == (Unfurl { user_auth_message: r.user_auth_message, ..self }),
    {
        Unfurl { user_auth_message: Some(String::from_str(user_auth_message)), ..self }
    }

    /// Sets `user_auth_required`: whether the user has to authenticate first.
    pub fn user_auth_required(self, user_auth_required: bool) -> (r: Self)
        ensures
            r == (Unfurl { user_auth_required: Some(user_auth_required), ..self }),
    {
        Unfurl { user_auth_required: Some(user_auth_required), ..self }
    }

    /// Sets `user_auth_url`: where the user authenticates.
    pub fn user_auth_url(self, user_auth_url: &str) -> (r: Self)
        ensures
            r.user_auth_url matches Some(s) && s@ == user_auth_url@,
            r == (Unfurl { user_auth_url: r.user_auth_url, ..self }),
    {
        Unfurl { user_auth_url: Some(String::from_str(user_auth_url)), ..self }
    }

    /// Sets `user_auth_blocks`: blocks that ask the user to authenticate.
    pub fn user_auth_blocks(self, user_auth_blocks: Vec<Block>) -> (r: Self)
        ensures
            r == (Unfurl { user_auth_blocks: Some(user_auth_blocks), ..self }),
    {
        Unfurl { user_auth_blocks: Some(user_auth_blocks), ..self }
    }

    /// The request that sends this payload.
    pub fn build_request(self) -> (r: SlackRequest<Self>)
        ensures
            r.well_formed(),
            r.body == self,
    {
        SlackRequest::new(self)
    }
}

impl Default for Unfurl {
    fn default() -> (r: Self)
        ensures
            r.channel@.len() == 0,
            r.ts@.len() == 0,
            r.unfurls@.len() == 0,
            r.user_auth_message is None,
            r.user_auth_required is None,
            r.user_auth_url is None,
            r.user_auth_blocks is None,
    {
        Unfurl {
            channel: String::new(),
            ts: String::new(),
            unfurls: String::new(),
            user_auth_message: None,
            user_auth_required: None,
            user_auth_url: None,
            user_auth_blocks: None,
        }
    }
}

impl ToJson for Unfurl {
    open spec fn json(&self) -> Json {
        let m = no_members().insert("channel"@, self.channel.json());
        let m = m.insert("ts"@, self.ts.json());
        let m = m.insert("unfurls"@, self.unfurls.json());
        let m = with_opt(m, "user_auth_message"@, self.user_auth_message);
        let m = with_opt(m, "user_auth_required"@, self.user_auth_required);
        let m = with_opt(m, "user_auth_url"@, self.user_auth_url);
        let m = with_opt(m, "user_auth_blocks"@, self.user_auth_blocks);
        Json::Object(m)
    }

    fn to_value(&self) -> (v: serde_json::Value) {
        let mut m = map_new();
        put(&mut m, "channel", &self.channel);
        put(&mut m, "ts", &self.ts);
        put(&mut m, "unfurls", &self.unfurls);
        put_opt(&mut m, "user_auth_message", &self.user_auth_message);
        put_opt(&mut m, "user_auth_required", &self.user_auth_required);
        put_opt(&mut m, "user_auth_url", &self.user_auth_url);
        put_opt(&mut m, "user_auth_blocks", &self.user_auth_blocks);
        json_object(m)
    }
}

impl SlackMethod for Unfurl {
    type Response = UnfurlResponse;

    open spec fn path_of() -> &'static str {
        "/chat.unfurl"
    }

    fn path() -> (p: &'static str) {
        "/chat.unfurl"
    }

    open spec fn method_of() -> HttpMethod {
        HttpMethod::Post
    }

    fn method() -> (m: HttpMethod) {
        HttpMethod::Post
    }

    fn encoding() -> (e: Encoding) {
        Encoding::Json
    }
}

/// The answer to `chat.unfurl`.
#[derive(Debug, Clone)]
pub struct UnfurlResponse {}

} // verus!
