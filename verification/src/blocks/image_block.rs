//! The image block.

use vstd::prelude::*;
use vstd::string::StringExecFns;
use crate::blocks::text::PlainText;
use crate::blocks::{Block, BuildError};
use crate::encode::{ToJson, opt_json, put, put_opt, put_tag, tag_of, with_opt};
use crate::json::{Json, json_object, map_new, member, no_members};

verus! {

/// A file of the platform, named by its URL, its identifier, or both.
#[derive(Debug, Clone, PartialEq, Eq)]
pub struct SlackFileRef {
    /// The URL of the file.
    pub url: Option<String>,
    /// The identifier of the file.
    pub id: Option<String>,
}

impl ToJson for SlackFileRef {
    open spec fn json(&self) -> Json {
        let m = with_opt(no_members(), "url"@, self.url);
        let m = with_opt(m, "id"@, self.id);
        Json::Object(m)
    }

    fn to_value(&self) -> (v: serde_json::Value) {
        let mut m = map_new();
        put_opt(&mut m, "url", &self.url);
        put_opt(&mut m, "id", &self.id);
        json_object(m)
    }
}

/// The members of a file reference: each optional field that is set, and
/// nothing else.
pub proof fn lemma_slack_file_ref_shape(x: SlackFileRef)
    ensures
        member(x.json(), "url"@) == opt_json(x.url),
        member(x.json(), "id"@) == opt_json(x.id),
        forall|k: Seq<char>| (#[trigger] member(x.json(), k)) is Some ==> k == "url"@ || k == "id"@,
{
    reveal_strlit("url");
    reveal_strlit("id");
    assert("url"@.len() == 3);
    assert("id"@.len() == 2);
}

/// An image.
#[derive(Debug, Clone, PartialEq, Eq)]
pub struct Image {
    /// What the image shows, in words.
    pub alt_text: String,
    /// Where the image is.
    pub image_url: Option<String>,
    /// The file of the platform that holds the image.
    pub slack_file: Option<SlackFileRef>,
    /// A title above the image.
    pub title: Option<PlainText>,
    /// The identifier of the block within a message.
    pub block_id: Option<String>,
}

impl Image {
    /// A image block with its required fields; every optional field is unset.
    pub fn new(alt_text: &str) -> (r: Self)
        ensures
            r.alt_text@ == alt_text@,
            r.image_url is None,
            r.slack_file is None,
            r.title is None,
            r.block_id is None,
    {
        Image {
            alt_text: String::from_str(alt_text),
            image_url: None,
            slack_file: None,
            title: None,
            block_id: None,
        }
    }

    /// Sets `image_url`: where the image is.
    pub fn image_url(self, url: &str) -> (r: Self)
        ensures
            r.image_url matches Some(s) && s@ == url@,
            r == (Image { image_url: r.image_url, ..self }),
    {
        Image { image_url: Some(String::from_str(url)), ..self }
    }

    /// Sets `slack_file`: the file of the platform that holds the image.
    pub fn slack_file(self, file: SlackFileRef) -> (r: Self)
        ensures
            r == (Image { slack_file: Some(file), ..self }),
    {
        Image { slack_file: Some(file), ..self }
    }

    /// Sets `title`: a title above the image.
    pub fn title(self, title: PlainText) -> (r: Self)
        ensures
            r == (Image { title: Some(title), ..self }),
    {
        Image { title: Some(title), ..self }
    }

    /// Sets `block_id`: the identifier of the block within a message.
    pub fn block_id(self, id: &str) -> (r: Self)
        ensures
            r.block_id matches Some(s) && s@ == id@,
            r == (Image { block_id: r.block_id, ..self }),
    {
        Image { block_id: Some(String::from_str(id)), ..self }
    }

    /// The first rule that the block breaks, if it breaks one: the image
    /// comes from a URL or from a file of the platform, not from both, and a
    /// file is named by its URL or its identifier.
    pub open spec fn violation(&self) -> Option<Seq<char>> {
        if self.image_url is None && self.slack_file is None {
            Some("image block requires either image_url or slack_file"@)
        } else if self.image_url is Some && self.slack_file is Some {
            Some("image block must choose either image_url or slack_file, not both"@)
        } else if self.slack_file matches Some(file) && file.url is None && file.id is None {
            Some("slack_file reference requires either url or id"@)
        } else {
            None
        }
    }

    /// Holds the block to its rules: the first rule that it breaks, if it
    /// breaks one.
    pub fn validate(&self) -> (r: Result<(), BuildError>)
        ensures
            match r {
                Ok(_) => self.violation() is None,
                Err(e) => self.violation() == Some(e@),
            },
    {
        if self.image_url.is_none() && self.slack_file.is_none() {
            return Err(BuildError::message("image block requires either image_url or slack_file"));
        }
        if self.image_url.is_some() && self.slack_file.is_some() {
            return Err(
                BuildError::message(
                    "image block must choose either image_url or slack_file, not both",
                ),
            );
        }
        match &self.slack_file {
            Some(file) => {
                if file.url.is_none() && file.id.is_none() {
                    return Err(
                        BuildError::message("slack_file reference requires either url or id"),
                    );
                }
            },
            None => {},
        }
        Ok(())
    }

    /// Finishes the block: the block as it stands where it breaks no rule,
    /// else the first rule that it breaks.
    pub fn build(self) -> (r: Result<Block, BuildError>)
        ensures
            match r {
                Ok(b) => self.violation() is None && b == Block::Image(self),
                Err(e) => self.violation() == Some(e@),
            },
    {
        match self.validate() {
            Ok(_) => Ok(Block::Image(self)),
            Err(e) => Err(e),
        }
    }
}

impl ToJson for Image {
    open spec fn json(&self) -> Json {
        let m = no_members().insert("type"@, Json::Str("image"@));
        let m = m.insert("alt_text"@, self.alt_text.json());
        let m = with_opt(m, "image_url"@, self.image_url);
        let m = with_opt(m, "slack_file"@, self.slack_file);
        let m = with_opt(m, "title"@, self.title);
        let m = with_opt(m, "block_id"@, self.block_id);
        Json::Object(m)
    }

    fn to_value(&self) -> (v: serde_json::Value) {
        let mut m = map_new();
        put_tag(&mut m, "image");
        put(&mut m, "alt_text", &self.alt_text);
        put_opt(&mut m, "image_url", &self.image_url);
        put_opt(&mut m, "slack_file", &self.slack_file);
        put_opt(&mut m, "title", &self.title);
        put_opt(&mut m, "block_id", &self.block_id);
        json_object(m)
    }
}

/// The members of a image block: the tag `image`, each required field, each
/// optional field that is set, and nothing else.
pub proof fn lemma_image_shape(x: Image)
    ensures
        tag_of(x.json()) == "image"@,
        member(x.json(), "alt_text"@) == Some(x.alt_text.json()),
        member(x.json(), "image_url"@) == opt_json(x.image_url),
        member(x.json(), "slack_file"@) == opt_json(x.slack_file),
        member(x.json(), "title"@) == opt_json(x.title),
        member(x.json(), "block_id"@) == opt_json(x.block_id),
        forall|k: Seq<char>|
            (#[trigger] member(x.json(), k)) is Some ==> k == "type"@ || k == "alt_text"@
                || k == "image_url"@ || k == "slack_file"@ || k == "title"@ || k == "block_id"@,
{
    reveal_strlit("type");
    reveal_strlit("alt_text");
    reveal_strlit("image_url");
    reveal_strlit("slack_file");
    reveal_strlit("title");
    reveal_strlit("block_id");
    assert("type"@.len() == 4);
    assert("alt_text"@.len() == 8);
    assert("image_url"@.len() == 9);
    assert("slack_file"@.len() == 10);
    assert("title"@.len() == 5);
    assert("block_id"@.len() == 8);
    assert("alt_text"@[0] != "block_id"@[0]);
}

/// An image without a source is refused, and so is one with two sources.
/// With one source it is accepted, where a file of the platform is named by
/// its URL or its identifier.
pub proof fn lemma_image_sources(b: Image)
    ensures
        b.image_url is None && b.slack_file is None ==> b.violation() == Some(
            "image block requires either image_url or slack_file"@,
        ),
        b.image_url is Some && b.slack_file is Some ==> b.violation() == Some(
            "image block must choose either image_url or slack_file, not both"@,
        ),
        b.image_url is Some && b.slack_file is None ==> b.violation() is None,
        b.slack_file matches Some(file) ==> (b.image_url is None ==> (b.violation() is None <==> (
            file.url is Some || file.id is Some))),
{
}

} // verus!
