//! The video block.

use vstd::prelude::*;
use vstd::string::StringExecFns;
use crate::blocks::MAX_VIDEO_TEXT_LEN;
use crate::blocks::text::PlainText;
use crate::blocks::{Block, BuildError};
use crate::encode::{ToJson, opt_json, put, put_opt, put_tag, tag_of, with_opt};
use crate::json::{Json, json_object, map_new, member, no_members};
use crate::strings::{
    blank, byte_len, citing, is_blank, lemma_numerals, str_starts_with, with_number,
};

verus! {

/// Whether a URL is an `https` URL: it begins with `https://`.
pub open spec fn https(url: Seq<char>) -> bool {
    "https://"@.is_prefix_of(url)
}

/// Whether a URL is an `https` URL.
pub fn is_https(url: &str) -> (r: bool)
    ensures
        r == https(url@),
{
    str_starts_with(url, "https://")
}

/// An embedded video.
#[derive(Debug, Clone, PartialEq, Eq)]
pub struct Video {
    /// The title of the video.
    pub title: PlainText,
    /// Where the video is embedded from.
    pub video_url: String,
    /// Where the thumbnail is.
    pub thumbnail_url: String,
    /// What the video shows, in words.
    pub alt_text: String,
    /// A description of the video.
    pub description: Option<PlainText>,
    /// A page that the title links to.
    pub title_url: Option<String>,
    /// Where the icon of the provider is.
    pub provider_icon_url: Option<String>,
    /// The name of the provider.
    pub provider_name: Option<String>,
    /// The name of the author.
    pub author_name: Option<String>,
    /// The identifier of the block within a message.
    pub block_id: Option<String>,
}

impl Video {
    /// A video block with its required fields; every optional field is unset.
    pub fn new(title: PlainText, video_url: &str, thumbnail_url: &str, alt_text: &str) -> (r: Self)
        ensures
            r.title == title,
            r.video_url@ == video_url@,
            r.thumbnail_url@ == thumbnail_url@,
            r.alt_text@ == alt_text@,
            r.description is None,
            r.title_url is None,
            r.provider_icon_url is None,
            r.provider_name is None,
            r.author_name is None,
            r.block_id is None,
    {
        Video {
            title,
            video_url: String::from_str(video_url),
            thumbnail_url: String::from_str(thumbnail_url),
            alt_text: String::from_str(alt_text),
            description: None,
            title_url: None,
            provider_icon_url: None,
            provider_name: None,
            author_name: None,
            block_id: None,
        }
    }

    /// Sets `description`: a description of the video.
    pub fn description(self, description: PlainText) -> (r: Self)
        ensures
            r == (Video { description: Some(description), ..self }),
    {
        Video { description: Some(description), ..self }
    }

    /// Sets `title_url`: a page that the title links to.
    pub fn title_url(self, url: &str) -> (r: Self)
        ensures
            r.title_url matches Some(s) && s@ == url@,
            r == (Video { title_url: r.title_url, ..self }),
    {
        Video { title_url: Some(String::from_str(url)), ..self }
    }

    /// Sets `provider_icon_url`: where the icon of the provider is.
    pub fn provider_icon_url(self, url: &str) -> (r: Self)
        ensures
            r.provider_icon_url matches Some(s) && s@ == url@,
            r == (Video { provider_icon_url: r.provider_icon_url, ..self }),
    {
        Video { provider_icon_url: Some(String::from_str(url)), ..self }
    }

    /// Sets `provider_name`: the name of the provider.
    pub fn provider_name(self, name: &str) -> (r: Self)
        ensures
            r.provider_name matches Some(s) && s@ == name@,
            r == (Video { provider_name: r.provider_name, ..self }),
    {
        Video { provider_name: Some(String::from_str(name)), ..self }
    }

    /// Sets `author_name`: the name of the author.
    pub fn author_name(self, name: &str) -> (r: Self)
        ensures
            r.author_name matches Some(s) && s@ == name@,
            r == (Video { author_name: r.author_name, ..self }),
    {
        Video { author_name: Some(String::from_str(name)), ..self }
    }

    /// Sets `block_id`: the identifier of the block within a message.
    pub fn block_id(self, id: &str) -> (r: Self)
        ensures
            r.block_id matches Some(s) && s@ == id@,
            r == (Video { block_id: r.block_id, ..self }),
    {
        Video { block_id: Some(String::from_str(id)), ..self }
    }

    /// The first rule that the block breaks, if it breaks one: the title and
    /// the description are no longer than `MAX_VIDEO_TEXT_LEN` bytes; the
    /// alternative text is not blank; and the URLs of the video, of the
    /// thumbnail and of the title are `https` URLs.
    pub open spec fn violation(&self) -> Option<Seq<char>> {
        if byte_len(self.title.text@) > MAX_VIDEO_TEXT_LEN {
            Some(
                citing(
                    "video block title cannot exceed "@,
                    MAX_VIDEO_TEXT_LEN as nat,
                    " characters"@,
                ),
            )
        } else if self.description matches Some(description) && byte_len(description.text@)
            > MAX_VIDEO_TEXT_LEN {
            Some(
                citing(
                    "video block description cannot exceed "@,
                    MAX_VIDEO_TEXT_LEN as nat,
                    " characters"@,
                ),
            )
        } else if blank(self.alt_text@) {
            Some("video block alt_text must not be empty"@)
        } else if !https(self.video_url@) {
            Some("video block video_url must use https scheme"@)
        } else if !https(self.thumbnail_url@) {
            Some("video block thumbnail_url must use https scheme"@)
        } else if self.title_url matches Some(url) && !https(url@) {
            Some("video block title_url must use https scheme"@)
        } else {
            None
        }
    }

    /// Holds the block to its rules: the first rule that it breaks, if it
    /// breaks one.
    pub fn validate(&self) -> (r: Result<(), BuildError>)
        ensures
            match r {
                Ok(_) => self.violation() is None,
                Err(e) => self.violation() == Some(e@),
            },
    {
        if self.title.text.as_str().len() > MAX_VIDEO_TEXT_LEN {
            return Err(
                BuildError::Message(
                    with_number(
                        "video block title cannot exceed ",
                        MAX_VIDEO_TEXT_LEN,
                        " characters",
                    ),
                ),
            );
        }
        match &self.description {
            Some(description) => {
                if description.text.as_str().len() > MAX_VIDEO_TEXT_LEN {
                    return Err(
                        BuildError::Message(
                            with_number(
                                "video block description cannot exceed ",
                                MAX_VIDEO_TEXT_LEN,
                                " characters",
                            ),
                        ),
                    );
                }
            },
            None => {},
        }
        if is_blank(self.alt_text.as_str()) {
            return Err(BuildError::message("video block alt_text must not be empty"));
        }
        if !is_https(self.video_url.as_str()) {
            return Err(BuildError::message("video block video_url must use https scheme"));
        }
        if !is_https(self.thumbnail_url.as_str()) {
            return Err(BuildError::message("video block thumbnail_url must use https scheme"));
        }
        match &self.title_url {
            Some(url) => {
                if !is_https(url.as_str()) {
                    return Err(BuildError::message("video block title_url must use https scheme"));
                }
            },
            None => {},
        }
        Ok(())
    }

    /// Finishes the block: the block as it stands where it breaks no rule,
    /// else the first rule that it breaks.
    pub fn build(self) -> (r: Result<Block, BuildError>)
        ensures
            match r {
                Ok(b) => self.violation() is None && b == Block::Video(self),
                Err(e) => self.violation() == Some(e@),
            },
    {
        match self.validate() {
            Ok(_) => Ok(Block::Video(self)),
            Err(e) => Err(e),
        }
    }
}

impl ToJson for Video {
    open spec fn json(&self) -> Json {
        let m = no_members().insert("type"@, Json::Str("video"@));
        let m = m.insert("title"@, self.title.json());
        let m = m.insert("video_url"@, self.video_url.json());
        let m = m.insert("thumbnail_url"@, self.thumbnail_url.json());
        let m = m.insert("alt_text"@, self.alt_text.json());
        let m = with_opt(m, "description"@, self.description);
        let m = with_opt(m, "title_url"@, self.title_url);
        let m = with_opt(m, "provider_icon_url"@, self.provider_icon_url);
        let m = with_opt(m, "provider_name"@, self.provider_name);
        let m = with_opt(m, "author_name"@, self.author_name);
        let m = with_opt(m, "block_id"@, self.block_id);
        Json::Object(m)
    }

    fn to_value(&self) -> (v: serde_json::Value) {
        let mut m = map_new();
        put_tag(&mut m, "video");
        put(&mut m, "title", &self.title);
        put(&mut m, "video_url", &self.video_url);
        put(&mut m, "thumbnail_url", &self.thumbnail_url);
        put(&mut m, "alt_text", &self.alt_text);
        put_opt(&mut m, "description", &self.description);
        put_opt(&mut m, "title_url", &self.title_url);
        put_opt(&mut m, "provider_icon_url", &self.provider_icon_url);
        put_opt(&mut m, "provider_name", &self.provider_name);
        put_opt(&mut m, "author_name", &self.author_name);
        put_opt(&mut m, "block_id", &self.block_id);
        json_object(m)
    }
}

/// The members of a video block: the tag `video`, each required field, each
/// optional field that is set, and nothing else.
pub proof fn lemma_video_shape(x: Video)
    ensures
        tag_of(x.json()) == "video"@,
        member(x.json(), "title"@) == Some(x.title.json()),
        member(x.json(), "video_url"@) == Some(x.video_url.json()),
        member(x.json(), "thumbnail_url"@) == Some(x.thumbnail_url.json()),
        member(x.json(), "alt_text"@) == Some(x.alt_text.json()),
        member(x.json(), "description"@) == opt_json(x.description),
        member(x.json(), "title_url"@) == opt_json(x.title_url),
        member(x.json(), "provider_icon_url"@) == opt_json(x.provider_icon_url),
        member(x.json(), "provider_name"@) == opt_json(x.provider_name),
        member(x.json(), "author_name"@) == opt_json(x.author_name),
        member(x.json(), "block_id"@) == opt_json(x.block_id),
        forall|k: Seq<char>|
            (#[trigger] member(x.json(), k)) is Some ==> k == "type"@ || k == "title"@
                || k == "video_url"@ || k == "thumbnail_url"@ || k == "alt_text"@
                || k == "description"@ || k == "title_url"@ || k == "provider_icon_url"@
                || k == "provider_name"@ || k == "author_name"@ || k == "block_id"@,
{
    reveal_strlit("type");
    reveal_strlit("title");
    reveal_strlit("video_url");
    reveal_strlit("thumbnail_url");
    reveal_strlit("alt_text");
    reveal_strlit("description");
    reveal_strlit("title_url");
    reveal_strlit("provider_icon_url");
    reveal_strlit("provider_name");
    reveal_strlit("author_name");
    reveal_strlit("block_id");
    assert("type"@.len() == 4);
    assert("title"@.len() == 5);
    assert("video_url"@.len() == 9);
    assert("thumbnail_url"@.len() == 13);
    assert("alt_text"@.len() == 8);
    assert("description"@.len() == 11);
    assert("title_url"@.len() == 9);
    assert("provider_icon_url"@.len() == 17);
    assert("provider_name"@.len() == 13);
    assert("author_name"@.len() == 11);
    assert("block_id"@.len() == 8);
    assert("video_url"@[0] != "title_url"@[0]);
    assert("thumbnail_url"@[0] != "provider_name"@[0]);
    assert("alt_text"@[0] != "block_id"@[0]);
    assert("description"@[0] != "author_name"@[0]);
}

/// Of a video block whose texts are within their limits: a URL that is no
/// `https` URL is refused with a message that names its field, the first
/// such field where there are several; with `https` URLs throughout the
/// block is accepted.
pub proof fn lemma_video_urls(b: Video)
    requires
        byte_len(b.title.text@) <= MAX_VIDEO_TEXT_LEN,
        b.description matches Some(description) ==> byte_len(description.text@)
            <= MAX_VIDEO_TEXT_LEN,
        !blank(b.alt_text@),
    ensures
        !https(b.video_url@) ==> b.violation() == Some(
            "video block video_url must use https scheme"@,
        ),
        https(b.video_url@) && !https(b.thumbnail_url@) ==> b.violation() == Some(
            "video block thumbnail_url must use https scheme"@,
        ),
        https(b.video_url@) && https(b.thumbnail_url@) && (b.title_url matches Some(url) && !https(
            url@,
        )) ==> b.violation() == Some("video block title_url must use https scheme"@),
        https(b.video_url@) && https(b.thumbnail_url@) && (b.title_url matches Some(url) ==> https(
            url@,
        )) ==> b.violation() is None,
{
}

/// A title or a description that is longer than the limit is refused with a
/// message that cites the limit.
pub proof fn lemma_video_limit(b: Video)
    ensures
        byte_len(b.title.text@) > MAX_VIDEO_TEXT_LEN ==> b.violation() == Some(
            "video block title cannot exceed 200 characters"@,
        ),
        byte_len(b.title.text@) <= MAX_VIDEO_TEXT_LEN && (b.description matches Some(description)
            && byte_len(description.text@) > MAX_VIDEO_TEXT_LEN) ==> b.violation() == Some(
            "video block description cannot exceed 200 characters"@,
        ),
{
    lemma_numerals();
    reveal_strlit("video block title cannot exceed ");
    reveal_strlit("200");
    reveal_strlit(" characters");
    reveal_strlit("video block title cannot exceed 200 characters");
    assert(
        citing(
            "video block title cannot exceed "@,
            200,
            " characters"@,
        ) =~= "video block title cannot exceed 200 characters"@
    );
    reveal_strlit("video block description cannot exceed ");
    reveal_strlit("200");
    reveal_strlit(" characters");
    reveal_strlit("video block description cannot exceed 200 characters");
    assert(
        citing(
            "video block description cannot exceed "@,
            200,
            " characters"@,
        ) =~= "video block description cannot exceed 200 characters"@
    );
}

} // verus!
