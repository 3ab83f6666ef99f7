//! What a context block holds.

use vstd::prelude::*;
use vstd::std_specs::convert::FromSpecImpl;
use vstd::string::StringExecFns;
use crate::blocks::text::{MrkdwnText, PlainText, lemma_mrkdwn_text_shape, lemma_plain_text_shape};
use crate::encode::{ToJson, put, put_tag, tag_of};
use crate::json::{Json, json_object, map_new, member, no_members};
use super::common::BlockElement;

verus! {

/// A small image.
#[derive(Debug, Clone, PartialEq)]
pub struct ContextImage {
    /// Where the image is.
    pub image_url: String,
    /// What the image shows, in words.
    pub alt_text: String,
}

impl ContextImage {
    /// A context image of the given fields.
    pub fn new(image_url: &str, alt_text: &str) -> (r: Self)
        ensures
            r.image_url@ == image_url@,
            r.alt_text@ == alt_text@,
    {
        ContextImage {
            image_url: String::from_str(image_url),
            alt_text: String::from_str(alt_text),
        }
    }
}

impl ToJson for ContextImage {
    open spec fn json(&self) -> Json {
        let m = no_members().insert("type"@, Json::Str("image"@));
        let m = m.insert("image_url"@, self.image_url.json());
        let m = m.insert("alt_text"@, self.alt_text.json());
        Json::Object(m)
    }

    fn to_value(&self) -> (v: serde_json::Value) {
        let mut m = map_new();
        put_tag(&mut m, "image");
        put(&mut m, "image_url", &self.image_url);
        put(&mut m, "alt_text", &self.alt_text);
        json_object(m)
    }
}

impl From<ContextImage> for BlockElement {
    fn from(value: ContextImage) -> (r: Self)
        ensures
            r.json() == value.json(),
            tag_of(r.json()) == "image"@,
    {
        proof {
            lemma_context_image_shape(value);
        }
        BlockElement(value.to_value())
    }
}

impl FromSpecImpl<ContextImage> for BlockElement {
    open spec fn obeys_from_spec() -> bool {
        false
    }

    open spec fn from_spec(v: ContextImage) -> Self {
        arbitrary()
    }
}

/// The members of a context image: the tag `image`, each required field, and
/// nothing else.
pub proof fn lemma_context_image_shape(x: ContextImage)
    ensures
        tag_of(x.json()) == "image"@,
        member(x.json(), "image_url"@) == Some(x.image_url.json()),
        member(x.json(), "alt_text"@) == Some(x.alt_text.json()),
        forall|k: Seq<char>|
            (#[trigger] member(x.json(), k)) is Some ==> k == "type"@ || k == "image_url"@
                || k == "alt_text"@,
{
    reveal_strlit("type");
    reveal_strlit("image_url");
    reveal_strlit("alt_text");
    assert("type"@.len() == 4);
    assert("image_url"@.len() == 9);
    assert("alt_text"@.len() == 8);
}

/// What a context block holds: a text of either kind, or an image. Each is
/// written as itself, with its own tag.
#[derive(Debug, Clone, PartialEq)]
pub enum ContextElement {
    PlainText(PlainText),
    Mrkdwn(MrkdwnText),
    Image(ContextImage),
}

impl ContextElement {
    /// A plain text without options.
    pub fn plain_text(text: &str) -> (r: Self)
        ensures
            r matches ContextElement::PlainText(t) && t.text@ == text@ && t.emoji is None,
    {
        ContextElement::PlainText(PlainText::new(text))
    }

    /// A markup text without options.
    pub fn mrkdwn(text: &str) -> (r: Self)
        ensures
            r matches ContextElement::Mrkdwn(t) && t.text@ == text@ && t.verbatim is None,
    {
        ContextElement::Mrkdwn(MrkdwnText::new(text))
    }

    /// An image.
    pub fn image(image_url: &str, alt_text: &str) -> (r: Self)
        ensures
            r matches ContextElement::Image(i) && i.image_url@ == image_url@ && i.alt_text@
                == alt_text@,
    {
        ContextElement::Image(ContextImage::new(image_url, alt_text))
    }
}

impl ToJson for ContextElement {
    open spec fn json(&self) -> Json {
        match self {
            ContextElement::PlainText(t) => t.json(),
            ContextElement::Mrkdwn(t) => t.json(),
            ContextElement::Image(i) => i.json(),
        }
    }

    fn to_value(&self) -> (v: serde_json::Value) {
        match self {
            ContextElement::PlainText(t) => t.to_value(),
            ContextElement::Mrkdwn(t) => t.to_value(),
            ContextElement::Image(i) => i.to_value(),
        }
    }
}

/// A context element carries the tag of what it holds.
pub proof fn lemma_context_element_tag(x: ContextElement)
    ensures
        tag_of(x.json()) == (match x {
            ContextElement::PlainText(_) => "plain_text"@,
            ContextElement::Mrkdwn(_) => "mrkdwn"@,
            ContextElement::Image(_) => "image"@,
        }),
{
    match x {
        ContextElement::PlainText(t) => lemma_plain_text_shape(t),
        ContextElement::Mrkdwn(t) => lemma_mrkdwn_text_shape(t),
        ContextElement::Image(i) => lemma_context_image_shape(i),
    }
}

/// The image element, under the name that it has outside context blocks.
pub type ImageElement = ContextImage;

} // verus!
