//! Text objects: plain text, markup text, and the union of the two.

use vstd::prelude::*;
use vstd::std_specs::convert::FromSpecImpl;
use vstd::string::StringExecFns;
use crate::encode::{ToJson, opt_json, put, put_opt, put_tag, tag_of, with_opt};
use crate::json::{Json, json_object, map_new, member, no_members};

verus! {

/// Text that is shown as it is written.
#[derive(Debug, Clone, PartialEq, Eq)]
pub struct PlainText {
    /// The text.
    pub text: String,
    /// Whether emoji names in the text are shown as emoji.
    pub emoji: Option<bool>,
}

impl PlainText {
    /// A plain text without options.
    pub fn new(text: &str) -> (r: Self)
        ensures
            r.text@ == text@,
            r.emoji is None,
    {
        PlainText { text: String::from_str(text), emoji: None }
    }

    /// Says whether emoji names in the text are shown as emoji.
    pub fn emoji(self, enable: bool) -> (r: Self)
        ensures
            r == (PlainText { emoji: Some(enable), ..self }),
    {
        PlainText { emoji: Some(enable), ..self }
    }
}

impl ToJson for PlainText {
    open spec fn json(&self) -> Json {
        let m = no_members().insert("type"@, Json::Str("plain_text"@));
        let m = m.insert("text"@, self.text.json());
        let m = with_opt(m, "emoji"@, self.emoji);
        Json::Object(m)
    }

    fn to_value(&self) -> (v: serde_json::Value) {
        let mut m = map_new();
        put_tag(&mut m, "plain_text");
        put(&mut m, "text", &self.text);
        put_opt(&mut m, "emoji", &self.emoji);
        json_object(m)
    }
}

/// The members of a plain text: the tag `plain_text`, each required field,
/// each optional field that is set, and nothing else.
pub proof fn lemma_plain_text_shape(x: PlainText)
    ensures
        tag_of(x.json()) == "plain_text"@,
        member(x.json(), "text"@) == Some(x.text.json()),
        member(x.json(), "emoji"@) == opt_json(x.emoji),
        forall|k: Seq<char>|
            (#[trigger] member(x.json(), k)) is Some ==> k == "type"@ || k == "text"@
                || k == "emoji"@,
{
    reveal_strlit("type");
    reveal_strlit("text");
    reveal_strlit("emoji");
    assert("type"@.len() == 4);
    assert("text"@.len() == 4);
    assert("emoji"@.len() == 5);
    assert("type"@[1] != "text"@[1]);
}

impl From<&str> for PlainText {
    fn from(value: &str) -> (r: Self)
        ensures
            r.text@ == value@,
            r.emoji is None,
    {
        PlainText::new(value)
    }
}

impl FromSpecImpl<&str> for PlainText {
    open spec fn obeys_from_spec() -> bool {
        false
    }

    open spec fn from_spec(v: &str) -> Self {
        arbitrary()
    }
}

impl From<String> for PlainText {
    fn from(value: String) -> (r: Self) {
        PlainText { text: value, emoji: None }
    }
}

impl FromSpecImpl<String> for PlainText {
    open spec fn obeys_from_spec() -> bool {
        true
    }

    open spec fn from_spec(v: String) -> Self {
        PlainText { text: v, emoji: None }
    }
}

/// Text in the platform's markup.
#[derive(Debug, Clone, PartialEq, Eq)]
pub struct MrkdwnText {
    /// The text.
    pub text: String,
    /// Whether links and names in the text are left as written.
    pub verbatim: Option<bool>,
}

impl MrkdwnText {
    /// A markup text without options.
    pub fn new(text: &str) -> (r: Self)
        ensures
            r.text@ == text@,
            r.verbatim is None,
    {
        MrkdwnText { text: String::from_str(text), verbatim: None }
    }

    /// Says whether links and names in the text are left as written.
    pub fn verbatim(self, enable: bool) -> (r: Self)
        ensures
            r == (MrkdwnText { verbatim: Some(enable), ..self }),
    {
        MrkdwnText { verbatim: Some(enable), ..self }
    }
}

impl ToJson for MrkdwnText {
    open spec fn json(&self) -> Json {
        let m = no_members().insert("type"@, Json::Str("mrkdwn"@));
        let m = m.insert("text"@, self.text.json());
        let m = with_opt(m, "verbatim"@, self.verbatim);
        Json::Object(m)
    }

    fn to_value(&self) -> (v: serde_json::Value) {
        let mut m = map_new();
        put_tag(&mut m, "mrkdwn");
        put(&mut m, "text", &self.text);
        put_opt(&mut m, "verbatim", &self.verbatim);
        json_object(m)
    }
}

/// The members of a markup text: the tag `mrkdwn`, each required field, each
/// optional field that is set, and nothing else.
pub proof fn lemma_mrkdwn_text_shape(x: MrkdwnText)
    ensures
        tag_of(x.json()) == "mrkdwn"@,
        member(x.json(), "text"@) == Some(x.text.json()),
        member(x.json(), "verbatim"@) == opt_json(x.verbatim),
        forall|k: Seq<char>|
            (#[trigger] member(x.json(), k)) is Some ==> k == "type"@ || k == "text"@
                || k == "verbatim"@,
{
    reveal_strlit("type");
    reveal_strlit("text");
    reveal_strlit("verbatim");
    assert("type"@.len() == 4);
    assert("text"@.len() == 4);
    assert("verbatim"@.len() == 8);
    assert("type"@[1] != "text"@[1]);
}

impl From<&str> for MrkdwnText {
    fn from(value: &str) -> (r: Self)
        ensures
            r.text@ == value@,
            r.verbatim is None,
    {
        MrkdwnText::new(value)
    }
}

impl FromSpecImpl<&str> for MrkdwnText {
    open spec fn obeys_from_spec() -> bool {
        false
    }

    open spec fn from_spec(v: &str) -> Self {
        arbitrary()
    }
}

impl From<String> for MrkdwnText {
    fn from(value: String) -> (r: Self) {
        MrkdwnText { text: value, verbatim: None }
    }
}

impl FromSpecImpl<String> for MrkdwnText {
    open spec fn obeys_from_spec() -> bool {
        true
    }

    open spec fn from_spec(v: String) -> Self {
        MrkdwnText { text: v, verbatim: None }
    }
}

/// A text object of either kind. It is written as the text that it holds,
/// with that text's own tag.
#[derive(Debug, Clone, PartialEq, Eq)]
pub enum TextObject {
    Plain(PlainText),
    Mrkdwn(MrkdwnText),
}

impl TextObject {
    /// The text of the object, whatever its kind.
    pub open spec fn text(&self) -> Seq<char> {
        match self {
            TextObject::Plain(t) => t.text@,
            TextObject::Mrkdwn(t) => t.text@,
        }
    }
}

impl ToJson for TextObject {
    open spec fn json(&self) -> Json {
        match self {
            TextObject::Plain(t) => t.json(),
            TextObject::Mrkdwn(t) => t.json(),
        }
    }

    fn to_value(&self) -> (v: serde_json::Value) {
        match self {
            TextObject::Plain(t) => t.to_value(),
            TextObject::Mrkdwn(t) => t.to_value(),
        }
    }
}

impl From<PlainText> for TextObject {
    fn from(value: PlainText) -> (r: Self) {
        TextObject::Plain(value)
    }
}

impl FromSpecImpl<PlainText> for TextObject {
    open spec fn obeys_from_spec() -> bool {
        true
    }

    open spec fn from_spec(v: PlainText) -> Self {
        TextObject::Plain(v)
    }
}

impl From<MrkdwnText> for TextObject {
    fn from(value: MrkdwnText) -> (r: Self) {
        TextObject::Mrkdwn(value)
    }
}

impl FromSpecImpl<MrkdwnText> for TextObject {
    open spec fn obeys_from_spec() -> bool {
        true
    }

    open spec fn from_spec(v: MrkdwnText) -> Self {
        TextObject::Mrkdwn(v)
    }
}

impl From<&str> for TextObject {
    /// A bare string is markup text.
    fn from(value: &str) -> (r: Self)
        ensures
            r matches TextObject::Mrkdwn(t) && t.text@ == value@ && t.verbatim is None,
    {
        TextObject::Mrkdwn(MrkdwnText::new(value))
    }
}

impl FromSpecImpl<&str> for TextObject {
    open spec fn obeys_from_spec() -> bool {
        false
    }

    open spec fn from_spec(v: &str) -> Self {
        arbitrary()
    }
}

impl From<String> for TextObject {
    /// A bare string is markup text.
    fn from(value: String) -> (r: Self) {
        TextObject::Mrkdwn(MrkdwnText { text: value, verbatim: None })
    }
}

impl FromSpecImpl<String> for TextObject {
    open spec fn obeys_from_spec() -> bool {
        true
    }

    open spec fn from_spec(v: String) -> Self {
        TextObject::Mrkdwn(MrkdwnText { text: v, verbatim: None })
    }
}

/// A text object carries the tag of the text that it holds, and that text.
pub proof fn lemma_text_object_shape(x: TextObject)
    ensures
        tag_of(x.json()) == (match x {
            TextObject::Plain(_) => "plain_text"@,
            TextObject::Mrkdwn(_) => "mrkdwn"@,
        }),
        member(x.json(), "text"@) == Some(Json::Str(x.text())),
{
    match x {
        TextObject::Plain(t) => lemma_plain_text_shape(t),
        TextObject::Mrkdwn(t) => lemma_mrkdwn_text_shape(t),
    }
}

} // verus!
