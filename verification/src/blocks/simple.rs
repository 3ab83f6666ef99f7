//! The blocks with the fewest parts: divider, markdown and header.

use vstd::prelude::*;
use vstd::string::StringExecFns;
use crate::blocks::MAX_HEADER_TEXT_LEN;
use crate::blocks::text::PlainText;
use crate::blocks::{Block, BuildError};
use crate::encode::{ToJson, opt_json, put, put_opt, put_tag, tag_of, with_opt};
use crate::json::{Json, json_object, map_new, member, no_members};
use crate::strings::{byte_len, citing, lemma_numerals, with_number};

verus! {

/// A line between blocks.
#[derive(Debug, Clone, PartialEq, Eq)]
pub struct Divider {
    /// The identifier of the block within a message.
    pub block_id: Option<String>,
}

impl Divider {
    /// A divider.
    pub fn new() -> (r: Self)
        ensures
            r.block_id is None,
    {
        Divider { block_id: None }
    }

    /// Sets `block_id`: the identifier of the block within a message.
    pub fn block_id(self, id: &str) -> (r: Self)
        ensures
            r.block_id matches Some(s) && s@ == id@,
            r == (Divider { block_id: r.block_id, ..self }),
    {
        Divider { block_id: Some(String::from_str(id)), ..self }
    }

    /// The first rule that the block breaks: a divider breaks none.
    pub open spec fn violation(&self) -> Option<Seq<char>> {
        None
    }

    /// Finishes the block. No rule is laid on a divider, so this never fails.
    pub fn build(self) -> (r: Result<Block, BuildError>)
        ensures
            r == Ok::<Block, BuildError>(Block::Divider(self)),
    {
        Ok(Block::Divider(self))
    }
}

impl ToJson for Divider {
    open spec fn json(&self) -> Json {
        let m = no_members().insert("type"@, Json::Str("divider"@));
        let m = with_opt(m, "block_id"@, self.block_id);
        Json::Object(m)
    }

    fn to_value(&self) -> (v: serde_json::Value) {
        let mut m = map_new();
        put_tag(&mut m, "divider");
        put_opt(&mut m, "block_id", &self.block_id);
        json_object(m)
    }
}

/// The members of a divider: the tag `divider`, each optional field that is
/// set, and nothing else.
pub proof fn lemma_divider_shape(x: Divider)
    ensures
        tag_of(x.json()) == "divider"@,
        member(x.json(), "block_id"@) == opt_json(x.block_id),
        forall|k: Seq<char>|
            (#[trigger] member(x.json(), k)) is Some ==> k == "type"@ || k == "block_id"@,
{
    reveal_strlit("type");
    reveal_strlit("block_id");
    assert("type"@.len() == 4);
    assert("block_id"@.len() == 8);
}

/// A block of markdown.
#[derive(Debug, Clone, PartialEq, Eq)]
pub struct Markdown {
    /// The markdown.
    pub text: String,
    /// The identifier of the block within a message.
    pub block_id: Option<String>,
}

impl Markdown {
    /// A markdown block with its required fields; every optional field is
    /// unset.
    pub fn new(text: &str) -> (r: Self)
        ensures
            r.text@ == text@,
            r.block_id is None,
    {
        Markdown { text: String::from_str(text), block_id: None }
    }

    /// Sets `block_id`: the identifier of the block within a message.
    pub fn block_id(self, id: &str) -> (r: Self)
        ensures
            r.block_id matches Some(s) && s@ == id@,
            r == (Markdown { block_id: r.block_id, ..self }),
    {
        Markdown { block_id: Some(String::from_str(id)), ..self }
    }

    /// The first rule that the block breaks: a markdown block breaks none.
    pub open spec fn violation(&self) -> Option<Seq<char>> {
        None
    }

    /// Finishes the block. No rule is laid on a markdown block, so this never fails.
    pub fn build(self) -> (r: Result<Block, BuildError>)
        ensures
            r == Ok::<Block, BuildError>(Block::Markdown(self)),
    {
        Ok(Block::Markdown(self))
    }
}

impl ToJson for Markdown {
    open spec fn json(&self) -> Json {
        let m = no_members().insert("type"@, Json::Str("markdown"@));
        let m = m.insert("text"@, self.text.json());
        let m = with_opt(m, "block_id"@, self.block_id);
        Json::Object(m)
    }

    fn to_value(&self) -> (v: serde_json::Value) {
        let mut m = map_new();
        put_tag(&mut m, "markdown");
        put(&mut m, "text", &self.text);
        put_opt(&mut m, "block_id", &self.block_id);
        json_object(m)
    }
}

/// The members of a markdown block: the tag `markdown`, each required field,
/// each optional field that is set, and nothing else.
pub proof fn lemma_markdown_shape(x: Markdown)
    ensures
        tag_of(x.json()) == "markdown"@,
        member(x.json(), "text"@) == Some(x.text.json()),
        member(x.json(), "block_id"@) == opt_json(x.block_id),
        forall|k: Seq<char>|
            (#[trigger] member(x.json(), k)) is Some ==> k == "type"@ || k == "text"@
                || k == "block_id"@,
{
    reveal_strlit("type");
    reveal_strlit("text");
    reveal_strlit("block_id");
    assert("type"@.len() == 4);
    assert("text"@.len() == 4);
    assert("block_id"@.len() == 8);
    assert("type"@[1] != "text"@[1]);
}

/// A heading, in plain text.
#[derive(Debug, Clone, PartialEq, Eq)]
pub struct Header {
    /// The heading.
    pub text: PlainText,
    /// The identifier of the block within a message.
    pub block_id: Option<String>,
}

impl Header {
    /// A header with its required fields; every optional field is unset.
    pub fn new(text: PlainText) -> (r: Self)
        ensures
            r.text == text,
            r.block_id is None,
    {
        Header { text, block_id: None }
    }

    /// Sets `block_id`: the identifier of the block within a message.
    pub fn block_id(self, id: &str) -> (r: Self)
        ensures
            r.block_id matches Some(s) && s@ == id@,
            r == (Header { block_id: r.block_id, ..self }),
    {
        Header { block_id: Some(String::from_str(id)), ..self }
    }

    /// The first rule that the block breaks, if it breaks one: the text is
    /// no longer than `MAX_HEADER_TEXT_LEN` bytes.
    pub open spec fn violation(&self) -> Option<Seq<char>> {
        if byte_len(self.text.text@) > MAX_HEADER_TEXT_LEN {
            Some(
                citing(
                    "header block text cannot exceed "@,
                    MAX_HEADER_TEXT_LEN as nat,
                    " characters"@,
                ),
            )
        } else {
            None
        }
    }

    /// Holds the block to its rules: the first rule that it breaks, if it
    /// breaks one.
    pub fn validate(&self) -> (r: Result<(), BuildError>)
        ensures
            match r {
                Ok(_) => self.violation() is None,
                Err(e) => self.violation() == Some(e@),
            },
    {
        if self.text.text.as_str().len() > MAX_HEADER_TEXT_LEN {
            return Err(
                BuildError::Message(
                    with_number(
                        "header block text cannot exceed ",
                        MAX_HEADER_TEXT_LEN,
                        " characters",
                    ),
                ),
            );
        }
        Ok(())
    }

    /// Finishes the block: the block as it stands where it breaks no rule,
    /// else the first rule that it breaks.
    pub fn build(self) -> (r: Result<Block, BuildError>)
        ensures
            match r {
                Ok(b) => self.violation() is None && b == Block::Header(self),
                Err(e) => self.violation() == Some(e@),
            },
    {
        match self.validate() {
            Ok(_) => Ok(Block::Header(self)),
            Err(e) => Err(e),
        }
    }
}

impl ToJson for Header {
    open spec fn json(&self) -> Json {
        let m = no_members().insert("type"@, Json::Str("header"@));
        let m = m.insert("text"@, self.text.json());
        let m = with_opt(m, "block_id"@, self.block_id);
        Json::Object(m)
    }

    fn to_value(&self) -> (v: serde_json::Value) {
        let mut m = map_new();
        put_tag(&mut m, "header");
        put(&mut m, "text", &self.text);
        put_opt(&mut m, "block_id", &self.block_id);
        json_object(m)
    }
}

/// The members of a header: the tag `header`, each required field, each
/// optional field that is set, and nothing else.
pub proof fn lemma_header_shape(x: Header)
    ensures
        tag_of(x.json()) == "header"@,
        member(x.json(), "text"@) == Some(x.text.json()),
        member(x.json(), "block_id"@) == opt_json(x.block_id),
        forall|k: Seq<char>|
            (#[trigger] member(x.json(), k)) is Some ==> k == "type"@ || k == "text"@
                || k == "block_id"@,
{
    reveal_strlit("type");
    reveal_strlit("text");
    reveal_strlit("block_id");
    assert("type"@.len() == 4);
    assert("text"@.len() == 4);
    assert("block_id"@.len() == 8);
    assert("type"@[1] != "text"@[1]);
}

/// A header whose text is longer than the limit is refused with a message
/// that cites the limit; any other header is accepted.
pub proof fn lemma_header_limit(b: Header)
    ensures
        byte_len(b.text.text@) > MAX_HEADER_TEXT_LEN ==> b.violation() == Some(
            "header block text cannot exceed 150 characters"@,
        ),
        byte_len(b.text.text@) <= MAX_HEADER_TEXT_LEN ==> b.violation() is None,
{
    lemma_numerals();
    reveal_strlit("header block text cannot exceed ");
    reveal_strlit("150");
    reveal_strlit(" characters");
    reveal_strlit("header block text cannot exceed 150 characters");
    assert(
        citing(
            "header block text cannot exceed "@,
            150,
            " characters"@,
        ) =~= "header block text cannot exceed 150 characters"@
    );
}

} // verus!
