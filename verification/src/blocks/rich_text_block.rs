//! The rich-text block.

use vstd::prelude::*;
use vstd::string::StringExecFns;
use crate::blocks::rich_text::RichTextElement;
use crate::blocks::{Block, BuildError};
use crate::encode::{ToJson, opt_json, put, put_opt, put_tag, tag_of, with_opt};
use crate::json::{Json, json_object, map_new, member, no_members};

verus! {

/// A block of rich text.
#[derive(Debug, Clone, PartialEq)]
pub struct RichText {
    /// The content, in order.
    pub elements: Vec<RichTextElement>,
    /// The identifier of the block within a message.
    pub block_id: Option<String>,
}

impl RichText {
    /// A rich-text block with its required fields; every optional field is
    /// unset.
    pub fn new(elements: Vec<RichTextElement>) -> (r: Self)
        ensures
            r.elements == elements,
            r.block_id is None,
    {
        RichText { elements, block_id: None }
    }

    /// Sets `block_id`: the identifier of the block within a message.
    pub fn block_id(self, id: &str) -> (r: Self)
        ensures
            r.block_id matches Some(s) && s@ == id@,
            r == (RichText { block_id: r.block_id, ..self }),
    {
        RichText { block_id: Some(String::from_str(id)), ..self }
    }

    /// The first rule that the block breaks, if it breaks one: it holds at
    /// least one element.
    pub open spec fn violation(&self) -> Option<Seq<char>> {
        if self.elements@.len() == 0 {
            Some("rich_text block requires at least one element"@)
        } else {
            None
        }
    }

    /// Holds the block to its rules: the first rule that it breaks, if it
    /// breaks one.
    pub fn validate(&self) -> (r: Result<(), BuildError>)
        ensures
            match r {
                Ok(_) => self.violation() is None,
                Err(e) => self.violation() == Some(e@),
            },
    {
        if self.elements.len() == 0 {
            return Err(BuildError::message("rich_text block requires at least one element"));
        }
        Ok(())
    }

    /// Finishes the block: the block as it stands where it breaks no rule,
    /// else the first rule that it breaks.
    pub fn build(self) -> (r: Result<Block, BuildError>)
        ensures
            match r {
                Ok(b) => self.violation() is None && b == Block::RichText(self),
                Err(e) => self.violation() == Some(e@),
            },
    {
        match self.validate() {
            Ok(_) => Ok(Block::RichText(self)),
            Err(e) => Err(e),
        }
    }
}

impl ToJson for RichText {
    open spec fn json(&self) -> Json {
        let m = no_members().insert("type"@, Json::Str("rich_text"@));
        let m = m.insert("elements"@, self.elements.json());
        let m = with_opt(m, "block_id"@, self.block_id);
        Json::Object(m)
    }

    fn to_value(&self) -> (v: serde_json::Value) {
        let mut m = map_new();
        put_tag(&mut m, "rich_text");
        put(&mut m, "elements", &self.elements);
        put_opt(&mut m, "block_id", &self.block_id);
        json_object(m)
    }
}

/// The members of a rich-text block: the tag `rich_text`, each required
/// field, each optional field that is set, and nothing else.
pub proof fn lemma_rich_text_shape(x: RichText)
    ensures
        tag_of(x.json()) == "rich_text"@,
        member(x.json(), "elements"@) == Some(x.elements.json()),
        member(x.json(), "block_id"@) == opt_json(x.block_id),
        forall|k: Seq<char>|
            (#[trigger] member(x.json(), k)) is Some ==> k == "type"@ || k == "elements"@
                || k == "block_id"@,
{
    reveal_strlit("type");
    reveal_strlit("elements");
    reveal_strlit("block_id");
    assert("type"@.len() == 4);
    assert("elements"@.len() == 8);
    assert("block_id"@.len() == 8);
    assert("elements"@[0] != "block_id"@[0]);
}

/// A rich-text block without elements is refused, with a message that asks
/// for at least one element; any other is accepted.
pub proof fn lemma_rich_text_empty(b: RichText)
    ensures
        b.elements@.len() == 0 ==> b.violation() == Some(
            "rich_text block requires at least one element"@,
        ),
        b.elements@.len() > 0 ==> b.violation() is None,
{
}

} // verus!
