//! The context-actions block.

use vstd::prelude::*;
use vstd::string::StringExecFns;
use crate::blocks::MAX_CONTEXT_ACTIONS_ELEMENTS;
use crate::blocks::elements::ContextActionElement;
use crate::blocks::{Block, BuildError};
use crate::encode::{ToJson, opt_json, put, put_opt, put_tag, tag_of, with_opt};
use crate::json::{Json, json_object, map_new, member, no_members};
use crate::strings::{citing, lemma_numerals, with_number};

verus! {

/// A line of small buttons.
#[derive(Debug, Clone, PartialEq)]
pub struct ContextActions {
    /// The buttons, in order.
    pub elements: Vec<ContextActionElement>,
    /// The identifier of the block within a message.
    pub block_id: Option<String>,
}

impl ContextActions {
    /// A context-actions block with its required fields; every optional field
    /// is unset.
    pub fn new(elements: Vec<ContextActionElement>) -> (r: Self)
        ensures
            r.elements == elements,
            r.block_id is None,
    {
        ContextActions { elements, block_id: None }
    }

    /// Sets `block_id`: the identifier of the block within a message.
    pub fn block_id(self, id: &str) -> (r: Self)
        ensures
            r.block_id matches Some(s) && s@ == id@,
            r == (ContextActions { block_id: r.block_id, ..self }),
    {
        ContextActions { block_id: Some(String::from_str(id)), ..self }
    }

    /// The first rule that the block breaks, if it breaks one: it holds at
    /// least one element and at most `MAX_CONTEXT_ACTIONS_ELEMENTS`.
    pub open spec fn violation(&self) -> Option<Seq<char>> {
        if self.elements@.len() == 0 {
            Some("context_actions block requires at least one element"@)
        } else if self.elements@.len() > MAX_CONTEXT_ACTIONS_ELEMENTS {
            Some(
                citing(
                    "context_actions block supports at most "@,
                    MAX_CONTEXT_ACTIONS_ELEMENTS as nat,
                    " elements"@,
                ),
            )
        } else {
            None
        }
    }

    /// Holds the block to its rules: the first rule that it breaks, if it
    /// breaks one.
    pub fn validate(&self) -> (r: Result<(), BuildError>)
        ensures
            match r {
                Ok(_) => self.violation() is None,
                Err(e) => self.violation() == Some(e@),
            },
    {
        if self.elements.len() == 0 {
            return Err(BuildError::message("context_actions block requires at least one element"));
        }
        if self.elements.len() > MAX_CONTEXT_ACTIONS_ELEMENTS {
            return Err(
                BuildError::Message(
                    with_number(
                        "context_actions block supports at most ",
                        MAX_CONTEXT_ACTIONS_ELEMENTS,
                        " elements",
                    ),
                ),
            );
        }
        Ok(())
    }

    /// Finishes the block: the block as it stands where it breaks no rule,
    /// else the first rule that it breaks.
    pub fn build(self) -> (r: Result<Block, BuildError>)
        ensures
            match r {
                Ok(b) => self.violation() is None && b == Block::ContextActions(self),
                Err(e) => self.violation() == Some(e@),
            },
    {
        match self.validate() {
            Ok(_) => Ok(Block::ContextActions(self)),
            Err(e) => Err(e),
        }
    }
}

impl ToJson for ContextActions {
    open spec fn json(&self) -> Json {
        let m = no_members().insert("type"@, Json::Str("context_actions"@));
        let m = m.insert("elements"@, self.elements.json());
        let m = with_opt(m, "block_id"@, self.block_id);
        Json::Object(m)
    }

    fn to_value(&self) -> (v: serde_json::Value) {
        let mut m = map_new();
        put_tag(&mut m, "context_actions");
        put(&mut m, "elements", &self.elements);
        put_opt(&mut m, "block_id", &self.block_id);
        json_object(m)
    }
}

/// The members of a context-actions block: the tag `context_actions`, each
/// required field, each optional field that is set, and nothing else.
pub proof fn lemma_context_actions_shape(x: ContextActions)
    ensures
        tag_of(x.json()) == "context_actions"@,
        member(x.json(), "elements"@) == Some(x.elements.json()),
        member(x.json(), "block_id"@) == opt_json(x.block_id),
        forall|k: Seq<char>|
            (#[trigger] member(x.json(), k)) is Some ==> k == "type"@ || k == "elements"@
                || k == "block_id"@,
{
    reveal_strlit("type");
    reveal_strlit("elements");
    reveal_strlit("block_id");
    assert("type"@.len() == 4);
    assert("elements"@.len() == 8);
    assert("block_id"@.len() == 8);
    assert("elements"@[0] != "block_id"@[0]);
}

/// A context-actions block without elements is refused, with a message that asks for at
/// least one element.
pub proof fn lemma_context_actions_empty(b: ContextActions)
    requires
        b.elements@.len() == 0,
    ensures
        b.violation() == Some("context_actions block requires at least one element"@),
{
}

/// A context-actions block with one element more than the most is refused with a message
/// that cites the most; one with exactly the most is accepted.
pub proof fn lemma_context_actions_limit(b: ContextActions)
    ensures
        b.elements@.len() == MAX_CONTEXT_ACTIONS_ELEMENTS + 1 ==> b.violation() == Some(
            "context_actions block supports at most 5 elements"@,
        ),
        b.elements@.len() == MAX_CONTEXT_ACTIONS_ELEMENTS ==> b.violation() is None,
{
    lemma_numerals();
    reveal_strlit("context_actions block supports at most ");
    reveal_strlit("5");
    reveal_strlit(" elements");
    reveal_strlit("context_actions block supports at most 5 elements");
    assert(
        citing(
            "context_actions block supports at most "@,
            5,
            " elements"@,
        ) =~= "context_actions block supports at most 5 elements"@
    );
}

} // verus!
