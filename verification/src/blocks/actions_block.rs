//! The actions block.

use vstd::prelude::*;
use vstd::string::StringExecFns;
use crate::blocks::MAX_ACTIONS_ELEMENTS;
use crate::blocks::elements::BlockElement;
use crate::blocks::elements::rules::{element_violation, first_violation, validate_elements};
use crate::blocks::{Block, BuildError};
use crate::encode::json_each;
use crate::encode::{ToJson, opt_json, put, put_opt, put_tag, tag_of, with_opt};
use crate::json::{Json, json_object, map_new, member, no_members};
use crate::strings::{citing, lemma_numerals, with_number};

verus! {

/// A row of interactive elements.
#[derive(Debug, Clone, PartialEq)]
pub struct Actions {
    /// The elements, in order.
    pub elements: Vec<BlockElement>,
    /// The identifier of the block within a message.
    pub block_id: Option<String>,
}

impl Actions {
    /// A actions block with its required fields; every optional field is
    /// unset.
    pub fn new(elements: Vec<BlockElement>) -> (r: Self)
        ensures
            r.elements == elements,
            r.block_id is None,
    {
        Actions { elements, block_id: None }
    }

    /// Sets `block_id`: the identifier of the block within a message.
    pub fn block_id(self, id: &str) -> (r: Self)
        ensures
            r.block_id matches Some(s) && s@ == id@,
            r == (Actions { block_id: r.block_id, ..self }),
    {
        Actions { block_id: Some(String::from_str(id)), ..self }
    }

    /// The first rule that the block breaks, if it breaks one: it holds at
    /// least one element and at most `MAX_ACTIONS_ELEMENTS`, and each
    /// element obeys the rules of its kind.
    pub open spec fn violation(&self) -> Option<Seq<char>> {
        if self.elements@.len() == 0 {
            Some("actions block requires at least one element"@)
        } else if self.elements@.len() > MAX_ACTIONS_ELEMENTS {
            Some(
                citing(
                    "actions block supports at most "@,
                    MAX_ACTIONS_ELEMENTS as nat,
                    " elements"@,
                ),
            )
        } else {
            first_violation(json_each(self.elements@))
        }
    }

    /// Holds the block to its rules: the first rule that it breaks, if it
    /// breaks one.
    pub fn validate(&self) -> (r: Result<(), BuildError>)
        ensures
            match r {
                Ok(_) => self.violation() is None,
                Err(e) => self.violation() == Some(e@),
            },
    {
        if self.elements.len() == 0 {
            return Err(BuildError::message("actions block requires at least one element"));
        }
        if self.elements.len() > MAX_ACTIONS_ELEMENTS {
            return Err(
                BuildError::Message(
                    with_number(
                        "actions block supports at most ",
                        MAX_ACTIONS_ELEMENTS,
                        " elements",
                    ),
                ),
            );
        }
        validate_elements(&self.elements)
    }

    /// Finishes the block: the block as it stands where it breaks no rule,
    /// else the first rule that it breaks.
    pub fn build(self) -> (r: Result<Block, BuildError>)
        ensures
            match r {
                Ok(b) => self.violation() is None && b == Block::Actions(self),
                Err(e) => self.violation() == Some(e@),
            },
    {
        match self.validate() {
            Ok(_) => Ok(Block::Actions(self)),
            Err(e) => Err(e),
        }
    }
}

impl ToJson for Actions {
    open spec fn json(&self) -> Json {
        let m = no_members().insert("type"@, Json::Str("actions"@));
        let m = m.insert("elements"@, self.elements.json());
        let m = with_opt(m, "block_id"@, self.block_id);
        Json::Object(m)
    }

    fn to_value(&self) -> (v: serde_json::Value) {
        let mut m = map_new();
        put_tag(&mut m, "actions");
        put(&mut m, "elements", &self.elements);
        put_opt(&mut m, "block_id", &self.block_id);
        json_object(m)
    }
}

/// The members of a actions block: the tag `actions`, each required field,
/// each optional field that is set, and nothing else.
pub proof fn lemma_actions_shape(x: Actions)
    ensures
        tag_of(x.json()) == "actions"@,
        member(x.json(), "elements"@) == Some(x.elements.json()),
        member(x.json(), "block_id"@) == opt_json(x.block_id),
        forall|k: Seq<char>|
            (#[trigger] member(x.json(), k)) is Some ==> k == "type"@ || k == "elements"@
                || k == "block_id"@,
{
    reveal_strlit("type");
    reveal_strlit("elements");
    reveal_strlit("block_id");
    assert("type"@.len() == 4);
    assert("elements"@.len() == 8);
    assert("block_id"@.len() == 8);
    assert("elements"@[0] != "block_id"@[0]);
}

/// A actions block without elements is refused, with a message that asks for at
/// least one element.
pub proof fn lemma_actions_empty(b: Actions)
    requires
        b.elements@.len() == 0,
    ensures
        b.violation() == Some("actions block requires at least one element"@),
{
}

/// A actions block with one element more than the most is refused with a message
/// that cites the most; one with exactly the most is accepted,
/// where none of its elements breaks a rule of its kind.
pub proof fn lemma_actions_limit(b: Actions)
    ensures
        b.elements@.len() == MAX_ACTIONS_ELEMENTS + 1 ==> b.violation() == Some(
            "actions block supports at most 25 elements"@,
        ),
        b.elements@.len() == MAX_ACTIONS_ELEMENTS && first_violation(
            json_each(b.elements@),
        ) is None ==> b.violation() is None,
{
    lemma_numerals();
    reveal_strlit("actions block supports at most ");
    reveal_strlit("25");
    reveal_strlit(" elements");
    reveal_strlit("actions block supports at most 25 elements");
    assert(
        citing(
            "actions block supports at most "@,
            25,
            " elements"@,
        ) =~= "actions block supports at most 25 elements"@
    );
}

/// An actions block with one element is held to the rules of that element
/// and to nothing else.
pub proof fn lemma_actions_single(b: Actions)
    requires
        b.elements@.len() == 1,
    ensures
        b.violation() == element_violation(b.elements@[0].json()),
{
    let all = json_each(b.elements@);
    assert(all[0] == b.elements@[0].json());
    assert(first_violation(all.drop_first()) is None);
}

} // verus!
