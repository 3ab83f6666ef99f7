//! The input block.

use vstd::prelude::*;
use vstd::string::StringExecFns;
use crate::blocks::MAX_INPUT_TEXT_LEN;
use crate::blocks::elements::BlockElement;
use crate::blocks::elements::rules::tag_in;
use crate::blocks::text::PlainText;
use crate::blocks::{Block, BuildError};
use crate::encode::{ToJson, opt_json, put, put_opt, put_tag, tag_of, with_opt};
use crate::json::{Json, json_object, map_new, member, no_members};
use crate::strings::{byte_len, citing, lemma_numerals, str_eq, with_number};

verus! {

/// An element that takes input, with a label.
#[derive(Debug, Clone, PartialEq)]
pub struct Input {
    /// The label above the element.
    pub label: PlainText,
    /// The element that takes the input.
    pub element: BlockElement,
    /// Whether the element reports what the user does as actions.
    pub dispatch_action: Option<bool>,
    /// A line of help below the element.
    pub hint: Option<PlainText>,
    /// Whether the element may be left empty.
    pub optional: Option<bool>,
    /// The identifier of the block within a message.
    pub block_id: Option<String>,
}

impl Input {
    /// A input block with its required fields; every optional field is unset.
    pub fn new(label: PlainText, element: BlockElement) -> (r: Self)
        ensures
            r.label == label,
            r.element == element,
            r.dispatch_action is None,
            r.hint is None,
            r.optional is None,
            r.block_id is None,
    {
        Input {
            label,
            element,
            dispatch_action: None,
            hint: None,
            optional: None,
            block_id: None,
        }
    }

    /// Sets `dispatch_action`: whether the element reports what the user does
    /// as actions.
    pub fn dispatch_action(self, dispatch_action: bool) -> (r: Self)
        ensures
            r == (Input { dispatch_action: Some(dispatch_action), ..self }),
    {
        Input { dispatch_action: Some(dispatch_action), ..self }
    }

    /// Sets `hint`: a line of help below the element.
    pub fn hint(self, hint: PlainText) -> (r: Self)
        ensures
            r == (Input { hint: Some(hint), ..self }),
    {
        Input { hint: Some(hint), ..self }
    }

    /// Sets `optional`: whether the element may be left empty.
    pub fn optional(self, optional: bool) -> (r: Self)
        ensures
            r == (Input { optional: Some(optional), ..self }),
    {
        Input { optional: Some(optional), ..self }
    }

    /// Sets `block_id`: the identifier of the block within a message.
    pub fn block_id(self, id: &str) -> (r: Self)
        ensures
            r.block_id matches Some(s) && s@ == id@,
            r == (Input { block_id: r.block_id, ..self }),
    {
        Input { block_id: Some(String::from_str(id)), ..self }
    }

    /// The first rule that the block breaks, if it breaks one: a file input
    /// does not dispatch actions, and the label and the hint are no longer
    /// than `MAX_INPUT_TEXT_LEN` bytes.
    pub open spec fn violation(&self) -> Option<Seq<char>> {
        if self.dispatch_action == Some(true) && tag_of(self.element.json()) == "file_input"@ {
            Some("input block cannot use dispatch_action with file_input"@)
        } else if byte_len(self.label.text@) > MAX_INPUT_TEXT_LEN {
            Some(
                citing(
                    "input block label cannot exceed "@,
                    MAX_INPUT_TEXT_LEN as nat,
                    " characters"@,
                ),
            )
        } else if self.hint matches Some(hint) && byte_len(hint.text@) > MAX_INPUT_TEXT_LEN {
            Some(
                citing(
                    "input block hint cannot exceed "@,
                    MAX_INPUT_TEXT_LEN as nat,
                    " characters"@,
                ),
            )
        } else {
            None
        }
    }

    /// Holds the block to its rules: the first rule that it breaks, if it
    /// breaks one.
    pub fn validate(&self) -> (r: Result<(), BuildError>)
        ensures
            match r {
                Ok(_) => self.violation() is None,
                Err(e) => self.violation() == Some(e@),
            },
    {
        match self.dispatch_action {
            Some(true) => {
                if str_eq(tag_in(&self.element.0), "file_input") {
                    return Err(
                        BuildError::message(
                            "input block cannot use dispatch_action with file_input",
                        ),
                    );
                }
            },
            _ => {},
        }
        if self.label.text.as_str().len() > MAX_INPUT_TEXT_LEN {
            return Err(
                BuildError::Message(
                    with_number(
                        "input block label cannot exceed ",
                        MAX_INPUT_TEXT_LEN,
                        " characters",
                    ),
                ),
            );
        }
        match &self.hint {
            Some(hint) => {
                if hint.text.as_str().len() > MAX_INPUT_TEXT_LEN {
                    return Err(
                        BuildError::Message(
                            with_number(
                                "input block hint cannot exceed ",
                                MAX_INPUT_TEXT_LEN,
                                " characters",
                            ),
                        ),
                    );
                }
            },
            None => {},
        }
        Ok(())
    }

    /// Finishes the block: the block as it stands where it breaks no rule,
    /// else the first rule that it breaks.
    pub fn build(self) -> (r: Result<Block, BuildError>)
        ensures
            match r {
                Ok(b) => self.violation() is None && b == Block::Input(self),
                Err(e) => self.violation() == Some(e@),
            },
    {
        match self.validate() {
            Ok(_) => Ok(Block::Input(self)),
            Err(e) => Err(e),
        }
    }
}

impl ToJson for Input {
    open spec fn json(&self) -> Json {
        let m = no_members().insert("type"@, Json::Str("input"@));
        let m = m.insert("label"@, self.label.json());
        let m = m.insert("element"@, self.element.json());
        let m = with_opt(m, "dispatch_action"@, self.dispatch_action);
        let m = with_opt(m, "hint"@, self.hint);
        let m = with_opt(m, "optional"@, self.optional);
        let m = with_opt(m, "block_id"@, self.block_id);
        Json::Object(m)
    }

    fn to_value(&self) -> (v: serde_json::Value) {
        let mut m = map_new();
        put_tag(&mut m, "input");
        put(&mut m, "label", &self.label);
        put(&mut m, "element", &self.element);
        put_opt(&mut m, "dispatch_action", &self.dispatch_action);
        put_opt(&mut m, "hint", &self.hint);
        put_opt(&mut m, "optional", &self.optional);
        put_opt(&mut m, "block_id", &self.block_id);
        json_object(m)
    }
}

/// The members of a input block: the tag `input`, each required field, each
/// optional field that is set, and nothing else.
pub proof fn lemma_input_shape(x: Input)
    ensures
        tag_of(x.json()) == "input"@,
        member(x.json(), "label"@) == Some(x.label.json()),
        member(x.json(), "element"@) == Some(x.element.json()),
        member(x.json(), "dispatch_action"@) == opt_json(x.dispatch_action),
        member(x.json(), "hint"@) == opt_json(x.hint),
        member(x.json(), "optional"@) == opt_json(x.optional),
        member(x.json(), "block_id"@) == opt_json(x.block_id),
        forall|k: Seq<char>|
            (#[trigger] member(x.json(), k)) is Some ==> k == "type"@ || k == "label"@
                || k == "element"@ || k == "dispatch_action"@ || k == "hint"@ || k == "optional"@
                || k == "block_id"@,
{
    reveal_strlit("type");
    reveal_strlit("label");
    reveal_strlit("element");
    reveal_strlit("dispatch_action");
    reveal_strlit("hint");
    reveal_strlit("optional");
    reveal_strlit("block_id");
    assert("type"@.len() == 4);
    assert("label"@.len() == 5);
    assert("element"@.len() == 7);
    assert("dispatch_action"@.len() == 15);
    assert("hint"@.len() == 4);
    assert("optional"@.len() == 8);
    assert("block_id"@.len() == 8);
    assert("type"@[0] != "hint"@[0]);
    assert("optional"@[0] != "block_id"@[0]);
}

/// An input block that dispatches actions is refused where its element is a
/// file input. With an element of any other kind it is accepted, where its
/// label and hint are within the limit.
pub proof fn lemma_input_dispatch(b: Input)
    requires
        b.dispatch_action == Some(true),
    ensures
        tag_of(b.element.json()) == "file_input"@ ==> b.violation() == Some(
            "input block cannot use dispatch_action with file_input"@,
        ),
        tag_of(b.element.json()) != "file_input"@ && byte_len(b.label.text@) <= MAX_INPUT_TEXT_LEN
            && (b.hint matches Some(hint) ==> byte_len(hint.text@) <= MAX_INPUT_TEXT_LEN)
            ==> b.violation() is None,
{
}

/// A label or a hint that is longer than the limit is refused with a message
/// that cites the limit.
pub proof fn lemma_input_limit(b: Input)
    requires
        !(b.dispatch_action == Some(true) && tag_of(b.element.json()) == "file_input"@),
    ensures
        byte_len(b.label.text@) > MAX_INPUT_TEXT_LEN ==> b.violation() == Some(
            "input block label cannot exceed 2000 characters"@,
        ),
        byte_len(b.label.text@) <= MAX_INPUT_TEXT_LEN && (b.hint matches Some(hint) && byte_len(
            hint.text@,
        ) > MAX_INPUT_TEXT_LEN) ==> b.violation() == Some(
            "input block hint cannot exceed 2000 characters"@,
        ),
{
    lemma_numerals();
    reveal_strlit("input block label cannot exceed ");
    reveal_strlit("2000");
    reveal_strlit(" characters");
    reveal_strlit("input block label cannot exceed 2000 characters");
    assert(
        citing(
            "input block label cannot exceed "@,
            2000,
            " characters"@,
        ) =~= "input block label cannot exceed 2000 characters"@
    );
    reveal_strlit("input block hint cannot exceed ");
    reveal_strlit("2000");
    reveal_strlit(" characters");
    reveal_strlit("input block hint cannot exceed 2000 characters");
    assert(
        citing(
            "input block hint cannot exceed "@,
            2000,
            " characters"@,
        ) =~= "input block hint cannot exceed 2000 characters"@
    );
}

} // verus!
