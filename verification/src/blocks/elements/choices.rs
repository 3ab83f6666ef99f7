//! Elements that offer a fixed list of options: checkboxes, radio buttons and
//! the overflow menu.

use vstd::prelude::*;
use vstd::std_specs::convert::FromSpecImpl;
use vstd::string::StringExecFns;
use crate::encode::{ToJson, opt_json, put, put_opt, put_tag, tag_of, with_opt};
use crate::json::{Json, json_object, map_new, member, no_members};
use super::common::{BlockElement, ConfirmationDialog, SelectOption};

verus! {

/// A group of checkboxes.
#[derive(Debug, Clone, PartialEq)]
pub struct CheckboxesElement {
    /// The identifier of the element in interaction payloads.
    pub action_id: String,
    /// The options to choose from.
    pub options: Vec<SelectOption>,
    /// The options chosen at first.
    pub initial_options: Option<Vec<SelectOption>>,
    /// A dialog that asks the user to confirm.
    pub confirm: Option<ConfirmationDialog>,
}

impl CheckboxesElement {
    /// A group of checkboxes with its required fields; every optional field
    /// is unset.
    pub fn new(action_id: &str, options: Vec<SelectOption>) -> (r: Self)
        ensures
            r.action_id@ == action_id@,
            r.options == options,
            r.initial_options is None,
            r.confirm is None,
    {
        CheckboxesElement {
            action_id: String::from_str(action_id),
            options,
            initial_options: None,
            confirm: None,
        }
    }

    /// Sets `initial_options`: the options chosen at first.
    pub fn initial_options(self, options: Vec<SelectOption>) -> (r: Self)
        ensures
            r == (CheckboxesElement { initial_options: Some(options), ..self }),
    {
        CheckboxesElement { initial_options: Some(options), ..self }
    }

    /// Sets `confirm`: a dialog that asks the user to confirm.
    pub fn confirm(self, dialog: ConfirmationDialog) -> (r: Self)
        ensures
            r == (CheckboxesElement { confirm: Some(dialog), ..self }),
    {
        CheckboxesElement { confirm: Some(dialog), ..self }
    }
}

impl ToJson for CheckboxesElement {
    open spec fn json(&self) -> Json {
        let m = no_members().insert("type"@, Json::Str("checkboxes"@));
        let m = m.insert("action_id"@, self.action_id.json());
        let m = m.insert("options"@, self.options.json());
        let m = with_opt(m, "initial_options"@, self.initial_options);
        let m = with_opt(m, "confirm"@, self.confirm);
        Json::Object(m)
    }

    fn to_value(&self) -> (v: serde_json::Value) {
        let mut m = map_new();
        put_tag(&mut m, "checkboxes");
        put(&mut m, "action_id", &self.action_id);
        put(&mut m, "options", &self.options);
        put_opt(&mut m, "initial_options", &self.initial_options);
        put_opt(&mut m, "confirm", &self.confirm);
        json_object(m)
    }
}

impl From<CheckboxesElement> for BlockElement {
    fn from(value: CheckboxesElement) -> (r: Self)
        ensures
            r.json() == value.json(),
            tag_of(r.json()) == "checkboxes"@,
    {
        proof {
            lemma_checkboxes_element_shape(value);
        }
        BlockElement(value.to_value())
    }
}

impl FromSpecImpl<CheckboxesElement> for BlockElement {
    open spec fn obeys_from_spec() -> bool {
        false
    }

    open spec fn from_spec(v: CheckboxesElement) -> Self {
        arbitrary()
    }
}

/// The members of a group of checkboxes: the tag `checkboxes`, each required
/// field, each optional field that is set, and nothing else.
pub proof fn lemma_checkboxes_element_shape(x: CheckboxesElement)
    ensures
        tag_of(x.json()) == "checkboxes"@,
        member(x.json(), "action_id"@) == Some(x.action_id.json()),
        member(x.json(), "options"@) == Some(x.options.json()),
        member(x.json(), "initial_options"@) == opt_json(x.initial_options),
        member(x.json(), "confirm"@) == opt_json(x.confirm),
        forall|k: Seq<char>|
            (#[trigger] member(x.json(), k)) is Some ==> k == "type"@ || k == "action_id"@
                || k == "options"@ || k == "initial_options"@ || k == "confirm"@,
{
    reveal_strlit("type");
    reveal_strlit("action_id");
    reveal_strlit("options");
    reveal_strlit("initial_options");
    reveal_strlit("confirm");
    assert("type"@.len() == 4);
    assert("action_id"@.len() == 9);
    assert("options"@.len() == 7);
    assert("initial_options"@.len() == 15);
    assert("confirm"@.len() == 7);
    assert("options"@[0] != "confirm"@[0]);
}

/// A group of radio buttons.
#[derive(Debug, Clone, PartialEq)]
pub struct RadioButtonsElement {
    /// The identifier of the element in interaction payloads.
    pub action_id: String,
    /// The options to choose from.
    pub options: Vec<SelectOption>,
    /// The option chosen at first.
    pub initial_option: Option<SelectOption>,
    /// A dialog that asks the user to confirm.
    pub confirm: Option<ConfirmationDialog>,
}

impl RadioButtonsElement {
    /// A group of radio buttons with its required fields; every optional
    /// field is unset.
    pub fn new(action_id: &str, options: Vec<SelectOption>) -> (r: Self)
        ensures
            r.action_id@ == action_id@,
            r.options == options,
            r.initial_option is None,
            r.confirm is None,
    {
        RadioButtonsElement {
            action_id: String::from_str(action_id),
            options,
            initial_option: None,
            confirm: None,
        }
    }

    /// Sets `initial_option`: the option chosen at first.
    pub fn initial_option(self, option: SelectOption) -> (r: Self)
        ensures
            r == (RadioButtonsElement { initial_option: Some(option), ..self }),
    {
        RadioButtonsElement { initial_option: Some(option), ..self }
    }

    /// Sets `confirm`: a dialog that asks the user to confirm.
    pub fn confirm(self, dialog: ConfirmationDialog) -> (r: Self)
        ensures
            r == (RadioButtonsElement { confirm: Some(dialog), ..self }),
    {
        RadioButtonsElement { confirm: Some(dialog), ..self }
    }
}

impl ToJson for RadioButtonsElement {
    open spec fn json(&self) -> Json {
        let m = no_members().insert("type"@, Json::Str("radio_buttons"@));
        let m = m.insert("action_id"@, self.action_id.json());
        let m = m.insert("options"@, self.options.json());
        let m = with_opt(m, "initial_option"@, self.initial_option);
        let m = with_opt(m, "confirm"@, self.confirm);
        Json::Object(m)
    }

    fn to_value(&self) -> (v: serde_json::Value) {
        let mut m = map_new();
        put_tag(&mut m, "radio_buttons");
        put(&mut m, "action_id", &self.action_id);
        put(&mut m, "options", &self.options);
        put_opt(&mut m, "initial_option", &self.initial_option);
        put_opt(&mut m, "confirm", &self.confirm);
        json_object(m)
    }
}

impl From<RadioButtonsElement> for BlockElement {
    fn from(value: RadioButtonsElement) -> (r: Self)
        ensures
            r.json() == value.json(),
            tag_of(r.json()) == "radio_buttons"@,
    {
        proof {
            lemma_radio_buttons_element_shape(value);
        }
        BlockElement(value.to_value())
    }
}

impl FromSpecImpl<RadioButtonsElement> for BlockElement {
    open spec fn obeys_from_spec() -> bool {
        false
    }

    open spec fn from_spec(v: RadioButtonsElement) -> Self {
        arbitrary()
    }
}

/// The members of a group of radio buttons: the tag `radio_buttons`, each
/// required field, each optional field that is set, and nothing else.
pub proof fn lemma_radio_buttons_element_shape(x: RadioButtonsElement)
    ensures
        tag_of(x.json()) == "radio_buttons"@,
        member(x.json(), "action_id"@) == Some(x.action_id.json()),
        member(x.json(), "options"@) == Some(x.options.json()),
        member(x.json(), "initial_option"@) == opt_json(x.initial_option),
        member(x.json(), "confirm"@) == opt_json(x.confirm),
        forall|k: Seq<char>|
            (#[trigger] member(x.json(), k)) is Some ==> k == "type"@ || k == "action_id"@
                || k == "options"@ || k == "initial_option"@ || k == "confirm"@,
{
    reveal_strlit("type");
    reveal_strlit("action_id");
    reveal_strlit("options");
    reveal_strlit("initial_option");
    reveal_strlit("confirm");
    assert("type"@.len() == 4);
    assert("action_id"@.len() == 9);
    assert("options"@.len() == 7);
    assert("initial_option"@.len() == 14);
    assert("confirm"@.len() == 7);
    assert("options"@[0] != "confirm"@[0]);
}

/// A menu behind a button with three dots.
#[derive(Debug, Clone, PartialEq)]
pub struct OverflowElement {
    /// The identifier of the element in interaction payloads.
    pub action_id: String,
    /// The options to choose from.
    pub options: Vec<SelectOption>,
    /// A dialog that asks the user to confirm.
    pub confirm: Option<ConfirmationDialog>,
}

impl OverflowElement {
    /// A overflow menu with its required fields; every optional field is
    /// unset.
    pub fn new(action_id: &str, options: Vec<SelectOption>) -> (r: Self)
        ensures
            r.action_id@ == action_id@,
            r.options == options,
            r.confirm is None,
    {
        OverflowElement { action_id: String::from_str(action_id), options, confirm: None }
    }

    /// Sets `confirm`: a dialog that asks the user to confirm.
    pub fn confirm(self, dialog: ConfirmationDialog) -> (r: Self)
        ensures
            r == (OverflowElement { confirm: Some(dialog), ..self }),
    {
        OverflowElement { confirm: Some(dialog), ..self }
    }
}

impl ToJson for OverflowElement {
    open spec fn json(&self) -> Json {
        let m = no_members().insert("type"@, Json::Str("overflow"@));
        let m = m.insert("action_id"@, self.action_id.json());
        let m = m.insert("options"@, self.options.json());
        let m = with_opt(m, "confirm"@, self.confirm);
        Json::Object(m)
    }

    fn to_value(&self) -> (v: serde_json::Value) {
        let mut m = map_new();
        put_tag(&mut m, "overflow");
        put(&mut m, "action_id", &self.action_id);
        put(&mut m, "options", &self.options);
        put_opt(&mut m, "confirm", &self.confirm);
        json_object(m)
    }
}

impl From<OverflowElement> for BlockElement {
    fn from(value: OverflowElement) -> (r: Self)
        ensures
            r.json() == value.json(),
            tag_of(r.json()) == "overflow"@,
    {
        proof {
            lemma_overflow_element_shape(value);
        }
        BlockElement(value.to_value())
    }
}

impl FromSpecImpl<OverflowElement> for BlockElement {
    open spec fn obeys_from_spec() -> bool {
        false
    }

    open spec fn from_spec(v: OverflowElement) -> Self {
        arbitrary()
    }
}

/// The members of a overflow menu: the tag `overflow`, each required field,
/// each optional field that is set, and nothing else.
pub proof fn lemma_overflow_element_shape(x: OverflowElement)
    ensures
        tag_of(x.json()) == "overflow"@,
        member(x.json(), "action_id"@) == Some(x.action_id.json()),
        member(x.json(), "options"@) == Some(x.options.json()),
        member(x.json(), "confirm"@) == opt_json(x.confirm),
        forall|k: Seq<char>|
            (#[trigger] member(x.json(), k)) is Some ==> k == "type"@ || k == "action_id"@
                || k == "options"@ || k == "confirm"@,
{
    reveal_strlit("type");
    reveal_strlit("action_id");
    reveal_strlit("options");
    reveal_strlit("confirm");
    assert("type"@.len() == 4);
    assert("action_id"@.len() == 9);
    assert("options"@.len() == 7);
    assert("confirm"@.len() == 7);
    assert("options"@[0] != "confirm"@[0]);
}

} // verus!
