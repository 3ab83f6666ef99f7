//! What the elements share: the wrapper that holds an element of any kind,
//! options, option groups, the confirmation dialog.

use vstd::prelude::*;
use vstd::string::StringExecFns;
use crate::blocks::text::{PlainText, TextObject};
use crate::encode::{ToJson, opt_json, put, put_opt, with_opt};
use crate::json::{Json, json_object, json_of, json_string, map_new, member, no_members};

verus! {

/// An element of any kind, as the document that it is written as. Blocks that
/// hold elements of several kinds hold them in this form, and tell them apart
/// by the tag under `type`.
#[derive(Debug, Clone, PartialEq)]
pub struct BlockElement(pub serde_json::Value);

impl BlockElement {
    /// The element that is written as the given value is.
    pub fn from_struct<T: ToJson>(value: &T) -> (r: Self)
        ensures
            r.json() == value.json(),
    {
        BlockElement(value.to_value())
    }
}

impl ToJson for BlockElement {
    open spec fn json(&self) -> Json {
        json_of(self.0)
    }

    fn to_value(&self) -> (v: serde_json::Value) {
        self.0.clone()
    }
}

/// How a button is decorated.
#[derive(Debug, Clone, Copy, PartialEq, Eq)]
pub enum ButtonStyle {
    /// For the action that is wanted most.
    Primary,
    /// For an action that destroys something.
    Danger,
}

impl ToJson for ButtonStyle {
    open spec fn json(&self) -> Json {
        match self {
            ButtonStyle::Primary => Json::Str("primary"@),
            ButtonStyle::Danger => Json::Str("danger"@),
        }
    }

    fn to_value(&self) -> (v: serde_json::Value) {
        let name = match self {
            ButtonStyle::Primary => "primary",
            ButtonStyle::Danger => "danger",
        };
        json_string(String::from_str(name))
    }
}

/// A dialog that asks the user to confirm an action.
#[derive(Debug, Clone, PartialEq)]
pub struct ConfirmationDialog {
    /// The title of the dialog.
    pub title: PlainText,
    /// What the dialog asks.
    pub text: TextObject,
    /// The text of the button that confirms.
    pub confirm: PlainText,
    /// The text of the button that cancels.
    pub deny: PlainText,
    /// How the confirming button is decorated.
    pub style: Option<ButtonStyle>,
}

impl ConfirmationDialog {
    /// A confirmation dialog with its required fields; every optional field
    /// is unset.
    pub fn new(title: PlainText, text: TextObject, confirm: PlainText, deny: PlainText) -> (r: Self)
        ensures
            r.title == title,
            r.text == text,
            r.confirm == confirm,
            r.deny == deny,
            r.style is None,
    {
        ConfirmationDialog { title, text, confirm, deny, style: None }
    }

    /// Sets `style`: how the confirming button is decorated.
    pub fn style(self, style: ButtonStyle) -> (r: Self)
        ensures
            r == (ConfirmationDialog { style: Some(style), ..self }),
    {
        ConfirmationDialog { style: Some(style), ..self }
    }
}

impl ToJson for ConfirmationDialog {
    open spec fn json(&self) -> Json {
        let m = no_members().insert("title"@, self.title.json());
        let m = m.insert("text"@, self.text.json());
        let m = m.insert("confirm"@, self.confirm.json());
        let m = m.insert("deny"@, self.deny.json());
        let m = with_opt(m, "style"@, self.style);
        Json::Object(m)
    }

    fn to_value(&self) -> (v: serde_json::Value) {
        let mut m = map_new();
        put(&mut m, "title", &self.title);
        put(&mut m, "text", &self.text);
        put(&mut m, "confirm", &self.confirm);
        put(&mut m, "deny", &self.deny);
        put_opt(&mut m, "style", &self.style);
        json_object(m)
    }
}

/// The members of a confirmation dialog: each required field, each optional
/// field that is set, and nothing else.
pub proof fn lemma_confirmation_dialog_shape(x: ConfirmationDialog)
    ensures
        member(x.json(), "title"@) == Some(x.title.json()),
        member(x.json(), "text"@) == Some(x.text.json()),
        member(x.json(), "confirm"@) == Some(x.confirm.json()),
        member(x.json(), "deny"@) == Some(x.deny.json()),
        member(x.json(), "style"@) == opt_json(x.style),
        forall|k: Seq<char>|
            (#[trigger] member(x.json(), k)) is Some ==> k == "title"@ || k == "text"@
                || k == "confirm"@ || k == "deny"@ || k == "style"@,
{
    reveal_strlit("title");
    reveal_strlit("text");
    reveal_strlit("confirm");
    reveal_strlit("deny");
    reveal_strlit("style");
    assert("title"@.len() == 5);
    assert("text"@.len() == 4);
    assert("confirm"@.len() == 7);
    assert("deny"@.len() == 4);
    assert("style"@.len() == 5);
    assert("title"@[0] != "style"@[0]);
    assert("text"@[0] != "deny"@[0]);
}

/// One option of a menu or a group of choices.
#[derive(Debug, Clone, PartialEq)]
pub struct SelectOption {
    /// The text shown for the option.
    pub text: PlainText,
    /// The value reported when the option is chosen.
    pub value: String,
    /// A line of text below the option.
    pub description: Option<PlainText>,
}

impl SelectOption {
    /// A select option with its required fields; every optional field is
    /// unset.
    pub fn new(text: PlainText, value: &str) -> (r: Self)
        ensures
            r.text == text,
            r.value@ == value@,
            r.description is None,
    {
        SelectOption { text, value: String::from_str(value), description: None }
    }

    /// Sets `description`: a line of text below the option.
    pub fn description(self, description: PlainText) -> (r: Self)
        ensures
            r == (SelectOption { description: Some(description), ..self }),
    {
        SelectOption { description: Some(description), ..self }
    }
}

impl ToJson for SelectOption {
    open spec fn json(&self) -> Json {
        let m = no_members().insert("text"@, self.text.json());
        let m = m.insert("value"@, self.value.json());
        let m = with_opt(m, "description"@, self.description);
        Json::Object(m)
    }

    fn to_value(&self) -> (v: serde_json::Value) {
        let mut m = map_new();
        put(&mut m, "text", &self.text);
        put(&mut m, "value", &self.value);
        put_opt(&mut m, "description", &self.description);
        json_object(m)
    }
}

/// The members of a select option: each required field, each optional field
/// that is set, and nothing else.
pub proof fn lemma_select_option_shape(x: SelectOption)
    ensures
        member(x.json(), "text"@) == Some(x.text.json()),
        member(x.json(), "value"@) == Some(x.value.json()),
        member(x.json(), "description"@) == opt_json(x.description),
        forall|k: Seq<char>|
            (#[trigger] member(x.json(), k)) is Some ==> k == "text"@ || k == "value"@
                || k == "description"@,
{
    reveal_strlit("text");
    reveal_strlit("value");
    reveal_strlit("description");
    assert("text"@.len() == 4);
    assert("value"@.len() == 5);
    assert("description"@.len() == 11);
}

/// Options under a common label.
#[derive(Debug, Clone, PartialEq)]
pub struct OptionGroup {
    /// The label shown above the options.
    pub label: PlainText,
    /// The options of the group.
    pub options: Vec<SelectOption>,
}

impl OptionGroup {
    /// A option group of the given fields.
    pub fn new(label: PlainText, options: Vec<SelectOption>) -> (r: Self)
        ensures
            r.label == label,
            r.options == options,
    {
        OptionGroup { label, options }
    }
}

impl ToJson for OptionGroup {
    open spec fn json(&self) -> Json {
        let m = no_members().insert("label"@, self.label.json());
        let m = m.insert("options"@, self.options.json());
        Json::Object(m)
    }

    fn to_value(&self) -> (v: serde_json::Value) {
        let mut m = map_new();
        put(&mut m, "label", &self.label);
        put(&mut m, "options", &self.options);
        json_object(m)
    }
}

/// The members of a option group: each required field, and nothing else.
pub proof fn lemma_option_group_shape(x: OptionGroup)
    ensures
        member(x.json(), "label"@) == Some(x.label.json()),
        member(x.json(), "options"@) == Some(x.options.json()),
        forall|k: Seq<char>|
            (#[trigger] member(x.json(), k)) is Some ==> k == "label"@ || k == "options"@,
{
    reveal_strlit("label");
    reveal_strlit("options");
    assert("label"@.len() == 5);
    assert("options"@.len() == 7);
}

/// What a user does in a text input that is reported as an action.
#[derive(Debug, Clone, Copy, PartialEq, Eq)]
pub enum DispatchActionTrigger {
    /// The enter key is pressed.
    OnEnterPressed,
    /// A character is entered.
    OnCharacterEntered,
}

impl ToJson for DispatchActionTrigger {
    open spec fn json(&self) -> Json {
        match self {
            DispatchActionTrigger::OnEnterPressed => Json::Str("on_enter_pressed"@),
            DispatchActionTrigger::OnCharacterEntered => Json::Str("on_character_entered"@),
        }
    }

    fn to_value(&self) -> (v: serde_json::Value) {
        let name = match self {
            DispatchActionTrigger::OnEnterPressed => "on_enter_pressed",
            DispatchActionTrigger::OnCharacterEntered => "on_character_entered",
        };
        json_string(String::from_str(name))
    }
}

/// Which interactions with a text input are reported as actions.
#[derive(Debug, Clone, PartialEq)]
pub struct DispatchActionConfig {
    /// The interactions that are reported.
    pub trigger_actions_on: Vec<DispatchActionTrigger>,
}

impl DispatchActionConfig {
    /// A dispatch action configuration of the given fields.
    pub fn new(triggers: Vec<DispatchActionTrigger>) -> (r: Self)
        ensures
            r.trigger_actions_on == triggers,
    {
        DispatchActionConfig { trigger_actions_on: triggers }
    }
}

impl ToJson for DispatchActionConfig {
    open spec fn json(&self) -> Json {
        let m = no_members().insert("trigger_actions_on"@, self.trigger_actions_on.json());
        Json::Object(m)
    }

    fn to_value(&self) -> (v: serde_json::Value) {
        let mut m = map_new();
        put(&mut m, "trigger_actions_on", &self.trigger_actions_on);
        json_object(m)
    }
}

/// The members of a dispatch action configuration: each required field, and
/// nothing else.
pub proof fn lemma_dispatch_action_config_shape(x: DispatchActionConfig)
    ensures
        member(x.json(), "trigger_actions_on"@) == Some(x.trigger_actions_on.json()),
        forall|k: Seq<char>|
            (#[trigger] member(x.json(), k)) is Some ==> k == "trigger_actions_on"@,
{
}

} // verus!
