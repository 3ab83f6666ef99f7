//! What a context-actions block holds.

use vstd::prelude::*;
use vstd::string::StringExecFns;
use crate::blocks::text::PlainText;
use crate::encode::{ToJson, opt_json, put, put_opt, put_tag, tag_of, with_opt};
use crate::json::{Json, json_object, map_new, member, no_members};

verus! {

/// One of the two buttons of a feedback pair.
#[derive(Debug, Clone, PartialEq)]
pub struct FeedbackButton {
    /// The text on the button.
    pub text: PlainText,
    /// The value reported when the button is pressed.
    pub value: String,
}

impl FeedbackButton {
    /// A feedback button with the given plain text and value.
    pub fn new(text: &str, value: &str) -> (r: Self)
        ensures
            r.text.text@ == text@,
            r.text.emoji is None,
            r.value@ == value@,
    {
        FeedbackButton { text: PlainText::new(text), value: String::from_str(value) }
    }
}

impl ToJson for FeedbackButton {
    open spec fn json(&self) -> Json {
        let m = no_members().insert("text"@, self.text.json());
        let m = m.insert("value"@, self.value.json());
        Json::Object(m)
    }

    fn to_value(&self) -> (v: serde_json::Value) {
        let mut m = map_new();
        put(&mut m, "text", &self.text);
        put(&mut m, "value", &self.value);
        json_object(m)
    }
}

/// The members of a feedback button: each required field, and nothing else.
pub proof fn lemma_feedback_button_shape(x: FeedbackButton)
    ensures
        member(x.json(), "text"@) == Some(x.text.json()),
        member(x.json(), "value"@) == Some(x.value.json()),
        forall|k: Seq<char>|
            (#[trigger] member(x.json(), k)) is Some ==> k == "text"@ || k == "value"@,
{
    reveal_strlit("text");
    reveal_strlit("value");
    assert("text"@.len() == 4);
    assert("value"@.len() == 5);
}

/// A pair of buttons for a positive and a negative answer.
#[derive(Debug, Clone, PartialEq)]
pub struct FeedbackButtons {
    /// The identifier of the element in interaction payloads.
    pub action_id: String,
    /// The button for the positive answer.
    pub positive_button: FeedbackButton,
    /// The button for the negative answer.
    pub negative_button: FeedbackButton,
}

impl FeedbackButtons {
    /// A pair of feedback buttons of the given fields.
    pub fn new(action_id: &str, positive: FeedbackButton, negative: FeedbackButton) -> (r: Self)
        ensures
            r.action_id@ == action_id@,
            r.positive_button == positive,
            r.negative_button == negative,
    {
        FeedbackButtons {
            action_id: String::from_str(action_id),
            positive_button: positive,
            negative_button: negative,
        }
    }
}

impl ToJson for FeedbackButtons {
    open spec fn json(&self) -> Json {
        let m = no_members().insert("type"@, Json::Str("feedback_buttons"@));
        let m = m.insert("action_id"@, self.action_id.json());
        let m = m.insert("positive_button"@, self.positive_button.json());
        let m = m.insert("negative_button"@, self.negative_button.json());
        Json::Object(m)
    }

    fn to_value(&self) -> (v: serde_json::Value) {
        let mut m = map_new();
        put_tag(&mut m, "feedback_buttons");
        put(&mut m, "action_id", &self.action_id);
        put(&mut m, "positive_button", &self.positive_button);
        put(&mut m, "negative_button", &self.negative_button);
        json_object(m)
    }
}

/// The members of a pair of feedback buttons: the tag `feedback_buttons`,
/// each required field, and nothing else.
pub proof fn lemma_feedback_buttons_shape(x: FeedbackButtons)
    ensures
        tag_of(x.json()) == "feedback_buttons"@,
        member(x.json(), "action_id"@) == Some(x.action_id.json()),
        member(x.json(), "positive_button"@) == Some(x.positive_button.json()),
        member(x.json(), "negative_button"@) == Some(x.negative_button.json()),
        forall|k: Seq<char>|
            (#[trigger] member(x.json(), k)) is Some ==> k == "type"@ || k == "action_id"@
                || k == "positive_button"@ || k == "negative_button"@,
{
    reveal_strlit("type");
    reveal_strlit("action_id");
    reveal_strlit("positive_button");
    reveal_strlit("negative_button");
    assert("type"@.len() == 4);
    assert("action_id"@.len() == 9);
    assert("positive_button"@.len() == 15);
    assert("negative_button"@.len() == 15);
    assert("positive_button"@[0] != "negative_button"@[0]);
}

/// A button that shows an icon.
#[derive(Debug, Clone, PartialEq)]
pub struct IconButton {
    /// The name of the icon.
    pub icon: String,
    /// What the button does, in words.
    pub text: PlainText,
    /// The identifier of the element in interaction payloads.
    pub action_id: String,
    /// The value reported when the button is pressed.
    pub value: Option<String>,
}

impl IconButton {
    /// A icon button with its required fields; every optional field is unset.
    pub fn new(icon: &str, text: PlainText, action_id: &str) -> (r: Self)
        ensures
            r.icon@ == icon@,
            r.text == text,
            r.action_id@ == action_id@,
            r.value is None,
    {
        IconButton {
            icon: String::from_str(icon),
            text,
            action_id: String::from_str(action_id),
            value: None,
        }
    }

    /// Sets `value`: the value reported when the button is pressed.
    pub fn value(self, value: &str) -> (r: Self)
        ensures
            r.value matches Some(s) && s@ == value@,
            r == (IconButton { value: r.value, ..self }),
    {
        IconButton { value: Some(String::from_str(value)), ..self }
    }
}

impl ToJson for IconButton {
    open spec fn json(&self) -> Json {
        let m = no_members().insert("type"@, Json::Str("icon_button"@));
        let m = m.insert("icon"@, self.icon.json());
        let m = m.insert("text"@, self.text.json());
        let m = m.insert("action_id"@, self.action_id.json());
        let m = with_opt(m, "value"@, self.value);
        Json::Object(m)
    }

    fn to_value(&self) -> (v: serde_json::Value) {
        let mut m = map_new();
        put_tag(&mut m, "icon_button");
        put(&mut m, "icon", &self.icon);
        put(&mut m, "text", &self.text);
        put(&mut m, "action_id", &self.action_id);
        put_opt(&mut m, "value", &self.value);
        json_object(m)
    }
}

/// The members of a icon button: the tag `icon_button`, each required field,
/// each optional field that is set, and nothing else.
pub proof fn lemma_icon_button_shape(x: IconButton)
    ensures
        tag_of(x.json()) == "icon_button"@,
        member(x.json(), "icon"@) == Some(x.icon.json()),
        member(x.json(), "text"@) == Some(x.text.json()),
        member(x.json(), "action_id"@) == Some(x.action_id.json()),
        member(x.json(), "value"@) == opt_json(x.value),
        forall|k: Seq<char>|
            (#[trigger] member(x.json(), k)) is Some ==> k == "type"@ || k == "icon"@
                || k == "text"@ || k == "action_id"@ || k == "value"@,
{
    reveal_strlit("type");
    reveal_strlit("icon");
    reveal_strlit("text");
    reveal_strlit("action_id");
    reveal_strlit("value");
    assert("type"@.len() == 4);
    assert("icon"@.len() == 4);
    assert("text"@.len() == 4);
    assert("action_id"@.len() == 9);
    assert("value"@.len() == 5);
    assert("type"@[0] != "icon"@[0]);
    assert("type"@[1] != "text"@[1]);
    assert("icon"@[0] != "text"@[0]);
}

/// What a context-actions block holds: a pair of feedback buttons, or an
/// icon button. Each is written as itself, with its own tag.
#[derive(Debug, Clone, PartialEq)]
pub enum ContextActionElement {
    FeedbackButtons(FeedbackButtons),
    IconButton(IconButton),
}

impl ContextActionElement {
    /// A pair of feedback buttons.
    pub fn feedback(action_id: &str, positive: FeedbackButton, negative: FeedbackButton) -> (r:
        Self)
        ensures
            r matches ContextActionElement::FeedbackButtons(b) && b.action_id@ == action_id@
                && b.positive_button == positive && b.negative_button == negative,
    {
        ContextActionElement::FeedbackButtons(FeedbackButtons::new(action_id, positive, negative))
    }

    /// An icon button without a value.
    pub fn icon(icon: &str, text: PlainText, action_id: &str) -> (r: Self)
        ensures
            r matches ContextActionElement::IconButton(b) && b.icon@ == icon@ && b.text == text
                && b.action_id@ == action_id@ && b.value is None,
    {
        ContextActionElement::IconButton(IconButton::new(icon, text, action_id))
    }
}

impl ToJson for ContextActionElement {
    open spec fn json(&self) -> Json {
        match self {
            ContextActionElement::FeedbackButtons(b) => b.json(),
            ContextActionElement::IconButton(b) => b.json(),
        }
    }

    fn to_value(&self) -> (v: serde_json::Value) {
        match self {
            ContextActionElement::FeedbackButtons(b) => b.to_value(),
            ContextActionElement::IconButton(b) => b.to_value(),
        }
    }
}

/// A context-actions element carries the tag of what it holds.
pub proof fn lemma_context_action_element_tag(x: ContextActionElement)
    ensures
        tag_of(x.json()) == (match x {
            ContextActionElement::FeedbackButtons(_) => "feedback_buttons"@,
            ContextActionElement::IconButton(_) => "icon_button"@,
        }),
{
    match x {
        ContextActionElement::FeedbackButtons(b) => lemma_feedback_buttons_shape(b),
        ContextActionElement::IconButton(b) => lemma_icon_button_shape(b),
    }
}

} // verus!
