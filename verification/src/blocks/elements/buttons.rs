//! The button.

use vstd::prelude::*;
use vstd::std_specs::convert::FromSpecImpl;
use vstd::string::StringExecFns;
use crate::blocks::text::PlainText;
use crate::encode::{ToJson, opt_json, put, put_opt, put_tag, tag_of, with_opt};
use crate::json::{Json, json_object, map_new, member, no_members};
use super::common::{BlockElement, ButtonStyle, ConfirmationDialog};

verus! {

/// A button.
#[derive(Debug, Clone, PartialEq)]
pub struct ButtonElement {
    /// The text on the button.
    pub text: PlainText,
    /// The identifier of the element in interaction payloads.
    pub action_id: String,
    /// A page that the button opens.
    pub url: Option<String>,
    /// The value reported when the button is pressed.
    pub value: Option<String>,
    /// How the button is decorated.
    pub style: Option<ButtonStyle>,
    /// A dialog that asks the user to confirm.
    pub confirm: Option<ConfirmationDialog>,
}

impl ButtonElement {
    /// A button with its required fields; every optional field is unset.
    pub fn new(text: PlainText, action_id: &str) -> (r: Self)
        ensures
            r.text == text,
            r.action_id@ == action_id@,
            r.url is None,
            r.value is None,
            r.style is None,
            r.confirm is None,
    {
        ButtonElement {
            text,
            action_id: String::from_str(action_id),
            url: None,
            value: None,
            style: None,
            confirm: None,
        }
    }

    /// Sets `url`: a page that the button opens.
    pub fn url(self, url: &str) -> (r: Self)
        ensures
            r.url matches Some(s) && s@ == url@,
            r == (ButtonElement { url: r.url, ..self }),
    {
        ButtonElement { url: Some(String::from_str(url)), ..self }
    }

    /// Sets `value`: the value reported when the button is pressed.
    pub fn value(self, value: &str) -> (r: Self)
        ensures
            r.value matches Some(s) && s@ == value@,
            r == (ButtonElement { value: r.value, ..self }),
    {
        ButtonElement { value: Some(String::from_str(value)), ..self }
    }

    /// Sets `style`: how the button is decorated.
    pub fn style(self, style: ButtonStyle) -> (r: Self)
        ensures
            r == (ButtonElement { style: Some(style), ..self }),
    {
        ButtonElement { style: Some(style), ..self }
    }

    /// Sets `confirm`: a dialog that asks the user to confirm.
    pub fn confirm(self, dialog: ConfirmationDialog) -> (r: Self)
        ensures
            r == (ButtonElement { confirm: Some(dialog), ..self }),
    {
        ButtonElement { confirm: Some(dialog), ..self }
    }
}

impl ToJson for ButtonElement {
    open spec fn json(&self) -> Json {
        let m = no_members().insert("type"@, Json::Str("button"@));
        let m = m.insert("text"@, self.text.json());
        let m = m.insert("action_id"@, self.action_id.json());
        let m = with_opt(m, "url"@, self.url);
        let m = with_opt(m, "value"@, self.value);
        let m = with_opt(m, "style"@, self.style);
        let m = with_opt(m, "confirm"@, self.confirm);
        Json::Object(m)
    }

    fn to_value(&self) -> (v: serde_json::Value) {
        let mut m = map_new();
        put_tag(&mut m, "button");
        put(&mut m, "text", &self.text);
        put(&mut m, "action_id", &self.action_id);
        put_opt(&mut m, "url", &self.url);
        put_opt(&mut m, "value", &self.value);
        put_opt(&mut m, "style", &self.style);
        put_opt(&mut m, "confirm", &self.confirm);
        json_object(m)
    }
}

impl From<ButtonElement> for BlockElement {
    fn from(value: ButtonElement) -> (r: Self)
        ensures
            r.json() == value.json(),
            tag_of(r.json()) == "button"@,
    {
        proof {
            lemma_button_element_shape(value);
        }
        BlockElement(value.to_value())
    }
}

impl FromSpecImpl<ButtonElement> for BlockElement {
    open spec fn obeys_from_spec() -> bool {
        false
    }

    open spec fn from_spec(v: ButtonElement) -> Self {
        arbitrary()
    }
}

/// The members of a button: the tag `button`, each required field, each
/// optional field that is set, and nothing else.
pub proof fn lemma_button_element_shape(x: ButtonElement)
    ensures
        tag_of(x.json()) == "button"@,
        member(x.json(), "text"@) == Some(x.text.json()),
        member(x.json(), "action_id"@) == Some(x.action_id.json()),
        member(x.json(), "url"@) == opt_json(x.url),
        member(x.json(), "value"@) == opt_json(x.value),
        member(x.json(), "style"@) == opt_json(x.style),
        member(x.json(), "confirm"@) == opt_json(x.confirm),
        forall|k: Seq<char>|
            (#[trigger] member(x.json(), k)) is Some ==> k == "type"@ || k == "text"@
                || k == "action_id"@ || k == "url"@ || k == "value"@ || k == "style"@
                || k == "confirm"@,
{
    reveal_strlit("type");
    reveal_strlit("text");
    reveal_strlit("action_id");
    reveal_strlit("url");
    reveal_strlit("value");
    reveal_strlit("style");
    reveal_strlit("confirm");
    assert("type"@.len() == 4);
    assert("text"@.len() == 4);
    assert("action_id"@.len() == 9);
    assert("url"@.len() == 3);
    assert("value"@.len() == 5);
    assert("style"@.len() == 5);
    assert("confirm"@.len() == 7);
    assert("type"@[1] != "text"@[1]);
    assert("value"@[0] != "style"@[0]);
}

} // verus!
