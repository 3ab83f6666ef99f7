//! Elements that take what a user enters: text, numbers, dates, times and
//! files.

use vstd::prelude::*;
use vstd::std_specs::convert::FromSpecImpl;
use vstd::string::StringExecFns;
use crate::blocks::text::PlainText;
use crate::encode::{ToJson, opt_json, put, put_opt, put_tag, tag_of, with_opt};
use crate::json::{Json, json_object, map_new, member, no_members};
use super::common::{BlockElement, ConfirmationDialog, DispatchActionConfig};

verus! {

/// A field for plain text.
#[derive(Debug, Clone, PartialEq)]
pub struct PlainTextInputElement {
    /// The identifier of the element in interaction payloads.
    pub action_id: String,
    /// Text shown while nothing is chosen or entered.
    pub placeholder: Option<PlainText>,
    /// The value entered at first.
    pub initial_value: Option<String>,
    /// Whether the field takes several lines.
    pub multiline: Option<bool>,
    /// Fewest characters that may be entered.
    pub min_length: Option<u32>,
    /// Most characters that may be entered.
    pub max_length: Option<u32>,
    /// Which interactions are reported as actions.
    pub dispatch_action_config: Option<DispatchActionConfig>,
}

impl PlainTextInputElement {
    /// A plain text input with its required fields; every optional field is
    /// unset.
    pub fn new(action_id: &str) -> (r: Self)
        ensures
            r.action_id@ == action_id@,
            r.placeholder is None,
            r.initial_value is None,
            r.multiline is None,
            r.min_length is None,
            r.max_length is None,
            r.dispatch_action_config is None,
    {
        PlainTextInputElement {
            action_id: String::from_str(action_id),
            placeholder: None,
            initial_value: None,
            multiline: None,
            min_length: None,
            max_length: None,
            dispatch_action_config: None,
        }
    }

    /// Sets `placeholder`: text shown while nothing is chosen or entered.
    pub fn placeholder(self, text: PlainText) -> (r: Self)
        ensures
            r == (PlainTextInputElement { placeholder: Some(text), ..self }),
    {
        PlainTextInputElement { placeholder: Some(text), ..self }
    }

    /// Sets `initial_value`: the value entered at first.
    pub fn initial_value(self, value: &str) -> (r: Self)
        ensures
            r.initial_value matches Some(s) && s@ == value@,
            r == (PlainTextInputElement { initial_value: r.initial_value, ..self }),
    {
        PlainTextInputElement { initial_value: Some(String::from_str(value)), ..self }
    }

    /// Sets `multiline`: whether the field takes several lines.
    pub fn multiline(self, yes: bool) -> (r: Self)
        ensures
            r == (PlainTextInputElement { multiline: Some(yes), ..self }),
    {
        PlainTextInputElement { multiline: Some(yes), ..self }
    }

    /// Sets `min_length`: fewest characters that may be entered.
    pub fn min_length(self, value: u32) -> (r: Self)
        ensures
            r == (PlainTextInputElement { min_length: Some(value), ..self }),
    {
        PlainTextInputElement { min_length: Some(value), ..self }
    }

    /// Sets `max_length`: most characters that may be entered.
    pub fn max_length(self, value: u32) -> (r: Self)
        ensures
            r == (PlainTextInputElement { max_length: Some(value), ..self }),
    {
        PlainTextInputElement { max_length: Some(value), ..self }
    }

    /// Sets `dispatch_action_config`: which interactions are reported as
    /// actions.
    pub fn dispatch_action_config(self, cfg: DispatchActionConfig) -> (r: Self)
        ensures
            r == (PlainTextInputElement { dispatch_action_config: Some(cfg), ..self }),
    {
        PlainTextInputElement { dispatch_action_config: Some(cfg), ..self }
    }
}

impl ToJson for PlainTextInputElement {
    open spec fn json(&self) -> Json {
        let m = no_members().insert("type"@, Json::Str("plain_text_input"@));
        let m = m.insert("action_id"@, self.action_id.json());
        let m = with_opt(m, "placeholder"@, self.placeholder);
        let m = with_opt(m, "initial_value"@, self.initial_value);
        let m = with_opt(m, "multiline"@, self.multiline);
        let m = with_opt(m, "min_length"@, self.min_length);
        let m = with_opt(m, "max_length"@, self.max_length);
        let m = with_opt(m, "dispatch_action_config"@, self.dispatch_action_config);
        Json::Object(m)
    }

    fn to_value(&self) -> (v: serde_json::Value) {
        let mut m = map_new();
        put_tag(&mut m, "plain_text_input");
        put(&mut m, "action_id", &self.action_id);
        put_opt(&mut m, "placeholder", &self.placeholder);
        put_opt(&mut m, "initial_value", &self.initial_value);
        put_opt(&mut m, "multiline", &self.multiline);
        put_opt(&mut m, "min_length", &self.min_length);
        put_opt(&mut m, "max_length", &self.max_length);
        put_opt(&mut m, "dispatch_action_config", &self.dispatch_action_config);
        json_object(m)
    }
}

impl From<PlainTextInputElement> for BlockElement {
    fn from(value: PlainTextInputElement) -> (r: Self)
        ensures
            r.json() == value.json(),
            tag_of(r.json()) == "plain_text_input"@,
    {
        proof {
            lemma_plain_text_input_element_shape(value);
        }
        BlockElement(value.to_value())
    }
}

impl FromSpecImpl<PlainTextInputElement> for BlockElement {
    open spec fn obeys_from_spec() -> bool {
        false
    }

    open spec fn from_spec(v: PlainTextInputElement) -> Self {
        arbitrary()
    }
}

/// The members of a plain text input: the tag `plain_text_input`, each
/// required field, each optional field that is set, and nothing else.
pub proof fn lemma_plain_text_input_element_shape(x: PlainTextInputElement)
    ensures
        tag_of(x.json()) == "plain_text_input"@,
        member(x.json(), "action_id"@) == Some(x.action_id.json()),
        member(x.json(), "placeholder"@) == opt_json(x.placeholder),
        member(x.json(), "initial_value"@) == opt_json(x.initial_value),
        member(x.json(), "multiline"@) == opt_json(x.multiline),
        member(x.json(), "min_length"@) == opt_json(x.min_length),
        member(x.json(), "max_length"@) == opt_json(x.max_length),
        member(x.json(), "dispatch_action_config"@) == opt_json(x.dispatch_action_config),
        forall|k: Seq<char>|
            (#[trigger] member(x.json(), k)) is Some ==> k == "type"@ || k == "action_id"@
                || k == "placeholder"@ || k == "initial_value"@ || k == "multiline"@
                || k == "min_length"@ || k == "max_length"@ || k == "dispatch_action_config"@,
{
    reveal_strlit("type");
    reveal_strlit("action_id");
    reveal_strlit("placeholder");
    reveal_strlit("initial_value");
    reveal_strlit("multiline");
    reveal_strlit("min_length");
    reveal_strlit("max_length");
    reveal_strlit("dispatch_action_config");
    assert("type"@.len() == 4);
    assert("action_id"@.len() == 9);
    assert("placeholder"@.len() == 11);
    assert("initial_value"@.len() == 13);
    assert("multiline"@.len() == 9);
    assert("min_length"@.len() == 10);
    assert("max_length"@.len() == 10);
    assert("dispatch_action_config"@.len() == 22);
    assert("action_id"@[0] != "multiline"@[0]);
    assert("min_length"@[1] != "max_length"@[1]);
}

/// A calendar to pick a date from.
#[derive(Debug, Clone, PartialEq)]
pub struct DatePickerElement {
    /// The identifier of the element in interaction payloads.
    pub action_id: String,
    /// Text shown while nothing is chosen or entered.
    pub placeholder: Option<PlainText>,
    /// The date picked at first, as `YYYY-MM-DD`.
    pub initial_date: Option<String>,
    /// A dialog that asks the user to confirm.
    pub confirm: Option<ConfirmationDialog>,
}

impl DatePickerElement {
    /// A date picker with its required fields; every optional field is unset.
    pub fn new(action_id: &str) -> (r: Self)
        ensures
            r.action_id@ == action_id@,
            r.placeholder is None,
            r.initial_date is None,
            r.confirm is None,
    {
        DatePickerElement {
            action_id: String::from_str(action_id),
            placeholder: None,
            initial_date: None,
            confirm: None,
        }
    }

    /// Sets `placeholder`: text shown while nothing is chosen or entered.
    pub fn placeholder(self, text: PlainText) -> (r: Self)
        ensures
            r == (DatePickerElement { placeholder: Some(text), ..self }),
    {
        DatePickerElement { placeholder: Some(text), ..self }
    }

    /// Sets `initial_date`: the date picked at first, as `YYYY-MM-DD`.
    pub fn initial_date(self, date: &str) -> (r: Self)
        ensures
            r.initial_date matches Some(s) && s@ == date@,
            r == (DatePickerElement { initial_date: r.initial_date, ..self }),
    {
        DatePickerElement { initial_date: Some(String::from_str(date)), ..self }
    }

    /// Sets `confirm`: a dialog that asks the user to confirm.
    pub fn confirm(self, dialog: ConfirmationDialog) -> (r: Self)
        ensures
            r == (DatePickerElement { confirm: Some(dialog), ..self }),
    {
        DatePickerElement { confirm: Some(dialog), ..self }
    }
}

impl ToJson for DatePickerElement {
    open spec fn json(&self) -> Json {
        let m = no_members().insert("type"@, Json::Str("datepicker"@));
        let m = m.insert("action_id"@, self.action_id.json());
        let m = with_opt(m, "placeholder"@, self.placeholder);
        let m = with_opt(m, "initial_date"@, self.initial_date);
        let m = with_opt(m, "confirm"@, self.confirm);
        Json::Object(m)
    }

    fn to_value(&self) -> (v: serde_json::Value) {
        let mut m = map_new();
        put_tag(&mut m, "datepicker");
        put(&mut m, "action_id", &self.action_id);
        put_opt(&mut m, "placeholder", &self.placeholder);
        put_opt(&mut m, "initial_date", &self.initial_date);
        put_opt(&mut m, "confirm", &self.confirm);
        json_object(m)
    }
}

impl From<DatePickerElement> for BlockElement {
    fn from(value: DatePickerElement) -> (r: Self)
        ensures
            r.json() == value.json(),
            tag_of(r.json()) == "datepicker"@,
    {
        proof {
            lemma_date_picker_element_shape(value);
        }
        BlockElement(value.to_value())
    }
}

impl FromSpecImpl<DatePickerElement> for BlockElement {
    open spec fn obeys_from_spec() -> bool {
        false
    }

    open spec fn from_spec(v: DatePickerElement) -> Self {
        arbitrary()
    }
}

/// The members of a date picker: the tag `datepicker`, each required field,
/// each optional field that is set, and nothing else.
pub proof fn lemma_date_picker_element_shape(x: DatePickerElement)
    ensures
        tag_of(x.json()) == "datepicker"@,
        member(x.json(), "action_id"@) == Some(x.action_id.json()),
        member(x.json(), "placeholder"@) == opt_json(x.placeholder),
        member(x.json(), "initial_date"@) == opt_json(x.initial_date),
        member(x.json(), "confirm"@) == opt_json(x.confirm),
        forall|k: Seq<char>|
            (#[trigger] member(x.json(), k)) is Some ==> k == "type"@ || k == "action_id"@
                || k == "placeholder"@ || k == "initial_date"@ || k == "confirm"@,
{
    reveal_strlit("type");
    reveal_strlit("action_id");
    reveal_strlit("placeholder");
    reveal_strlit("initial_date");
    reveal_strlit("confirm");
    assert("type"@.len() == 4);
    assert("action_id"@.len() == 9);
    assert("placeholder"@.len() == 11);
    assert("initial_date"@.len() == 12);
    assert("confirm"@.len() == 7);
}

/// A list to pick a time of day from.
#[derive(Debug, Clone, PartialEq)]
pub struct TimePickerElement {
    /// The identifier of the element in interaction payloads.
    pub action_id: String,
    /// Text shown while nothing is chosen or entered.
    pub placeholder: Option<PlainText>,
    /// The time picked at first, as `HH:mm`.
    pub initial_time: Option<String>,
    /// A dialog that asks the user to confirm.
    pub confirm: Option<ConfirmationDialog>,
}

impl TimePickerElement {
    /// A time picker with its required fields; every optional field is unset.
    pub fn new(action_id: &str) -> (r: Self)
        ensures
            r.action_id@ == action_id@,
            r.placeholder is None,
            r.initial_time is None,
            r.confirm is None,
    {
        TimePickerElement {
            action_id: String::from_str(action_id),
            placeholder: None,
            initial_time: None,
            confirm: None,
        }
    }

    /// Sets `placeholder`: text shown while nothing is chosen or entered.
    pub fn placeholder(self, text: PlainText) -> (r: Self)
        ensures
            r == (TimePickerElement { placeholder: Some(text), ..self }),
    {
        TimePickerElement { placeholder: Some(text), ..self }
    }

    /// Sets `initial_time`: the time picked at first, as `HH:mm`.
    pub fn initial_time(self, time: &str) -> (r: Self)
        ensures
            r.initial_time matches Some(s) && s@ == time@,
            r == (TimePickerElement { initial_time: r.initial_time, ..self }),
    {
        TimePickerElement { initial_time: Some(String::from_str(time)), ..self }
    }

    /// Sets `confirm`: a dialog that asks the user to confirm.
    pub fn confirm(self, dialog: ConfirmationDialog) -> (r: Self)
        ensures
            r == (TimePickerElement { confirm: Some(dialog), ..self }),
    {
        TimePickerElement { confirm: Some(dialog), ..self }
    }
}

impl ToJson for TimePickerElement {
    open spec fn json(&self) -> Json {
        let m = no_members().insert("type"@, Json::Str("timepicker"@));
        let m = m.insert("action_id"@, self.action_id.json());
        let m = with_opt(m, "placeholder"@, self.placeholder);
        let m = with_opt(m, "initial_time"@, self.initial_time);
        let m = with_opt(m, "confirm"@, self.confirm);
        Json::Object(m)
    }

    fn to_value(&self) -> (v: serde_json::Value) {
        let mut m = map_new();
        put_tag(&mut m, "timepicker");
        put(&mut m, "action_id", &self.action_id);
        put_opt(&mut m, "placeholder", &self.placeholder);
        put_opt(&mut m, "initial_time", &self.initial_time);
        put_opt(&mut m, "confirm", &self.confirm);
        json_object(m)
    }
}

impl From<TimePickerElement> for BlockElement {
    fn from(value: TimePickerElement) -> (r: Self)
        ensures
            r.json() == value.json(),
            tag_of(r.json()) == "timepicker"@,
    {
        proof {
            lemma_time_picker_element_shape(value);
        }
        BlockElement(value.to_value())
    }
}

impl FromSpecImpl<TimePickerElement> for BlockElement {
    open spec fn obeys_from_spec() -> bool {
        false
    }

    open spec fn from_spec(v: TimePickerElement) -> Self {
        arbitrary()
    }
}

/// The members of a time picker: the tag `timepicker`, each required field,
/// each optional field that is set, and nothing else.
pub proof fn lemma_time_picker_element_shape(x: TimePickerElement)
    ensures
        tag_of(x.json()) == "timepicker"@,
        member(x.json(), "action_id"@) == Some(x.action_id.json()),
        member(x.json(), "placeholder"@) == opt_json(x.placeholder),
        member(x.json(), "initial_time"@) == opt_json(x.initial_time),
        member(x.json(), "confirm"@) == opt_json(x.confirm),
        forall|k: Seq<char>|
            (#[trigger] member(x.json(), k)) is Some ==> k == "type"@ || k == "action_id"@
                || k == "placeholder"@ || k == "initial_time"@ || k == "confirm"@,
{
    reveal_strlit("type");
    reveal_strlit("action_id");
    reveal_strlit("placeholder");
    reveal_strlit("initial_time");
    reveal_strlit("confirm");
    assert("type"@.len() == 4);
    assert("action_id"@.len() == 9);
    assert("placeholder"@.len() == 11);
    assert("initial_time"@.len() == 12);
    assert("confirm"@.len() == 7);
}

/// A field for an email address.
#[derive(Debug, Clone, PartialEq)]
pub struct EmailInputElement {
    /// The identifier of the element in interaction payloads.
    pub action_id: String,
    /// Text shown while nothing is chosen or entered.
    pub placeholder: Option<PlainText>,
    /// The value entered at first.
    pub initial_value: Option<String>,
}

impl EmailInputElement {
    /// A email input with its required fields; every optional field is unset.
    pub fn new(action_id: &str) -> (r: Self)
        ensures
            r.action_id@ == action_id@,
            r.placeholder is None,
            r.initial_value is None,
    {
        EmailInputElement {
            action_id: String::from_str(action_id),
            placeholder: None,
            initial_value: None,
        }
    }

    /// Sets `placeholder`: text shown while nothing is chosen or entered.
    pub fn placeholder(self, text: PlainText) -> (r: Self)
        ensures
            r == (EmailInputElement { placeholder: Some(text), ..self }),
    {
        EmailInputElement { placeholder: Some(text), ..self }
    }

    /// Sets `initial_value`: the value entered at first.
    pub fn initial_value(self, value: &str) -> (r: Self)
        ensures
            r.initial_value matches Some(s) && s@ == value@,
            r == (EmailInputElement { initial_value: r.initial_value, ..self }),
    {
        EmailInputElement { initial_value: Some(String::from_str(value)), ..self }
    }
}

impl ToJson for EmailInputElement {
    open spec fn json(&self) -> Json {
        let m = no_members().insert("type"@, Json::Str("email_text_input"@));
        let m = m.insert("action_id"@, self.action_id.json());
        let m = with_opt(m, "placeholder"@, self.placeholder);
        let m = with_opt(m, "initial_value"@, self.initial_value);
        Json::Object(m)
    }

    fn to_value(&self) -> (v: serde_json::Value) {
        let mut m = map_new();
        put_tag(&mut m, "email_text_input");
        put(&mut m, "action_id", &self.action_id);
        put_opt(&mut m, "placeholder", &self.placeholder);
        put_opt(&mut m, "initial_value", &self.initial_value);
        json_object(m)
    }
}

impl From<EmailInputElement> for BlockElement {
    fn from(value: EmailInputElement) -> (r: Self)
        ensures
            r.json() == value.json(),
            tag_of(r.json()) == "email_text_input"@,
    {
        proof {
            lemma_email_input_element_shape(value);
        }
        BlockElement(value.to_value())
    }
}

impl FromSpecImpl<EmailInputElement> for BlockElement {
    open spec fn obeys_from_spec() -> bool {
        false
    }

    open spec fn from_spec(v: EmailInputElement) -> Self {
        arbitrary()
    }
}

/// The members of a email input: the tag `email_text_input`, each required
/// field, each optional field that is set, and nothing else.
pub proof fn lemma_email_input_element_shape(x: EmailInputElement)
    ensures
        tag_of(x.json()) == "email_text_input"@,
        member(x.json(), "action_id"@) == Some(x.action_id.json()),
        member(x.json(), "placeholder"@) == opt_json(x.placeholder),
        member(x.json(), "initial_value"@) == opt_json(x.initial_value),
        forall|k: Seq<char>|
            (#[trigger] member(x.json(), k)) is Some ==> k == "type"@ || k == "action_id"@
                || k == "placeholder"@ || k == "initial_value"@,
{
    reveal_strlit("type");
    reveal_strlit("action_id");
    reveal_strlit("placeholder");
    reveal_strlit("initial_value");
    assert("type"@.len() == 4);
    assert("action_id"@.len() == 9);
    assert("placeholder"@.len() == 11);
    assert("initial_value"@.len() == 13);
}

/// A field for a URL.
#[derive(Debug, Clone, PartialEq)]
pub struct UrlInputElement {
    /// The identifier of the element in interaction payloads.
    pub action_id: String,
    /// Text shown while nothing is chosen or entered.
    pub placeholder: Option<PlainText>,
    /// The value entered at first.
    pub initial_value: Option<String>,
}

impl UrlInputElement {
    /// A URL input with its required fields; every optional field is unset.
    pub fn new(action_id: &str) -> (r: Self)
        ensures
            r.action_id@ == action_id@,
            r.placeholder is None,
            r.initial_value is None,
    {
        UrlInputElement {
            action_id: String::from_str(action_id),
            placeholder: None,
            initial_value: None,
        }
    }

    /// Sets `placeholder`: text shown while nothing is chosen or entered.
    pub fn placeholder(self, text: PlainText) -> (r: Self)
        ensures
            r == (UrlInputElement { placeholder: Some(text), ..self }),
    {
        UrlInputElement { placeholder: Some(text), ..self }
    }

    /// Sets `initial_value`: the value entered at first.
    pub fn initial_value(self, value: &str) -> (r: Self)
        ensures
            r.initial_value matches Some(s) && s@ == value@,
            r == (UrlInputElement { initial_value: r.initial_value, ..self }),
    {
        UrlInputElement { initial_value: Some(String::from_str(value)), ..self }
    }
}

impl ToJson for UrlInputElement {
    open spec fn json(&self) -> Json {
        let m = no_members().insert("type"@, Json::Str("url_text_input"@));
        let m = m.insert("action_id"@, self.action_id.json());
        let m = with_opt(m, "placeholder"@, self.placeholder);
        let m = with_opt(m, "initial_value"@, self.initial_value);
        Json::Object(m)
    }

    fn to_value(&self) -> (v: serde_json::Value) {
        let mut m = map_new();
        put_tag(&mut m, "url_text_input");
        put(&mut m, "action_id", &self.action_id);
        put_opt(&mut m, "placeholder", &self.placeholder);
        put_opt(&mut m, "initial_value", &self.initial_value);
        json_object(m)
    }
}

impl From<UrlInputElement> for BlockElement {
    fn from(value: UrlInputElement) -> (r: Self)
        ensures
            r.json() == value.json(),
            tag_of(r.json()) == "url_text_input"@,
    {
        proof {
            lemma_url_input_element_shape(value);
        }
        BlockElement(value.to_value())
    }
}

impl FromSpecImpl<UrlInputElement> for BlockElement {
    open spec fn obeys_from_spec() -> bool {
        false
    }

    open spec fn from_spec(v: UrlInputElement) -> Self {
        arbitrary()
    }
}

/// The members of a URL input: the tag `url_text_input`, each required field,
/// each optional field that is set, and nothing else.
pub proof fn lemma_url_input_element_shape(x: UrlInputElement)
    ensures
        tag_of(x.json()) == "url_text_input"@,
        member(x.json(), "action_id"@) == Some(x.action_id.json()),
        member(x.json(), "placeholder"@) == opt_json(x.placeholder),
        member(x.json(), "initial_value"@) == opt_json(x.initial_value),
        forall|k: Seq<char>|
            (#[trigger] member(x.json(), k)) is Some ==> k == "type"@ || k == "action_id"@
                || k == "placeholder"@ || k == "initial_value"@,
{
    reveal_strlit("type");
    reveal_strlit("action_id");
    reveal_strlit("placeholder");
    reveal_strlit("initial_value");
    assert("type"@.len() == 4);
    assert("action_id"@.len() == 9);
    assert("placeholder"@.len() == 11);
    assert("initial_value"@.len() == 13);
}

/// A field for a number.
#[derive(Debug, Clone, PartialEq)]
pub struct NumberInputElement {
    /// The identifier of the element in interaction payloads.
    pub action_id: String,
    /// Text shown while nothing is chosen or entered.
    pub placeholder: Option<PlainText>,
    /// The value entered at first.
    pub initial_value: Option<String>,
    /// The least number that may be entered.
    pub min_value: Option<i64>,
    /// The greatest number that may be entered.
    pub max_value: Option<i64>,
    /// Whether a number with a fraction may be entered.
    pub is_decimal_allowed: Option<bool>,
}

impl NumberInputElement {
    /// A number input with its required fields; every optional field is
    /// unset.
    pub fn new(action_id: &str) -> (r: Self)
        ensures
            r.action_id@ == action_id@,
            r.placeholder is None,
            r.initial_value is None,
            r.min_value is None,
            r.max_value is None,
            r.is_decimal_allowed is None,
    {
        NumberInputElement {
            action_id: String::from_str(action_id),
            placeholder: None,
            initial_value: None,
            min_value: None,
            max_value: None,
            is_decimal_allowed: None,
        }
    }

    /// Sets `placeholder`: text shown while nothing is chosen or entered.
    pub fn placeholder(self, text: PlainText) -> (r: Self)
        ensures
            r == (NumberInputElement { placeholder: Some(text), ..self }),
    {
        NumberInputElement { placeholder: Some(text), ..self }
    }

    /// Sets `initial_value`: the value entered at first.
    pub fn initial_value(self, value: &str) -> (r: Self)
        ensures
            r.initial_value matches Some(s) && s@ == value@,
            r == (NumberInputElement { initial_value: r.initial_value, ..self }),
    {
        NumberInputElement { initial_value: Some(String::from_str(value)), ..self }
    }

    /// Sets `min_value`: the least number that may be entered.
    pub fn min_value(self, value: i64) -> (r: Self)
        ensures
            r == (NumberInputElement { min_value: Some(value), ..self }),
    {
        NumberInputElement { min_value: Some(value), ..self }
    }

    /// Sets `max_value`: the greatest number that may be entered.
    pub fn max_value(self, value: i64) -> (r: Self)
        ensures
            r == (NumberInputElement { max_value: Some(value), ..self }),
    {
        NumberInputElement { max_value: Some(value), ..self }
    }

    /// Sets `is_decimal_allowed`: whether a number with a fraction may be
    /// entered.
    pub fn decimal_allowed(self, yes: bool) -> (r: Self)
        ensures
            r == (NumberInputElement { is_decimal_allowed: Some(yes), ..self }),
    {
        NumberInputElement { is_decimal_allowed: Some(yes), ..self }
    }
}

impl ToJson for NumberInputElement {
    open spec fn json(&self) -> Json {
        let m = no_members().insert("type"@, Json::Str("number_input"@));
        let m = m.insert("action_id"@, self.action_id.json());
        let m = with_opt(m, "placeholder"@, self.placeholder);
        let m = with_opt(m, "initial_value"@, self.initial_value);
        let m = with_opt(m, "min_value"@, self.min_value);
        let m = with_opt(m, "max_value"@, self.max_value);
        let m = with_opt(m, "is_decimal_allowed"@, self.is_decimal_allowed);
        Json::Object(m)
    }

    fn to_value(&self) -> (v: serde_json::Value) {
        let mut m = map_new();
        put_tag(&mut m, "number_input");
        put(&mut m, "action_id", &self.action_id);
        put_opt(&mut m, "placeholder", &self.placeholder);
        put_opt(&mut m, "initial_value", &self.initial_value);
        put_opt(&mut m, "min_value", &self.min_value);
        put_opt(&mut m, "max_value", &self.max_value);
        put_opt(&mut m, "is_decimal_allowed", &self.is_decimal_allowed);
        json_object(m)
    }
}

impl From<NumberInputElement> for BlockElement {
    fn from(value: NumberInputElement) -> (r: Self)
        ensures
            r.json() == value.json(),
            tag_of(r.json()) == "number_input"@,
    {
        proof {
            lemma_number_input_element_shape(value);
        }
        BlockElement(value.to_value())
    }
}

impl FromSpecImpl<NumberInputElement> for BlockElement {
    open spec fn obeys_from_spec() -> bool {
        false
    }

    open spec fn from_spec(v: NumberInputElement) -> Self {
        arbitrary()
    }
}

/// The members of a number input: the tag `number_input`, each required
/// field, each optional field that is set, and nothing else.
pub proof fn lemma_number_input_element_shape(x: NumberInputElement)
    ensures
        tag_of(x.json()) == "number_input"@,
        member(x.json(), "action_id"@) == Some(x.action_id.json()),
        member(x.json(), "placeholder"@) == opt_json(x.placeholder),
        member(x.json(), "initial_value"@) == opt_json(x.initial_value),
        member(x.json(), "min_value"@) == opt_json(x.min_value),
        member(x.json(), "max_value"@) == opt_json(x.max_value),
        member(x.json(), "is_decimal_allowed"@) == opt_json(x.is_decimal_allowed),
        forall|k: Seq<char>|
            (#[trigger] member(x.json(), k)) is Some ==> k == "type"@ || k == "action_id"@
                || k == "placeholder"@ || k == "initial_value"@ || k == "min_value"@
                || k == "max_value"@ || k == "is_decimal_allowed"@,
{
    reveal_strlit("type");
    reveal_strlit("action_id");
    reveal_strlit("placeholder");
    reveal_strlit("initial_value");
    reveal_strlit("min_value");
    reveal_strlit("max_value");
    reveal_strlit("is_decimal_allowed");
    assert("type"@.len() == 4);
    assert("action_id"@.len() == 9);
    assert("placeholder"@.len() == 11);
    assert("initial_value"@.len() == 13);
    assert("min_value"@.len() == 9);
    assert("max_value"@.len() == 9);
    assert("is_decimal_allowed"@.len() == 18);
    assert("action_id"@[0] != "min_value"@[0]);
    assert("action_id"@[0] != "max_value"@[0]);
    assert("min_value"@[1] != "max_value"@[1]);
}

/// A picker for a date together with a time of day.
#[derive(Debug, Clone, PartialEq)]
pub struct DateTimePickerElement {
    /// The identifier of the element in interaction payloads.
    pub action_id: String,
    /// The moment picked at first, in seconds since the epoch.
    pub initial_date_time: Option<i64>,
    /// A dialog that asks the user to confirm.
    pub confirm: Option<ConfirmationDialog>,
}

impl DateTimePickerElement {
    /// A date and time picker with its required fields; every optional field
    /// is unset.
    pub fn new(action_id: &str) -> (r: Self)
        ensures
            r.action_id@ == action_id@,
            r.initial_date_time is None,
            r.confirm is None,
    {
        DateTimePickerElement {
            action_id: String::from_str(action_id),
            initial_date_time: None,
            confirm: None,
        }
    }

    /// Sets `initial_date_time`: the moment picked at first, in seconds since
    /// the epoch.
    pub fn initial_date_time(self, ts: i64) -> (r: Self)
        ensures
            r == (DateTimePickerElement { initial_date_time: Some(ts), ..self }),
    {
        DateTimePickerElement { initial_date_time: Some(ts), ..self }
    }

    /// Sets `confirm`: a dialog that asks the user to confirm.
    pub fn confirm(self, dialog: ConfirmationDialog) -> (r: Self)
        ensures
            r == (DateTimePickerElement { confirm: Some(dialog), ..self }),
    {
        DateTimePickerElement { confirm: Some(dialog), ..self }
    }
}

impl ToJson for DateTimePickerElement {
    open spec fn json(&self) -> Json {
        let m = no_members().insert("type"@, Json::Str("datetimepicker"@));
        let m = m.insert("action_id"@, self.action_id.json());
        let m = with_opt(m, "initial_date_time"@, self.initial_date_time);
        let m = with_opt(m, "confirm"@, self.confirm);
        Json::Object(m)
    }

    fn to_value(&self) -> (v: serde_json::Value) {
        let mut m = map_new();
        put_tag(&mut m, "datetimepicker");
        put(&mut m, "action_id", &self.action_id);
        put_opt(&mut m, "initial_date_time", &self.initial_date_time);
        put_opt(&mut m, "confirm", &self.confirm);
        json_object(m)
    }
}

impl From<DateTimePickerElement> for BlockElement {
    fn from(value: DateTimePickerElement) -> (r: Self)
        ensures
            r.json() == value.json(),
            tag_of(r.json()) == "datetimepicker"@,
    {
        proof {
            lemma_date_time_picker_element_shape(value);
        }
        BlockElement(value.to_value())
    }
}

impl FromSpecImpl<DateTimePickerElement> for BlockElement {
    open spec fn obeys_from_spec() -> bool {
        false
    }

    open spec fn from_spec(v: DateTimePickerElement) -> Self {
        arbitrary()
    }
}

/// The members of a date and time picker: the tag `datetimepicker`, each
/// required field, each optional field that is set, and nothing else.
pub proof fn lemma_date_time_picker_element_shape(x: DateTimePickerElement)
    ensures
        tag_of(x.json()) == "datetimepicker"@,
        member(x.json(), "action_id"@) == Some(x.action_id.json()),
        member(x.json(), "initial_date_time"@) == opt_json(x.initial_date_time),
        member(x.json(), "confirm"@) == opt_json(x.confirm),
        forall|k: Seq<char>|
            (#[trigger] member(x.json(), k)) is Some ==> k == "type"@ || k == "action_id"@
                || k == "initial_date_time"@ || k == "confirm"@,
{
    reveal_strlit("type");
    reveal_strlit("action_id");
    reveal_strlit("initial_date_time");
    reveal_strlit("confirm");
    assert("type"@.len() == 4);
    assert("action_id"@.len() == 9);
    assert("initial_date_time"@.len() == 17);
    assert("confirm"@.len() == 7);
}

/// A field for formatted text.
#[derive(Debug, Clone, PartialEq)]
pub struct RichTextInputElement {
    /// The identifier of the element in interaction payloads.
    pub action_id: String,
}

impl RichTextInputElement {
    /// A rich text input.
    pub fn new(action_id: &str) -> (r: Self)
        ensures
            r.action_id@ == action_id@,
    {
        RichTextInputElement { action_id: String::from_str(action_id) }
    }
}

impl ToJson for RichTextInputElement {
    open spec fn json(&self) -> Json {
        let m = no_members().insert("type"@, Json::Str("rich_text_input"@));
        let m = m.insert("action_id"@, self.action_id.json());
        Json::Object(m)
    }

    fn to_value(&self) -> (v: serde_json::Value) {
        let mut m = map_new();
        put_tag(&mut m, "rich_text_input");
        put(&mut m, "action_id", &self.action_id);
        json_object(m)
    }
}

impl From<RichTextInputElement> for BlockElement {
    fn from(value: RichTextInputElement) -> (r: Self)
        ensures
            r.json() == value.json(),
            tag_of(r.json()) == "rich_text_input"@,
    {
        proof {
            lemma_rich_text_input_element_shape(value);
        }
        BlockElement(value.to_value())
    }
}

impl FromSpecImpl<RichTextInputElement> for BlockElement {
    open spec fn obeys_from_spec() -> bool {
        false
    }

    open spec fn from_spec(v: RichTextInputElement) -> Self {
        arbitrary()
    }
}

/// The members of a rich text input: the tag `rich_text_input`, each required
/// field, and nothing else.
pub proof fn lemma_rich_text_input_element_shape(x: RichTextInputElement)
    ensures
        tag_of(x.json()) == "rich_text_input"@,
        member(x.json(), "action_id"@) == Some(x.action_id.json()),
        forall|k: Seq<char>|
            (#[trigger] member(x.json(), k)) is Some ==> k == "type"@ || k == "action_id"@,
{
    reveal_strlit("type");
    reveal_strlit("action_id");
    assert("type"@.len() == 4);
    assert("action_id"@.len() == 9);
}

/// A field that takes files.
#[derive(Debug, Clone, PartialEq)]
pub struct FileInputElement {
    /// The identifier of the element in interaction payloads.
    pub action_id: String,
    /// Text shown while nothing is chosen or entered.
    pub placeholder: Option<PlainText>,
    /// The file types that are taken.
    pub filetypes: Option<Vec<String>>,
    /// Most files that may be given.
    pub max_files: Option<u32>,
}

impl FileInputElement {
    /// A file input with its required fields; every optional field is unset.
    pub fn new(action_id: &str) -> (r: Self)
        ensures
            r.action_id@ == action_id@,
            r.placeholder is None,
            r.filetypes is None,
            r.max_files is None,
    {
        FileInputElement {
            action_id: String::from_str(action_id),
            placeholder: None,
            filetypes: None,
            max_files: None,
        }
    }

    /// Sets `placeholder`: text shown while nothing is chosen or entered.
    pub fn placeholder(self, text: PlainText) -> (r: Self)
        ensures
            r == (FileInputElement { placeholder: Some(text), ..self }),
    {
        FileInputElement { placeholder: Some(text), ..self }
    }

    /// Sets `filetypes`: the file types that are taken.
    pub fn filetypes(self, kinds: Vec<String>) -> (r: Self)
        ensures
            r == (FileInputElement { filetypes: Some(kinds), ..self }),
    {
        FileInputElement { filetypes: Some(kinds), ..self }
    }

    /// Sets `max_files`: most files that may be given.
    pub fn max_files(self, value: u32) -> (r: Self)
        ensures
            r == (FileInputElement { max_files: Some(value), ..self }),
    {
        FileInputElement { max_files: Some(value), ..self }
    }
}

impl ToJson for FileInputElement {
    open spec fn json(&self) -> Json {
        let m = no_members().insert("type"@, Json::Str("file_input"@));
        let m = m.insert("action_id"@, self.action_id.json());
        let m = with_opt(m, "placeholder"@, self.placeholder);
        let m = with_opt(m, "filetypes"@, self.filetypes);
        let m = with_opt(m, "max_files"@, self.max_files);
        Json::Object(m)
    }

    fn to_value(&self) -> (v: serde_json::Value) {
        let mut m = map_new();
        put_tag(&mut m, "file_input");
        put(&mut m, "action_id", &self.action_id);
        put_opt(&mut m, "placeholder", &self.placeholder);
        put_opt(&mut m, "filetypes", &self.filetypes);
        put_opt(&mut m, "max_files", &self.max_files);
        json_object(m)
    }
}

impl From<FileInputElement> for BlockElement {
    fn from(value: FileInputElement) -> (r: Self)
        ensures
            r.json() == value.json(),
            tag_of(r.json()) == "file_input"@,
    {
        proof {
            lemma_file_input_element_shape(value);
        }
        BlockElement(value.to_value())
    }
}

impl FromSpecImpl<FileInputElement> for BlockElement {
    open spec fn obeys_from_spec() -> bool {
        false
    }

    open spec fn from_spec(v: FileInputElement) -> Self {
        arbitrary()
    }
}

/// The members of a file input: the tag `file_input`, each required field,
/// each optional field that is set, and nothing else.
pub proof fn lemma_file_input_element_shape(x: FileInputElement)
    ensures
        tag_of(x.json()) == "file_input"@,
        member(x.json(), "action_id"@) == Some(x.action_id.json()),
        member(x.json(), "placeholder"@) == opt_json(x.placeholder),
        member(x.json(), "filetypes"@) == opt_json(x.filetypes),
        member(x.json(), "max_files"@) == opt_json(x.max_files),
        forall|k: Seq<char>|
            (#[trigger] member(x.json(), k)) is Some ==> k == "type"@ || k == "action_id"@
                || k == "placeholder"@ || k == "filetypes"@ || k == "max_files"@,
{
    reveal_strlit("type");
    reveal_strlit("action_id");
    reveal_strlit("placeholder");
    reveal_strlit("filetypes");
    reveal_strlit("max_files");
    assert("type"@.len() == 4);
    assert("action_id"@.len() == 9);
    assert("placeholder"@.len() == 11);
    assert("filetypes"@.len() == 9);
    assert("max_files"@.len() == 9);
    assert("action_id"@[0] != "filetypes"@[0]);
    assert("action_id"@[0] != "max_files"@[0]);
    assert("filetypes"@[0] != "max_files"@[0]);
}

} // verus!
