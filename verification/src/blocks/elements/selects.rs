//! Menus: over fixed options, over options from an outside source, and over
//! the users, conversations and channels of a workspace; each for one choice
//! and for several.

use vstd::prelude::*;
use vstd::std_specs::convert::FromSpecImpl;
use vstd::string::StringExecFns;
use crate::blocks::text::PlainText;
use crate::encode::{ToJson, opt_json, put, put_opt, put_tag, tag_of, with_opt};
use crate::json::json_string;
use crate::json::{Json, json_object, map_new, member, no_members};
use super::common::{BlockElement, ConfirmationDialog, OptionGroup, SelectOption};

verus! {

/// A kind of conversation.
#[derive(Debug, Clone, Copy, PartialEq, Eq)]
pub enum ConversationsFilterKind {
    /// A direct message.
    Im,
    /// A direct message among several people.
    Mpim,
    /// A private channel.
    Private,
    /// A public channel.
    Public,
}

impl ToJson for ConversationsFilterKind {
    open spec fn json(&self) -> Json {
        match self {
            ConversationsFilterKind::Im => Json::Str("im"@),
            ConversationsFilterKind::Mpim => Json::Str("mpim"@),
            ConversationsFilterKind::Private => Json::Str("private"@),
            ConversationsFilterKind::Public => Json::Str("public"@),
        }
    }

    fn to_value(&self) -> (v: serde_json::Value) {
        let name = match self {
            ConversationsFilterKind::Im => "im",
            ConversationsFilterKind::Mpim => "mpim",
            ConversationsFilterKind::Private => "private",
            ConversationsFilterKind::Public => "public",
        };
        json_string(String::from_str(name))
    }
}

/// Which conversations a conversations menu offers.
#[derive(Debug, Clone, PartialEq, Eq)]
pub struct ConversationsFilter {
    /// The kinds of conversation that are offered.
    pub kinds: Option<Vec<ConversationsFilterKind>>,
    /// Whether channels shared with other organisations are left out.
    pub exclude_external_shared_channels: Option<bool>,
    /// Whether conversations with bots are left out.
    pub exclude_bot_users: Option<bool>,
}

impl ConversationsFilter {
    /// A conversations filter with every field unset.
    pub fn new() -> (r: Self)
        ensures
            r.kinds is None,
            r.exclude_external_shared_channels is None,
            r.exclude_bot_users is None,
    {
        ConversationsFilter {
            kinds: None,
            exclude_external_shared_channels: None,
            exclude_bot_users: None,
        }
    }

    /// Sets `kinds`: the kinds of conversation that are offered.
    pub fn including(self, kinds: Vec<ConversationsFilterKind>) -> (r: Self)
        ensures
            r == (ConversationsFilter { kinds: Some(kinds), ..self }),
    {
        ConversationsFilter { kinds: Some(kinds), ..self }
    }

    /// Sets `exclude_external_shared_channels`: whether channels shared with
    /// other organisations are left out.
    pub fn exclude_external_shared_channels(self, yes: bool) -> (r: Self)
        ensures
            r == (ConversationsFilter { exclude_external_shared_channels: Some(yes), ..self }),
    {
        ConversationsFilter { exclude_external_shared_channels: Some(yes), ..self }
    }

    /// Sets `exclude_bot_users`: whether conversations with bots are left
    /// out.
    pub fn exclude_bot_users(self, yes: bool) -> (r: Self)
        ensures
            r == (ConversationsFilter { exclude_bot_users: Some(yes), ..self }),
    {
        ConversationsFilter { exclude_bot_users: Some(yes), ..self }
    }
}

impl Default for ConversationsFilter {
    fn default() -> (r: Self)
        ensures
            r.kinds is None,
            r.exclude_external_shared_channels is None,
            r.exclude_bot_users is None,
    {
        ConversationsFilter::new()
    }
}

impl ToJson for ConversationsFilter {
    open spec fn json(&self) -> Json {
        let m = with_opt(no_members(), "include"@, self.kinds);
        let m = with_opt(
            m,
            "exclude_external_shared_channels"@,
            self.exclude_external_shared_channels,
        );
        let m = with_opt(m, "exclude_bot_users"@, self.exclude_bot_users);
        Json::Object(m)
    }

    fn to_value(&self) -> (v: serde_json::Value) {
        let mut m = map_new();
        put_opt(&mut m, "include", &self.kinds);
        put_opt(&mut m, "exclude_external_shared_channels", &self.exclude_external_shared_channels);
        put_opt(&mut m, "exclude_bot_users", &self.exclude_bot_users);
        json_object(m)
    }
}

/// The members of a conversations filter: each optional field that is set,
/// and nothing else.
pub proof fn lemma_conversations_filter_shape(x: ConversationsFilter)
    ensures
        member(x.json(), "include"@) == opt_json(x.kinds),
        member(x.json(), "exclude_external_shared_channels"@) == opt_json(
            x.exclude_external_shared_channels,
        ),
        member(x.json(), "exclude_bot_users"@) == opt_json(x.exclude_bot_users),
        forall|k: Seq<char>|
            (#[trigger] member(x.json(), k)) is Some ==> k == "include"@
                || k == "exclude_external_shared_channels"@ || k == "exclude_bot_users"@,
{
    reveal_strlit("include");
    reveal_strlit("exclude_external_shared_channels");
    reveal_strlit("exclude_bot_users");
    assert("include"@.len() == 7);
    assert("exclude_external_shared_channels"@.len() == 32);
    assert("exclude_bot_users"@.len() == 17);
}

/// A menu over fixed options, for one choice.
#[derive(Debug, Clone, PartialEq)]
pub struct StaticSelectElement {
    /// The identifier of the element in interaction payloads.
    pub action_id: String,
    /// Text shown while nothing is chosen or entered.
    pub placeholder: Option<PlainText>,
    /// The options to choose from.
    pub options: Option<Vec<SelectOption>>,
    /// The options to choose from, in groups.
    pub option_groups: Option<Vec<OptionGroup>>,
    /// The option chosen at first.
    pub initial_option: Option<SelectOption>,
    /// A dialog that asks the user to confirm.
    pub confirm: Option<ConfirmationDialog>,
}

impl StaticSelectElement {
    /// A static select menu with its required fields; every optional field is
    /// unset.
    pub fn new(action_id: &str) -> (r: Self)
        ensures
            r.action_id@ == action_id@,
            r.placeholder is None,
            r.options is None,
            r.option_groups is None,
            r.initial_option is None,
            r.confirm is None,
    {
        StaticSelectElement {
            action_id: String::from_str(action_id),
            placeholder: None,
            options: None,
            option_groups: None,
            initial_option: None,
            confirm: None,
        }
    }

    /// Sets `placeholder`: text shown while nothing is chosen or entered.
    pub fn placeholder(self, text: PlainText) -> (r: Self)
        ensures
            r == (StaticSelectElement { placeholder: Some(text), ..self }),
    {
        StaticSelectElement { placeholder: Some(text), ..self }
    }

    /// Sets `options`: the options to choose from.
    pub fn options(self, options: Vec<SelectOption>) -> (r: Self)
        ensures
            r == (StaticSelectElement { options: Some(options), ..self }),
    {
        StaticSelectElement { options: Some(options), ..self }
    }

    /// Sets `option_groups`: the options to choose from, in groups.
    pub fn option_groups(self, groups: Vec<OptionGroup>) -> (r: Self)
        ensures
            r == (StaticSelectElement { option_groups: Some(groups), ..self }),
    {
        StaticSelectElement { option_groups: Some(groups), ..self }
    }

    /// Sets `initial_option`: the option chosen at first.
    pub fn initial_option(self, option: SelectOption) -> (r: Self)
        ensures
            r == (StaticSelectElement { initial_option: Some(option), ..self }),
    {
        StaticSelectElement { initial_option: Some(option), ..self }
    }

    /// Sets `confirm`: a dialog that asks the user to confirm.
    pub fn confirm(self, dialog: ConfirmationDialog) -> (r: Self)
        ensures
            r == (StaticSelectElement { confirm: Some(dialog), ..self }),
    {
        StaticSelectElement { confirm: Some(dialog), ..self }
    }
}

impl ToJson for StaticSelectElement {
    open spec fn json(&self) -> Json {
        let m = no_members().insert("type"@, Json::Str("static_select"@));
        let m = m.insert("action_id"@, self.action_id.json());
        let m = with_opt(m, "placeholder"@, self.placeholder);
        let m = with_opt(m, "options"@, self.options);
        let m = with_opt(m, "option_groups"@, self.option_groups);
        let m = with_opt(m, "initial_option"@, self.initial_option);
        let m = with_opt(m, "confirm"@, self.confirm);
        Json::Object(m)
    }

    fn to_value(&self) -> (v: serde_json::Value) {
        let mut m = map_new();
        put_tag(&mut m, "static_select");
        put(&mut m, "action_id", &self.action_id);
        put_opt(&mut m, "placeholder", &self.placeholder);
        put_opt(&mut m, "options", &self.options);
        put_opt(&mut m, "option_groups", &self.option_groups);
        put_opt(&mut m, "initial_option", &self.initial_option);
        put_opt(&mut m, "confirm", &self.confirm);
        json_object(m)
    }
}

impl From<StaticSelectElement> for BlockElement {
    fn from(value: StaticSelectElement) -> (r: Self)
        ensures
            r.json() == value.json(),
            tag_of(r.json()) == "static_select"@,
    {
        proof {
            lemma_static_select_element_shape(value);
        }
        BlockElement(value.to_value())
    }
}

impl FromSpecImpl<StaticSelectElement> for BlockElement {
    open spec fn obeys_from_spec() -> bool {
        false
    }

    open spec fn from_spec(v: StaticSelectElement) -> Self {
        arbitrary()
    }
}

/// The members of a static select menu: the tag `static_select`, each
/// required field, each optional field that is set, and nothing else.
pub proof fn lemma_static_select_element_shape(x: StaticSelectElement)
    ensures
        tag_of(x.json()) == "static_select"@,
        member(x.json(), "action_id"@) == Some(x.action_id.json()),
        member(x.json(), "placeholder"@) == opt_json(x.placeholder),
        member(x.json(), "options"@) == opt_json(x.options),
        member(x.json(), "option_groups"@) == opt_json(x.option_groups),
        member(x.json(), "initial_option"@) == opt_json(x.initial_option),
        member(x.json(), "confirm"@) == opt_json(x.confirm),
        forall|k: Seq<char>|
            (#[trigger] member(x.json(), k)) is Some ==> k == "type"@ || k == "action_id"@
                || k == "placeholder"@ || k == "options"@ || k == "option_groups"@
                || k == "initial_option"@ || k == "confirm"@,
{
    reveal_strlit("type");
    reveal_strlit("action_id");
    reveal_strlit("placeholder");
    reveal_strlit("options");
    reveal_strlit("option_groups");
    reveal_strlit("initial_option");
    reveal_strlit("confirm");
    assert("type"@.len() == 4);
    assert("action_id"@.len() == 9);
    assert("placeholder"@.len() == 11);
    assert("options"@.len() == 7);
    assert("option_groups"@.len() == 13);
    assert("initial_option"@.len() == 14);
    assert("confirm"@.len() == 7);
    assert("options"@[0] != "confirm"@[0]);
}

/// A menu over fixed options, for several choices.
#[derive(Debug, Clone, PartialEq)]
pub struct MultiStaticSelectElement {
    /// The identifier of the element in interaction payloads.
    pub action_id: String,
    /// Text shown while nothing is chosen or entered.
    pub placeholder: Option<PlainText>,
    /// The options to choose from.
    pub options: Option<Vec<SelectOption>>,
    /// The options to choose from, in groups.
    pub option_groups: Option<Vec<OptionGroup>>,
    /// The options chosen at first.
    pub initial_options: Option<Vec<SelectOption>>,
    /// Most items that may be chosen.
    pub max_selected_items: Option<u32>,
    /// A dialog that asks the user to confirm.
    pub confirm: Option<ConfirmationDialog>,
}

impl MultiStaticSelectElement {
    /// A multi static select menu with its required fields; every optional
    /// field is unset.
    pub fn new(action_id: &str) -> (r: Self)
        ensures
            r.action_id@ == action_id@,
            r.placeholder is None,
            r.options is None,
            r.option_groups is None,
            r.initial_options is None,
            r.max_selected_items is None,
            r.confirm is None,
    {
        MultiStaticSelectElement {
            action_id: String::from_str(action_id),
            placeholder: None,
            options: None,
            option_groups: None,
            initial_options: None,
            max_selected_items: None,
            confirm: None,
        }
    }

    /// Sets `placeholder`: text shown while nothing is chosen or entered.
    pub fn placeholder(self, text: PlainText) -> (r: Self)
        ensures
            r == (MultiStaticSelectElement { placeholder: Some(text), ..self }),
    {
        MultiStaticSelectElement { placeholder: Some(text), ..self }
    }

    /// Sets `options`: the options to choose from.
    pub fn options(self, options: Vec<SelectOption>) -> (r: Self)
        ensures
            r == (MultiStaticSelectElement { options: Some(options), ..self }),
    {
        MultiStaticSelectElement { options: Some(options), ..self }
    }

    /// Sets `option_groups`: the options to choose from, in groups.
    pub fn option_groups(self, groups: Vec<OptionGroup>) -> (r: Self)
        ensures
            r == (MultiStaticSelectElement { option_groups: Some(groups), ..self }),
    {
        MultiStaticSelectElement { option_groups: Some(groups), ..self }
    }

    /// Sets `initial_options`: the options chosen at first.
    pub fn initial_options(self, options: Vec<SelectOption>) -> (r: Self)
        ensures
            r == (MultiStaticSelectElement { initial_options: Some(options), ..self }),
    {
        MultiStaticSelectElement { initial_options: Some(options), ..self }
    }

    /// Sets `max_selected_items`: most items that may be chosen.
    pub fn max_selected_items(self, value: u32) -> (r: Self)
        ensures
            r == (MultiStaticSelectElement { max_selected_items: Some(value), ..self }),
    {
        MultiStaticSelectElement { max_selected_items: Some(value), ..self }
    }

    /// Sets `confirm`: a dialog that asks the user to confirm.
    pub fn confirm(self, dialog: ConfirmationDialog) -> (r: Self)
        ensures
            r == (MultiStaticSelectElement { confirm: Some(dialog), ..self }),
    {
        MultiStaticSelectElement { confirm: Some(dialog), ..self }
    }
}

impl ToJson for MultiStaticSelectElement {
    open spec fn json(&self) -> Json {
        let m = no_members().insert("type"@, Json::Str("multi_static_select"@));
        let m = m.insert("action_id"@, self.action_id.json());
        let m = with_opt(m, "placeholder"@, self.placeholder);
        let m = with_opt(m, "options"@, self.options);
        let m = with_opt(m, "option_groups"@, self.option_groups);
        let m = with_opt(m, "initial_options"@, self.initial_options);
        let m = with_opt(m, "max_selected_items"@, self.max_selected_items);
        let m = with_opt(m, "confirm"@, self.confirm);
        Json::Object(m)
    }

    fn to_value(&self) -> (v: serde_json::Value) {
        let mut m = map_new();
        put_tag(&mut m, "multi_static_select");
        put(&mut m, "action_id", &self.action_id);
        put_opt(&mut m, "placeholder", &self.placeholder);
        put_opt(&mut m, "options", &self.options);
        put_opt(&mut m, "option_groups", &self.option_groups);
        put_opt(&mut m, "initial_options", &self.initial_options);
        put_opt(&mut m, "max_selected_items", &self.max_selected_items);
        put_opt(&mut m, "confirm", &self.confirm);
        json_object(m)
    }
}

impl From<MultiStaticSelectElement> for BlockElement {
    fn from(value: MultiStaticSelectElement) -> (r: Self)
        ensures
            r.json() == value.json(),
            tag_of(r.json()) == "multi_static_select"@,
    {
        proof {
            lemma_multi_static_select_element_shape(value);
        }
        BlockElement(value.to_value())
    }
}

impl FromSpecImpl<MultiStaticSelectElement> for BlockElement {
    open spec fn obeys_from_spec() -> bool {
        false
    }

    open spec fn from_spec(v: MultiStaticSelectElement) -> Self {
        arbitrary()
    }
}

/// The members of a multi static select menu: the tag `multi_static_select`,
/// each required field, each optional field that is set, and nothing else.
pub proof fn lemma_multi_static_select_element_shape(x: MultiStaticSelectElement)
    ensures
        tag_of(x.json()) == "multi_static_select"@,
        member(x.json(), "action_id"@) == Some(x.action_id.json()),
        member(x.json(), "placeholder"@) == opt_json(x.placeholder),
        member(x.json(), "options"@) == opt_json(x.options),
        member(x.json(), "option_groups"@) == opt_json(x.option_groups),
        member(x.json(), "initial_options"@) == opt_json(x.initial_options),
        member(x.json(), "max_selected_items"@) == opt_json(x.max_selected_items),
        member(x.json(), "confirm"@) == opt_json(x.confirm),
        forall|k: Seq<char>|
            (#[trigger] member(x.json(), k)) is Some ==> k == "type"@ || k == "action_id"@
                || k == "placeholder"@ || k == "options"@ || k == "option_groups"@
                || k == "initial_options"@ || k == "max_selected_items"@ || k == "confirm"@,
{
    reveal_strlit("type");
    reveal_strlit("action_id");
    reveal_strlit("placeholder");
    reveal_strlit("options");
    reveal_strlit("option_groups");
    reveal_strlit("initial_options");
    reveal_strlit("max_selected_items");
    reveal_strlit("confirm");
    assert("type"@.len() == 4);
    assert("action_id"@.len() == 9);
    assert("placeholder"@.len() == 11);
    assert("options"@.len() == 7);
    assert("option_groups"@.len() == 13);
    assert("initial_options"@.len() == 15);
    assert("max_selected_items"@.len() == 18);
    assert("confirm"@.len() == 7);
    assert("options"@[0] != "confirm"@[0]);
}

/// A menu over options from an outside source, for one choice.
#[derive(Debug, Clone, PartialEq)]
pub struct ExternalSelectElement {
    /// The identifier of the element in interaction payloads.
    pub action_id: String,
    /// Text shown while nothing is chosen or entered.
    pub placeholder: Option<PlainText>,
    /// Fewest characters typed before options are asked for.
    pub min_query_length: Option<u32>,
    /// The option chosen at first.
    pub initial_option: Option<SelectOption>,
    /// A dialog that asks the user to confirm.
    pub confirm: Option<ConfirmationDialog>,
}

impl ExternalSelectElement {
    /// A external select menu with its required fields; every optional field
    /// is unset.
    pub fn new(action_id: &str) -> (r: Self)
        ensures
            r.action_id@ == action_id@,
            r.placeholder is None,
            r.min_query_length is None,
            r.initial_option is None,
            r.confirm is None,
    {
        ExternalSelectElement {
            action_id: String::from_str(action_id),
            placeholder: None,
            min_query_length: None,
            initial_option: None,
            confirm: None,
        }
    }

    /// Sets `placeholder`: text shown while nothing is chosen or entered.
    pub fn placeholder(self, text: PlainText) -> (r: Self)
        ensures
            r == (ExternalSelectElement { placeholder: Some(text), ..self }),
    {
        ExternalSelectElement { placeholder: Some(text), ..self }
    }

    /// Sets `min_query_length`: fewest characters typed before options are
    /// asked for.
    pub fn min_query_length(self, value: u32) -> (r: Self)
        ensures
            r == (ExternalSelectElement { min_query_length: Some(value), ..self }),
    {
        ExternalSelectElement { min_query_length: Some(value), ..self }
    }

    /// Sets `initial_option`: the option chosen at first.
    pub fn initial_option(self, option: SelectOption) -> (r: Self)
        ensures
            r == (ExternalSelectElement { initial_option: Some(option), ..self }),
    {
        ExternalSelectElement { initial_option: Some(option), ..self }
    }

    /// Sets `confirm`: a dialog that asks the user to confirm.
    pub fn confirm(self, dialog: ConfirmationDialog) -> (r: Self)
        ensures
            r == (ExternalSelectElement { confirm: Some(dialog), ..self }),
    {
        ExternalSelectElement { confirm: Some(dialog), ..self }
    }
}

impl ToJson for ExternalSelectElement {
    open spec fn json(&self) -> Json {
        let m = no_members().insert("type"@, Json::Str("external_select"@));
        let m = m.insert("action_id"@, self.action_id.json());
        let m = with_opt(m, "placeholder"@, self.placeholder);
        let m = with_opt(m, "min_query_length"@, self.min_query_length);
        let m = with_opt(m, "initial_option"@, self.initial_option);
        let m = with_opt(m, "confirm"@, self.confirm);
        Json::Object(m)
    }

    fn to_value(&self) -> (v: serde_json::Value) {
        let mut m = map_new();
        put_tag(&mut m, "external_select");
        put(&mut m, "action_id", &self.action_id);
        put_opt(&mut m, "placeholder", &self.placeholder);
        put_opt(&mut m, "min_query_length", &self.min_query_length);
        put_opt(&mut m, "initial_option", &self.initial_option);
        put_opt(&mut m, "confirm", &self.confirm);
        json_object(m)
    }
}

impl From<ExternalSelectElement> for BlockElement {
    fn from(value: ExternalSelectElement) -> (r: Self)
        ensures
            r.json() == value.json(),
            tag_of(r.json()) == "external_select"@,
    {
        proof {
            lemma_external_select_element_shape(value);
        }
        BlockElement(value.to_value())
    }
}

impl FromSpecImpl<ExternalSelectElement> for BlockElement {
    open spec fn obeys_from_spec() -> bool {
        false
    }

    open spec fn from_spec(v: ExternalSelectElement) -> Self {
        arbitrary()
    }
}

/// The members of a external select menu: the tag `external_select`, each
/// required field, each optional field that is set, and nothing else.
pub proof fn lemma_external_select_element_shape(x: ExternalSelectElement)
    ensures
        tag_of(x.json()) == "external_select"@,
        member(x.json(), "action_id"@) == Some(x.action_id.json()),
        member(x.json(), "placeholder"@) == opt_json(x.placeholder),
        member(x.json(), "min_query_length"@) == opt_json(x.min_query_length),
        member(x.json(), "initial_option"@) == opt_json(x.initial_option),
        member(x.json(), "confirm"@) == opt_json(x.confirm),
        forall|k: Seq<char>|
            (#[trigger] member(x.json(), k)) is Some ==> k == "type"@ || k == "action_id"@
                || k == "placeholder"@ || k == "min_query_length"@ || k == "initial_option"@
                || k == "confirm"@,
{
    reveal_strlit("type");
    reveal_strlit("action_id");
    reveal_strlit("placeholder");
    reveal_strlit("min_query_length");
    reveal_strlit("initial_option");
    reveal_strlit("confirm");
    assert("type"@.len() == 4);
    assert("action_id"@.len() == 9);
    assert("placeholder"@.len() == 11);
    assert("min_query_length"@.len() == 16);
    assert("initial_option"@.len() == 14);
    assert("confirm"@.len() == 7);
}

/// A menu over options from an outside source, for several choices.
#[derive(Debug, Clone, PartialEq)]
pub struct MultiExternalSelectElement {
    /// The identifier of the element in interaction payloads.
    pub action_id: String,
    /// Text shown while nothing is chosen or entered.
    pub placeholder: Option<PlainText>,
    /// Fewest characters typed before options are asked for.
    pub min_query_length: Option<u32>,
    /// The options chosen at first.
    pub initial_options: Option<Vec<SelectOption>>,
    /// Most items that may be chosen.
    pub max_selected_items: Option<u32>,
    /// A dialog that asks the user to confirm.
    pub confirm: Option<ConfirmationDialog>,
}

impl MultiExternalSelectElement {
    /// A multi external select menu with its required fields; every optional
    /// field is unset.
    pub fn new(action_id: &str) -> (r: Self)
        ensures
            r.action_id@ == action_id@,
            r.placeholder is None,
            r.min_query_length is None,
            r.initial_options is None,
            r.max_selected_items is None,
            r.confirm is None,
    {
        MultiExternalSelectElement {
            action_id: String::from_str(action_id),
            placeholder: None,
            min_query_length: None,
            initial_options: None,
            max_selected_items: None,
            confirm: None,
        }
    }

    /// Sets `placeholder`: text shown while nothing is chosen or entered.
    pub fn placeholder(self, text: PlainText) -> (r: Self)
        ensures
            r == (MultiExternalSelectElement { placeholder: Some(text), ..self }),
    {
        MultiExternalSelectElement { placeholder: Some(text), ..self }
    }

    /// Sets `min_query_length`: fewest characters typed before options are
    /// asked for.
    pub fn min_query_length(self, value: u32) -> (r: Self)
        ensures
            r == (MultiExternalSelectElement { min_query_length: Some(value), ..self }),
    {
        MultiExternalSelectElement { min_query_length: Some(value), ..self }
    }

    /// Sets `initial_options`: the options chosen at first.
    pub fn initial_options(self, options: Vec<SelectOption>) -> (r: Self)
        ensures
            r == (MultiExternalSelectElement { initial_options: Some(options), ..self }),
    {
        MultiExternalSelectElement { initial_options: Some(options), ..self }
    }

    /// Sets `max_selected_items`: most items that may be chosen.
    pub fn max_selected_items(self, value: u32) -> (r: Self)
        ensures
            r == (MultiExternalSelectElement { max_selected_items: Some(value), ..self }),
    {
        MultiExternalSelectElement { max_selected_items: Some(value), ..self }
    }

    /// Sets `confirm`: a dialog that asks the user to confirm.
    pub fn confirm(self, dialog: ConfirmationDialog) -> (r: Self)
        ensures
            r == (MultiExternalSelectElement { confirm: Some(dialog), ..self }),
    {
        MultiExternalSelectElement { confirm: Some(dialog), ..self }
    }
}

impl ToJson for MultiExternalSelectElement {
    open spec fn json(&self) -> Json {
        let m = no_members().insert("type"@, Json::Str("multi_external_select"@));
        let m = m.insert("action_id"@, self.action_id.json());
        let m = with_opt(m, "placeholder"@, self.placeholder);
        let m = with_opt(m, "min_query_length"@, self.min_query_length);
        let m = with_opt(m, "initial_options"@, self.initial_options);
        let m = with_opt(m, "max_selected_items"@, self.max_selected_items);
        let m = with_opt(m, "confirm"@, self.confirm);
        Json::Object(m)
    }

    fn to_value(&self) -> (v: serde_json::Value) {
        let mut m = map_new();
        put_tag(&mut m, "multi_external_select");
        put(&mut m, "action_id", &self.action_id);
        put_opt(&mut m, "placeholder", &self.placeholder);
        put_opt(&mut m, "min_query_length", &self.min_query_length);
        put_opt(&mut m, "initial_options", &self.initial_options);
        put_opt(&mut m, "max_selected_items", &self.max_selected_items);
        put_opt(&mut m, "confirm", &self.confirm);
        json_object(m)
    }
}

impl From<MultiExternalSelectElement> for BlockElement {
    fn from(value: MultiExternalSelectElement) -> (r: Self)
        ensures
            r.json() == value.json(),
            tag_of(r.json()) == "multi_external_select"@,
    {
        proof {
            lemma_multi_external_select_element_shape(value);
        }
        BlockElement(value.to_value())
    }
}

impl FromSpecImpl<MultiExternalSelectElement> for BlockElement {
    open spec fn obeys_from_spec() -> bool {
        false
    }

    open spec fn from_spec(v: MultiExternalSelectElement) -> Self {
        arbitrary()
    }
}

/// The members of a multi external select menu: the tag
/// `multi_external_select`, each required field, each optional field that is
/// set, and nothing else.
pub proof fn lemma_multi_external_select_element_shape(x: MultiExternalSelectElement)
    ensures
        tag_of(x.json()) == "multi_external_select"@,
        member(x.json(), "action_id"@) == Some(x.action_id.json()),
        member(x.json(), "placeholder"@) == opt_json(x.placeholder),
        member(x.json(), "min_query_length"@) == opt_json(x.min_query_length),
        member(x.json(), "initial_options"@) == opt_json(x.initial_options),
        member(x.json(), "max_selected_items"@) == opt_json(x.max_selected_items),
        member(x.json(), "confirm"@) == opt_json(x.confirm),
        forall|k: Seq<char>|
            (#[trigger] member(x.json(), k)) is Some ==> k == "type"@ || k == "action_id"@
                || k == "placeholder"@ || k == "min_query_length"@ || k == "initial_options"@
                || k == "max_selected_items"@ || k == "confirm"@,
{
    reveal_strlit("type");
    reveal_strlit("action_id");
    reveal_strlit("placeholder");
    reveal_strlit("min_query_length");
    reveal_strlit("initial_options");
    reveal_strlit("max_selected_items");
    reveal_strlit("confirm");
    assert("type"@.len() == 4);
    assert("action_id"@.len() == 9);
    assert("placeholder"@.len() == 11);
    assert("min_query_length"@.len() == 16);
    assert("initial_options"@.len() == 15);
    assert("max_selected_items"@.len() == 18);
    assert("confirm"@.len() == 7);
}

/// A menu over the users of a workspace, for one choice.
#[derive(Debug, Clone, PartialEq)]
pub struct UsersSelectElement {
    /// The identifier of the element in interaction payloads.
    pub action_id: String,
    /// Text shown while nothing is chosen or entered.
    pub placeholder: Option<PlainText>,
    /// The user chosen at first.
    pub initial_user: Option<String>,
    /// A dialog that asks the user to confirm.
    pub confirm: Option<ConfirmationDialog>,
}

impl UsersSelectElement {
    /// A users select menu with its required fields; every optional field is
    /// unset.
    pub fn new(action_id: &str) -> (r: Self)
        ensures
            r.action_id@ == action_id@,
            r.placeholder is None,
            r.initial_user is None,
            r.confirm is None,
    {
        UsersSelectElement {
            action_id: String::from_str(action_id),
            placeholder: None,
            initial_user: None,
            confirm: None,
        }
    }

    /// Sets `placeholder`: text shown while nothing is chosen or entered.
    pub fn placeholder(self, text: PlainText) -> (r: Self)
        ensures
            r == (UsersSelectElement { placeholder: Some(text), ..self }),
    {
        UsersSelectElement { placeholder: Some(text), ..self }
    }

    /// Sets `initial_user`: the user chosen at first.
    pub fn initial_user(self, user: &str) -> (r: Self)
        ensures
            r.initial_user matches Some(s) && s@ == user@,
            r == (UsersSelectElement { initial_user: r.initial_user, ..self }),
    {
        UsersSelectElement { initial_user: Some(String::from_str(user)), ..self }
    }

    /// Sets `confirm`: a dialog that asks the user to confirm.
    pub fn confirm(self, dialog: ConfirmationDialog) -> (r: Self)
        ensures
            r == (UsersSelectElement { confirm: Some(dialog), ..self }),
    {
        UsersSelectElement { confirm: Some(dialog), ..self }
    }
}

impl ToJson for UsersSelectElement {
    open spec fn json(&self) -> Json {
        let m = no_members().insert("type"@, Json::Str("users_select"@));
        let m = m.insert("action_id"@, self.action_id.json());
        let m = with_opt(m, "placeholder"@, self.placeholder);
        let m = with_opt(m, "initial_user"@, self.initial_user);
        let m = with_opt(m, "confirm"@, self.confirm);
        Json::Object(m)
    }

    fn to_value(&self) -> (v: serde_json::Value) {
        let mut m = map_new();
        put_tag(&mut m, "users_select");
        put(&mut m, "action_id", &self.action_id);
        put_opt(&mut m, "placeholder", &self.placeholder);
        put_opt(&mut m, "initial_user", &self.initial_user);
        put_opt(&mut m, "confirm", &self.confirm);
        json_object(m)
    }
}

impl From<UsersSelectElement> for BlockElement {
    fn from(value: UsersSelectElement) -> (r: Self)
        ensures
            r.json() == value.json(),
            tag_of(r.json()) == "users_select"@,
    {
        proof {
            lemma_users_select_element_shape(value);
        }
        BlockElement(value.to_value())
    }
}

impl FromSpecImpl<UsersSelectElement> for BlockElement {
    open spec fn obeys_from_spec() -> bool {
        false
    }

    open spec fn from_spec(v: UsersSelectElement) -> Self {
        arbitrary()
    }
}

/// The members of a users select menu: the tag `users_select`, each required
/// field, each optional field that is set, and nothing else.
pub proof fn lemma_users_select_element_shape(x: UsersSelectElement)
    ensures
        tag_of(x.json()) == "users_select"@,
        member(x.json(), "action_id"@) == Some(x.action_id.json()),
        member(x.json(), "placeholder"@) == opt_json(x.placeholder),
        member(x.json(), "initial_user"@) == opt_json(x.initial_user),
        member(x.json(), "confirm"@) == opt_json(x.confirm),
        forall|k: Seq<char>|
            (#[trigger] member(x.json(), k)) is Some ==> k == "type"@ || k == "action_id"@
                || k == "placeholder"@ || k == "initial_user"@ || k == "confirm"@,
{
    reveal_strlit("type");
    reveal_strlit("action_id");
    reveal_strlit("placeholder");
    reveal_strlit("initial_user");
    reveal_strlit("confirm");
    assert("type"@.len() == 4);
    assert("action_id"@.len() == 9);
    assert("placeholder"@.len() == 11);
    assert("initial_user"@.len() == 12);
    assert("confirm"@.len() == 7);
}

/// A menu over the users of a workspace, for several choices.
#[derive(Debug, Clone, PartialEq)]
pub struct MultiUsersSelectElement {
    /// The identifier of the element in interaction payloads.
    pub action_id: String,
    /// Text shown while nothing is chosen or entered.
    pub placeholder: Option<PlainText>,
    /// The users chosen at first.
    pub initial_users: Option<Vec<String>>,
    /// Most items that may be chosen.
    pub max_selected_items: Option<u32>,
    /// A dialog that asks the user to confirm.
    pub confirm: Option<ConfirmationDialog>,
}

impl MultiUsersSelectElement {
    /// A multi users select menu with its required fields; every optional
    /// field is unset.
    pub fn new(action_id: &str) -> (r: Self)
        ensures
            r.action_id@ == action_id@,
            r.placeholder is None,
            r.initial_users is None,
            r.max_selected_items is None,
            r.confirm is None,
    {
        MultiUsersSelectElement {
            action_id: String::from_str(action_id),
            placeholder: None,
            initial_users: None,
            max_selected_items: None,
            confirm: None,
        }
    }

    /// Sets `placeholder`: text shown while nothing is chosen or entered.
    pub fn placeholder(self, text: PlainText) -> (r: Self)
        ensures
            r == (MultiUsersSelectElement { placeholder: Some(text), ..self }),
    {
        MultiUsersSelectElement { placeholder: Some(text), ..self }
    }

    /// Sets `initial_users`: the users chosen at first.
    pub fn initial_users(self, users: Vec<String>) -> (r: Self)
        ensures
            r == (MultiUsersSelectElement { initial_users: Some(users), ..self }),
    {
        MultiUsersSelectElement { initial_users: Some(users), ..self }
    }

    /// Sets `max_selected_items`: most items that may be chosen.
    pub fn max_selected_items(self, value: u32) -> (r: Self)
        ensures
            r == (MultiUsersSelectElement { max_selected_items: Some(value), ..self }),
    {
        MultiUsersSelectElement { max_selected_items: Some(value), ..self }
    }

    /// Sets `confirm`: a dialog that asks the user to confirm.
    pub fn confirm(self, dialog: ConfirmationDialog) -> (r: Self)
        ensures
            r == (MultiUsersSelectElement { confirm: Some(dialog), ..self }),
    {
        MultiUsersSelectElement { confirm: Some(dialog), ..self }
    }
}

impl ToJson for MultiUsersSelectElement {
    open spec fn json(&self) -> Json {
        let m = no_members().insert("type"@, Json::Str("multi_users_select"@));
        let m = m.insert("action_id"@, self.action_id.json());
        let m = with_opt(m, "placeholder"@, self.placeholder);
        let m = with_opt(m, "initial_users"@, self.initial_users);
        let m = with_opt(m, "max_selected_items"@, self.max_selected_items);
        let m = with_opt(m, "confirm"@, self.confirm);
        Json::Object(m)
    }

    fn to_value(&self) -> (v: serde_json::Value) {
        let mut m = map_new();
        put_tag(&mut m, "multi_users_select");
        put(&mut m, "action_id", &self.action_id);
        put_opt(&mut m, "placeholder", &self.placeholder);
        put_opt(&mut m, "initial_users", &self.initial_users);
        put_opt(&mut m, "max_selected_items", &self.max_selected_items);
        put_opt(&mut m, "confirm", &self.confirm);
        json_object(m)
    }
}

impl From<MultiUsersSelectElement> for BlockElement {
    fn from(value: MultiUsersSelectElement) -> (r: Self)
        ensures
            r.json() == value.json(),
            tag_of(r.json()) == "multi_users_select"@,
    {
        proof {
            lemma_multi_users_select_element_shape(value);
        }
        BlockElement(value.to_value())
    }
}

impl FromSpecImpl<MultiUsersSelectElement> for BlockElement {
    open spec fn obeys_from_spec() -> bool {
        false
    }

    open spec fn from_spec(v: MultiUsersSelectElement) -> Self {
        arbitrary()
    }
}

/// The members of a multi users select menu: the tag `multi_users_select`,
/// each required field, each optional field that is set, and nothing else.
pub proof fn lemma_multi_users_select_element_shape(x: MultiUsersSelectElement)
    ensures
        tag_of(x.json()) == "multi_users_select"@,
        member(x.json(), "action_id"@) == Some(x.action_id.json()),
        member(x.json(), "placeholder"@) == opt_json(x.placeholder),
        member(x.json(), "initial_users"@) == opt_json(x.initial_users),
        member(x.json(), "max_selected_items"@) == opt_json(x.max_selected_items),
        member(x.json(), "confirm"@) == opt_json(x.confirm),
        forall|k: Seq<char>|
            (#[trigger] member(x.json(), k)) is Some ==> k == "type"@ || k == "action_id"@
                || k == "placeholder"@ || k == "initial_users"@ || k == "max_selected_items"@
                || k == "confirm"@,
{
    reveal_strlit("type");
    reveal_strlit("action_id");
    reveal_strlit("placeholder");
    reveal_strlit("initial_users");
    reveal_strlit("max_selected_items");
    reveal_strlit("confirm");
    assert("type"@.len() == 4);
    assert("action_id"@.len() == 9);
    assert("placeholder"@.len() == 11);
    assert("initial_users"@.len() == 13);
    assert("max_selected_items"@.len() == 18);
    assert("confirm"@.len() == 7);
}

/// A menu over the conversations of a workspace, for one choice.
#[derive(Debug, Clone, PartialEq)]
pub struct ConversationsSelectElement {
    /// The identifier of the element in interaction payloads.
    pub action_id: String,
    /// Text shown while nothing is chosen or entered.
    pub placeholder: Option<PlainText>,
    /// The conversation chosen at first.
    pub initial_conversation: Option<String>,
    /// Whether the conversation that the menu is shown in is chosen at first.
    pub default_to_current_conversation: Option<bool>,
    /// Whether a URL to respond to is reported with the choice.
    pub response_url_enabled: Option<bool>,
    /// Which conversations are offered.
    pub filter: Option<ConversationsFilter>,
    /// A dialog that asks the user to confirm.
    pub confirm: Option<ConfirmationDialog>,
}

impl ConversationsSelectElement {
    /// A conversations select menu with its required fields; every optional
    /// field is unset.
    pub fn new(action_id: &str) -> (r: Self)
        ensures
            r.action_id@ == action_id@,
            r.placeholder is None,
            r.initial_conversation is None,
            r.default_to_current_conversation is None,
            r.response_url_enabled is None,
            r.filter is None,
            r.confirm is None,
    {
        ConversationsSelectElement {
            action_id: String::from_str(action_id),
            placeholder: None,
            initial_conversation: None,
            default_to_current_conversation: None,
            response_url_enabled: None,
            filter: None,
            confirm: None,
        }
    }

    /// Sets `placeholder`: text shown while nothing is chosen or entered.
    pub fn placeholder(self, text: PlainText) -> (r: Self)
        ensures
            r == (ConversationsSelectElement { placeholder: Some(text), ..self }),
    {
        ConversationsSelectElement { placeholder: Some(text), ..self }
    }

    /// Sets `initial_conversation`: the conversation chosen at first.
    pub fn initial_conversation(self, id: &str) -> (r: Self)
        ensures
            r.initial_conversation matches Some(s) && s@ == id@,
            r == (ConversationsSelectElement {
                initial_conversation: r.initial_conversation,
                ..self
            }),
    {
        ConversationsSelectElement { initial_conversation: Some(String::from_str(id)), ..self }
    }

    /// Sets `default_to_current_conversation`: whether the conversation that
    /// the menu is shown in is chosen at first.
    pub fn default_to_current_conversation(self, yes: bool) -> (r: Self)
        ensures
            r == (ConversationsSelectElement {
                default_to_current_conversation: Some(yes),
                ..self
            }),
    {
        ConversationsSelectElement { default_to_current_conversation: Some(yes), ..self }
    }

    /// Sets `response_url_enabled`: whether a URL to respond to is reported
    /// with the choice.
    pub fn response_url_enabled(self, yes: bool) -> (r: Self)
        ensures
            r == (ConversationsSelectElement { response_url_enabled: Some(yes), ..self }),
    {
        ConversationsSelectElement { response_url_enabled: Some(yes), ..self }
    }

    /// Sets `filter`: which conversations are offered.
    pub fn filter(self, filter: ConversationsFilter) -> (r: Self)
        ensures
            r == (ConversationsSelectElement { filter: Some(filter), ..self }),
    {
        ConversationsSelectElement { filter: Some(filter), ..self }
    }

    /// Sets `confirm`: a dialog that asks the user to confirm.
    pub fn confirm(self, dialog: ConfirmationDialog) -> (r: Self)
        ensures
            r == (ConversationsSelectElement { confirm: Some(dialog), ..self }),
    {
        ConversationsSelectElement { confirm: Some(dialog), ..self }
    }
}

impl ToJson for ConversationsSelectElement {
    open spec fn json(&self) -> Json {
        let m = no_members().insert("type"@, Json::Str("conversations_select"@));
        let m = m.insert("action_id"@, self.action_id.json());
        let m = with_opt(m, "placeholder"@, self.placeholder);
        let m = with_opt(m, "initial_conversation"@, self.initial_conversation);
        let m = with_opt(
            m,
            "default_to_current_conversation"@,
            self.default_to_current_conversation,
        );
        let m = with_opt(m, "response_url_enabled"@, self.response_url_enabled);
        let m = with_opt(m, "filter"@, self.filter);
        let m = with_opt(m, "confirm"@, self.confirm);
        Json::Object(m)
    }

    fn to_value(&self) -> (v: serde_json::Value) {
        let mut m = map_new();
        put_tag(&mut m, "conversations_select");
        put(&mut m, "action_id", &self.action_id);
        put_opt(&mut m, "placeholder", &self.placeholder);
        put_opt(&mut m, "initial_conversation", &self.initial_conversation);
        put_opt(&mut m, "default_to_current_conversation", &self.default_to_current_conversation);
        put_opt(&mut m, "response_url_enabled", &self.response_url_enabled);
        put_opt(&mut m, "filter", &self.filter);
        put_opt(&mut m, "confirm", &self.confirm);
        json_object(m)
    }
}

impl From<ConversationsSelectElement> for BlockElement {
    fn from(value: ConversationsSelectElement) -> (r: Self)
        ensures
            r.json() == value.json(),
            tag_of(r.json()) == "conversations_select"@,
    {
        proof {
            lemma_conversations_select_element_shape(value);
        }
        BlockElement(value.to_value())
    }
}

impl FromSpecImpl<ConversationsSelectElement> for BlockElement {
    open spec fn obeys_from_spec() -> bool {
        false
    }

    open spec fn from_spec(v: ConversationsSelectElement) -> Self {
        arbitrary()
    }
}

/// The members of a conversations select menu: the tag
/// `conversations_select`, each required field, each optional field that is
/// set, and nothing else.
pub proof fn lemma_conversations_select_element_shape(x: ConversationsSelectElement)
    ensures
        tag_of(x.json()) == "conversations_select"@,
        member(x.json(), "action_id"@) == Some(x.action_id.json()),
        member(x.json(), "placeholder"@) == opt_json(x.placeholder),
        member(x.json(), "initial_conversation"@) == opt_json(x.initial_conversation),
        member(x.json(), "default_to_current_conversation"@) == opt_json(
            x.default_to_current_conversation,
        ),
        member(x.json(), "response_url_enabled"@) == opt_json(x.response_url_enabled),
        member(x.json(), "filter"@) == opt_json(x.filter),
        member(x.json(), "confirm"@) == opt_json(x.confirm),
        forall|k: Seq<char>|
            (#[trigger] member(x.json(), k)) is Some ==> k == "type"@ || k == "action_id"@
                || k == "placeholder"@ || k == "initial_conversation"@
                || k == "default_to_current_conversation"@ || k == "response_url_enabled"@
                || k == "filter"@ || k == "confirm"@,
{
    reveal_strlit("type");
    reveal_strlit("action_id");
    reveal_strlit("placeholder");
    reveal_strlit("initial_conversation");
    reveal_strlit("default_to_current_conversation");
    reveal_strlit("response_url_enabled");
    reveal_strlit("filter");
    reveal_strlit("confirm");
    assert("type"@.len() == 4);
    assert("action_id"@.len() == 9);
    assert("placeholder"@.len() == 11);
    assert("initial_conversation"@.len() == 20);
    assert("default_to_current_conversation"@.len() == 31);
    assert("response_url_enabled"@.len() == 20);
    assert("filter"@.len() == 6);
    assert("confirm"@.len() == 7);
    assert("initial_conversation"@[0] != "response_url_enabled"@[0]);
}

/// A menu over the conversations of a workspace, for several choices.
#[derive(Debug, Clone, PartialEq)]
pub struct MultiConversationsSelectElement {
    /// The identifier of the element in interaction payloads.
    pub action_id: String,
    /// Text shown while nothing is chosen or entered.
    pub placeholder: Option<PlainText>,
    /// The conversations chosen at first.
    pub initial_conversations: Option<Vec<String>>,
    /// Most items that may be chosen.
    pub max_selected_items: Option<u32>,
    /// Which conversations are offered.
    pub filter: Option<ConversationsFilter>,
    /// A dialog that asks the user to confirm.
    pub confirm: Option<ConfirmationDialog>,
}

impl MultiConversationsSelectElement {
    /// A multi conversations select menu with its required fields; every
    /// optional field is unset.
    pub fn new(action_id: &str) -> (r: Self)
        ensures
            r.action_id@ == action_id@,
            r.placeholder is None,
            r.initial_conversations is None,
            r.max_selected_items is None,
            r.filter is None,
            r.confirm is None,
    {
        MultiConversationsSelectElement {
            action_id: String::from_str(action_id),
            placeholder: None,
            initial_conversations: None,
            max_selected_items: None,
            filter: None,
            confirm: None,
        }
    }

    /// Sets `placeholder`: text shown while nothing is chosen or entered.
    pub fn placeholder(self, text: PlainText) -> (r: Self)
        ensures
            r == (MultiConversationsSelectElement { placeholder: Some(text), ..self }),
    {
        MultiConversationsSelectElement { placeholder: Some(text), ..self }
    }

    /// Sets `initial_conversations`: the conversations chosen at first.
    pub fn initial_conversations(self, ids: Vec<String>) -> (r: Self)
        ensures
            r == (MultiConversationsSelectElement { initial_conversations: Some(ids), ..self }),
    {
        MultiConversationsSelectElement { initial_conversations: Some(ids), ..self }
    }

    /// Sets `max_selected_items`: most items that may be chosen.
    pub fn max_selected_items(self, value: u32) -> (r: Self)
        ensures
            r == (MultiConversationsSelectElement { max_selected_items: Some(value), ..self }),
    {
        MultiConversationsSelectElement { max_selected_items: Some(value), ..self }
    }

    /// Sets `filter`: which conversations are offered.
    pub fn filter(self, filter: ConversationsFilter) -> (r: Self)
        ensures
            r == (MultiConversationsSelectElement { filter: Some(filter), ..self }),
    {
        MultiConversationsSelectElement { filter: Some(filter), ..self }
    }

    /// Sets `confirm`: a dialog that asks the user to confirm.
    pub fn confirm(self, dialog: ConfirmationDialog) -> (r: Self)
        ensures
            r == (MultiConversationsSelectElement { confirm: Some(dialog), ..self }),
    {
        MultiConversationsSelectElement { confirm: Some(dialog), ..self }
    }
}

impl ToJson for MultiConversationsSelectElement {
    open spec fn json(&self) -> Json {
        let m = no_members().insert("type"@, Json::Str("multi_conversations_select"@));
        let m = m.insert("action_id"@, self.action_id.json());
        let m = with_opt(m, "placeholder"@, self.placeholder);
        let m = with_opt(m, "initial_conversations"@, self.initial_conversations);
        let m = with_opt(m, "max_selected_items"@, self.max_selected_items);
        let m = with_opt(m, "filter"@, self.filter);
        let m = with_opt(m, "confirm"@, self.confirm);
        Json::Object(m)
    }

    fn to_value(&self) -> (v: serde_json::Value) {
        let mut m = map_new();
        put_tag(&mut m, "multi_conversations_select");
        put(&mut m, "action_id", &self.action_id);
        put_opt(&mut m, "placeholder", &self.placeholder);
        put_opt(&mut m, "initial_conversations", &self.initial_conversations);
        put_opt(&mut m, "max_selected_items", &self.max_selected_items);
        put_opt(&mut m, "filter", &self.filter);
        put_opt(&mut m, "confirm", &self.confirm);
        json_object(m)
    }
}

impl From<MultiConversationsSelectElement> for BlockElement {
    fn from(value: MultiConversationsSelectElement) -> (r: Self)
        ensures
            r.json() == value.json(),
            tag_of(r.json()) == "multi_conversations_select"@,
    {
        proof {
            lemma_multi_conversations_select_element_shape(value);
        }
        BlockElement(value.to_value())
    }
}

impl FromSpecImpl<MultiConversationsSelectElement> for BlockElement {
    open spec fn obeys_from_spec() -> bool {
        false
    }

    open spec fn from_spec(v: MultiConversationsSelectElement) -> Self {
        arbitrary()
    }
}

/// The members of a multi conversations select menu: the tag
/// `multi_conversations_select`, each required field, each optional field
/// that is set, and nothing else.
pub proof fn lemma_multi_conversations_select_element_shape(x: MultiConversationsSelectElement)
    ensures
        tag_of(x.json()) == "multi_conversations_select"@,
        member(x.json(), "action_id"@) == Some(x.action_id.json()),
        member(x.json(), "placeholder"@) == opt_json(x.placeholder),
        member(x.json(), "initial_conversations"@) == opt_json(x.initial_conversations),
        member(x.json(), "max_selected_items"@) == opt_json(x.max_selected_items),
        member(x.json(), "filter"@) == opt_json(x.filter),
        member(x.json(), "confirm"@) == opt_json(x.confirm),
        forall|k: Seq<char>|
            (#[trigger] member(x.json(), k)) is Some ==> k == "type"@ || k == "action_id"@
                || k == "placeholder"@ || k == "initial_conversations"@
                || k == "max_selected_items"@ || k == "filter"@ || k == "confirm"@,
{
    reveal_strlit("type");
    reveal_strlit("action_id");
    reveal_strlit("placeholder");
    reveal_strlit("initial_conversations");
    reveal_strlit("max_selected_items");
    reveal_strlit("filter");
    reveal_strlit("confirm");
    assert("type"@.len() == 4);
    assert("action_id"@.len() == 9);
    assert("placeholder"@.len() == 11);
    assert("initial_conversations"@.len() == 21);
    assert("max_selected_items"@.len() == 18);
    assert("filter"@.len() == 6);
    assert("confirm"@.len() == 7);
}

/// A menu over the public channels of a workspace, for one choice.
#[derive(Debug, Clone, PartialEq)]
pub struct ChannelsSelectElement {
    /// The identifier of the element in interaction payloads.
    pub action_id: String,
    /// Text shown while nothing is chosen or entered.
    pub placeholder: Option<PlainText>,
    /// The channel chosen at first.
    pub initial_channel: Option<String>,
    /// A dialog that asks the user to confirm.
    pub confirm: Option<ConfirmationDialog>,
}

impl ChannelsSelectElement {
    /// A channels select menu with its required fields; every optional field
    /// is unset.
    pub fn new(action_id: &str) -> (r: Self)
        ensures
            r.action_id@ == action_id@,
            r.placeholder is None,
            r.initial_channel is None,
            r.confirm is None,
    {
        ChannelsSelectElement {
            action_id: String::from_str(action_id),
            placeholder: None,
            initial_channel: None,
            confirm: None,
        }
    }

    /// Sets `placeholder`: text shown while nothing is chosen or entered.
    pub fn placeholder(self, text: PlainText) -> (r: Self)
        ensures
            r == (ChannelsSelectElement { placeholder: Some(text), ..self }),
    {
        ChannelsSelectElement { placeholder: Some(text), ..self }
    }

    /// Sets `initial_channel`: the channel chosen at first.
    pub fn initial_channel(self, id: &str) -> (r: Self)
        ensures
            r.initial_channel matches Some(s) && s@ == id@,
            r == (ChannelsSelectElement { initial_channel: r.initial_channel, ..self }),
    {
        ChannelsSelectElement { initial_channel: Some(String::from_str(id)), ..self }
    }

    /// Sets `confirm`: a dialog that asks the user to confirm.
    pub fn confirm(self, dialog: ConfirmationDialog) -> (r: Self)
        ensures
            r == (ChannelsSelectElement { confirm: Some(dialog), ..self }),
    {
        ChannelsSelectElement { confirm: Some(dialog), ..self }
    }
}

impl ToJson for ChannelsSelectElement {
    open spec fn json(&self) -> Json {
        let m = no_members().insert("type"@, Json::Str("channels_select"@));
        let m = m.insert("action_id"@, self.action_id.json());
        let m = with_opt(m, "placeholder"@, self.placeholder);
        let m = with_opt(m, "initial_channel"@, self.initial_channel);
        let m = with_opt(m, "confirm"@, self.confirm);
        Json::Object(m)
    }

    fn to_value(&self) -> (v: serde_json::Value) {
        let mut m = map_new();
        put_tag(&mut m, "channels_select");
        put(&mut m, "action_id", &self.action_id);
        put_opt(&mut m, "placeholder", &self.placeholder);
        put_opt(&mut m, "initial_channel", &self.initial_channel);
        put_opt(&mut m, "confirm", &self.confirm);
        json_object(m)
    }
}

impl From<ChannelsSelectElement> for BlockElement {
    fn from(value: ChannelsSelectElement) -> (r: Self)
        ensures
            r.json() == value.json(),
            tag_of(r.json()) == "channels_select"@,
    {
        proof {
            lemma_channels_select_element_shape(value);
        }
        BlockElement(value.to_value())
    }
}

impl FromSpecImpl<ChannelsSelectElement> for BlockElement {
    open spec fn obeys_from_spec() -> bool {
        false
    }

    open spec fn from_spec(v: ChannelsSelectElement) -> Self {
        arbitrary()
    }
}

/// The members of a channels select menu: the tag `channels_select`, each
/// required field, each optional field that is set, and nothing else.
pub proof fn lemma_channels_select_element_shape(x: ChannelsSelectElement)
    ensures
        tag_of(x.json()) == "channels_select"@,
        member(x.json(), "action_id"@) == Some(x.action_id.json()),
        member(x.json(), "placeholder"@) == opt_json(x.placeholder),
        member(x.json(), "initial_channel"@) == opt_json(x.initial_channel),
        member(x.json(), "confirm"@) == opt_json(x.confirm),
        forall|k: Seq<char>|
            (#[trigger] member(x.json(), k)) is Some ==> k == "type"@ || k == "action_id"@
                || k == "placeholder"@ || k == "initial_channel"@ || k == "confirm"@,
{
    reveal_strlit("type");
    reveal_strlit("action_id");
    reveal_strlit("placeholder");
    reveal_strlit("initial_channel");
    reveal_strlit("confirm");
    assert("type"@.len() == 4);
    assert("action_id"@.len() == 9);
    assert("placeholder"@.len() == 11);
    assert("initial_channel"@.len() == 15);
    assert("confirm"@.len() == 7);
}

/// A menu over the public channels of a workspace, for several choices.
#[derive(Debug, Clone, PartialEq)]
pub struct MultiChannelsSelectElement {
    /// The identifier of the element in interaction payloads.
    pub action_id: String,
    /// Text shown while nothing is chosen or entered.
    pub placeholder: Option<PlainText>,
    /// The channels chosen at first.
    pub initial_channels: Option<Vec<String>>,
    /// Most items that may be chosen.
    pub max_selected_items: Option<u32>,
    /// A dialog that asks the user to confirm.
    pub confirm: Option<ConfirmationDialog>,
}

impl MultiChannelsSelectElement {
    /// A multi channels select menu with its required fields; every optional
    /// field is unset.
    pub fn new(action_id: &str) -> (r: Self)
        ensures
            r.action_id@ == action_id@,
            r.placeholder is None,
            r.initial_channels is None,
            r.max_selected_items is None,
            r.confirm is None,
    {
        MultiChannelsSelectElement {
            action_id: String::from_str(action_id),
            placeholder: None,
            initial_channels: None,
            max_selected_items: None,
            confirm: None,
        }
    }

    /// Sets `placeholder`: text shown while nothing is chosen or entered.
    pub fn placeholder(self, text: PlainText) -> (r: Self)
        ensures
            r == (MultiChannelsSelectElement { placeholder: Some(text), ..self }),
    {
        MultiChannelsSelectElement { placeholder: Some(text), ..self }
    }

    /// Sets `initial_channels`: the channels chosen at first.
    pub fn initial_channels(self, ids: Vec<String>) -> (r: Self)
        ensures
            r == (MultiChannelsSelectElement { initial_channels: Some(ids), ..self }),
    {
        MultiChannelsSelectElement { initial_channels: Some(ids), ..self }
    }

    /// Sets `max_selected_items`: most items that may be chosen.
    pub fn max_selected_items(self, value: u32) -> (r: Self)
        ensures
            r == (MultiChannelsSelectElement { max_selected_items: Some(value), ..self }),
    {
        MultiChannelsSelectElement { max_selected_items: Some(value), ..self }
    }

    /// Sets `confirm`: a dialog that asks the user to confirm.
    pub fn confirm(self, dialog: ConfirmationDialog) -> (r: Self)
        ensures
            r == (MultiChannelsSelectElement { confirm: Some(dialog), ..self }),
    {
        MultiChannelsSelectElement { confirm: Some(dialog), ..self }
    }
}

impl ToJson for MultiChannelsSelectElement {
    open spec fn json(&self) -> Json {
        let m = no_members().insert("type"@, Json::Str("multi_channels_select"@));
        let m = m.insert("action_id"@, self.action_id.json());
        let m = with_opt(m, "placeholder"@, self.placeholder);
        let m = with_opt(m, "initial_channels"@, self.initial_channels);
        let m = with_opt(m, "max_selected_items"@, self.max_selected_items);
        let m = with_opt(m, "confirm"@, self.confirm);
        Json::Object(m)
    }

    fn to_value(&self) -> (v: serde_json::Value) {
        let mut m = map_new();
        put_tag(&mut m, "multi_channels_select");
        put(&mut m, "action_id", &self.action_id);
        put_opt(&mut m, "placeholder", &self.placeholder);
        put_opt(&mut m, "initial_channels", &self.initial_channels);
        put_opt(&mut m, "max_selected_items", &self.max_selected_items);
        put_opt(&mut m, "confirm", &self.confirm);
        json_object(m)
    }
}

impl From<MultiChannelsSelectElement> for BlockElement {
    fn from(value: MultiChannelsSelectElement) -> (r: Self)
        ensures
            r.json() == value.json(),
            tag_of(r.json()) == "multi_channels_select"@,
    {
        proof {
            lemma_multi_channels_select_element_shape(value);
        }
        BlockElement(value.to_value())
    }
}

impl FromSpecImpl<MultiChannelsSelectElement> for BlockElement {
    open spec fn obeys_from_spec() -> bool {
        false
    }

    open spec fn from_spec(v: MultiChannelsSelectElement) -> Self {
        arbitrary()
    }
}

/// The members of a multi channels select menu: the tag
/// `multi_channels_select`, each required field, each optional field that is
/// set, and nothing else.
pub proof fn lemma_multi_channels_select_element_shape(x: MultiChannelsSelectElement)
    ensures
        tag_of(x.json()) == "multi_channels_select"@,
        member(x.json(), "action_id"@) == Some(x.action_id.json()),
        member(x.json(), "placeholder"@) == opt_json(x.placeholder),
        member(x.json(), "initial_channels"@) == opt_json(x.initial_channels),
        member(x.json(), "max_selected_items"@) == opt_json(x.max_selected_items),
        member(x.json(), "confirm"@) == opt_json(x.confirm),
        forall|k: Seq<char>|
            (#[trigger] member(x.json(), k)) is Some ==> k == "type"@ || k == "action_id"@
                || k == "placeholder"@ || k == "initial_channels"@ || k == "max_selected_items"@
                || k == "confirm"@,
{
    reveal_strlit("type");
    reveal_strlit("action_id");
    reveal_strlit("placeholder");
    reveal_strlit("initial_channels");
    reveal_strlit("max_selected_items");
    reveal_strlit("confirm");
    assert("type"@.len() == 4);
    assert("action_id"@.len() == 9);
    assert("placeholder"@.len() == 11);
    assert("initial_channels"@.len() == 16);
    assert("max_selected_items"@.len() == 18);
    assert("confirm"@.len() == 7);
}

} // verus!
