//! Block elements: the widgets that blocks hold.

pub mod buttons;
pub mod choices;
pub mod common;
pub mod context;
pub mod context_actions;
pub mod inputs;
pub mod rules;
pub mod selects;

pub use buttons::ButtonElement;
pub use choices::{CheckboxesElement, OverflowElement, RadioButtonsElement};
pub use common::{
    BlockElement, ButtonStyle, ConfirmationDialog, DispatchActionConfig, DispatchActionTrigger,
    OptionGroup, SelectOption,
};
pub use context::{ContextElement, ContextImage, ImageElement};
pub use context_actions::{ContextActionElement, FeedbackButton, FeedbackButtons, IconButton};
pub use inputs::{
    DatePickerElement, DateTimePickerElement, EmailInputElement, FileInputElement,
    NumberInputElement, PlainTextInputElement, RichTextInputElement, TimePickerElement,
    UrlInputElement,
};
pub use selects::{
    ChannelsSelectElement, ConversationsFilter, ConversationsFilterKind,
    ConversationsSelectElement, ExternalSelectElement, MultiChannelsSelectElement,
    MultiConversationsSelectElement, MultiExternalSelectElement, MultiStaticSelectElement,
    MultiUsersSelectElement, StaticSelectElement, UsersSelectElement,
};
