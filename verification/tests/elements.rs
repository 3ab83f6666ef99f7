use slaq::blocks::elements::{
    ButtonElement, ButtonStyle, ChannelsSelectElement, CheckboxesElement, ConversationsFilter,
    ConversationsFilterKind, ConversationsSelectElement, DatePickerElement, FileInputElement,
    MultiStaticSelectElement, OverflowElement, PlainTextInputElement, RadioButtonsElement,
    SelectOption, StaticSelectElement, TimePickerElement, UsersSelectElement,
};
use slaq::blocks::rich_text::{RichTextElement, RichTextNode, TextStyle};
use slaq::blocks::text::{MrkdwnText, PlainText, TextObject};
use slaq::encode::ToJson;

#[test]
fn button_element_serializes() {
    let button = ButtonElement::new(PlainText::new("Go"), "go").style(ButtonStyle::Primary);
    let json = serde_json::to_string(&button.to_value()).unwrap();
    assert!(json.contains("\"type\":\"button\""));
    assert!(json.contains("\"style\":\"primary\""));
}

#[test]
fn static_select_serializes() {
    let select = StaticSelectElement::new("pick")
        .placeholder(PlainText::new("Pick one"))
        .options(vec![SelectOption::new(PlainText::new("A"), "a")])
        .initial_option(SelectOption::new(PlainText::new("A"), "a"));
    let json = serde_json::to_string(&select.to_value()).unwrap();
    assert!(json.contains("\"type\":\"static_select\""));
    assert!(json.contains("Pick one"));
}

#[test]
fn multi_static_select_serializes() {
    let ms = MultiStaticSelectElement::new("pick-many")
        .placeholder(PlainText::new("Pick many"))
        .options(vec![
            SelectOption::new(PlainText::new("A"), "a"),
            SelectOption::new(PlainText::new("B"), "b"),
        ])
        .max_selected_items(2);
    let json = serde_json::to_string(&ms.to_value()).unwrap();
    assert!(json.contains("\"type\":\"multi_static_select\""));
    assert!(json.contains("Pick many"));
}

#[test]
fn plain_text_input_serializes() {
    let input = PlainTextInputElement::new("comment")
        .placeholder(PlainText::new("Add a comment"))
        .multiline(true)
        .min_length(0)
        .max_length(2000);
    let json = serde_json::to_string(&input.to_value()).unwrap();
    assert!(json.contains("\"type\":\"plain_text_input\""));
    assert!(json.contains("Add a comment"));
}

#[test]
fn datepicker_serializes() {
    let d = DatePickerElement::new("date").initial_date("2025-01-01");
    let json = serde_json::to_string(&d.to_value()).unwrap();
    assert!(json.contains("\"type\":\"datepicker\""));
    assert!(json.contains("2025-01-01"));
}

#[test]
fn timepicker_serializes() {
    let t = TimePickerElement::new("time").initial_time("13:37");
    let json = serde_json::to_string(&t.to_value()).unwrap();
    assert!(json.contains("\"type\":\"timepicker\""));
    assert!(json.contains("13:37"));
}

#[test]
fn users_select_serializes() {
    let u = UsersSelectElement::new("user").initial_user("U123");
    let json = serde_json::to_string(&u.to_value()).unwrap();
    assert!(json.contains("\"type\":\"users_select\""));
    assert!(json.contains("U123"));
}

#[test]
fn conversations_select_serializes() {
    let c = ConversationsSelectElement::new("conv")
        .placeholder(PlainText::new("Pick"))
        .default_to_current_conversation(true)
        .response_url_enabled(true)
        .filter(
            ConversationsFilter::new()
                .including(vec![
                    ConversationsFilterKind::Im,
                    ConversationsFilterKind::Private,
                ])
                .exclude_bot_users(true),
        );
    let json = serde_json::to_string(&c.to_value()).unwrap();
    assert!(json.contains("\"type\":\"conversations_select\""));
    assert!(json.contains("\"include\""));
}

#[test]
fn channels_select_serializes() {
    let ch = ChannelsSelectElement::new("chan").initial_channel("C123");
    let json = serde_json::to_string(&ch.to_value()).unwrap();
    assert!(json.contains("\"type\":\"channels_select\""));
    assert!(json.contains("C123"));
}

#[test]
fn file_input_serializes() {
    let f = FileInputElement::new("files").max_files(3);
    let json = serde_json::to_string(&f.to_value()).unwrap();
    assert!(json.contains("\"type\":\"file_input\""));
    assert!(json.contains("\"max_files\":3"));
}

#[test]
fn checkboxes_serializes() {
    let cb = CheckboxesElement::new(
        "checks",
        vec![
            SelectOption::new(PlainText::new("A"), "a"),
            SelectOption::new(PlainText::new("B"), "b"),
        ],
    )
    .initial_options(vec![SelectOption::new(PlainText::new("B"), "b")]);
    let json = serde_json::to_string(&cb.to_value()).unwrap();
    assert!(json.contains("\"type\":\"checkboxes\""));
    assert!(json.contains("\"value\":\"a\""));
}

#[test]
fn radio_buttons_serializes() {
    let rb = RadioButtonsElement::new(
        "choice",
        vec![
            SelectOption::new(PlainText::new("A"), "a"),
            SelectOption::new(PlainText::new("B"), "b"),
        ],
    )
    .initial_option(SelectOption::new(PlainText::new("A"), "a"));
    let json = serde_json::to_string(&rb.to_value()).unwrap();
    assert!(json.contains("\"type\":\"radio_buttons\""));
    assert!(json.contains("\"value\":\"a\""));
}

#[test]
fn overflow_serializes() {
    let ov = OverflowElement::new(
        "more",
        vec![
            SelectOption::new(PlainText::new("Edit"), "edit"),
            SelectOption::new(PlainText::new("Delete"), "delete"),
        ],
    );
    let json = serde_json::to_string(&ov.to_value()).unwrap();
    assert!(json.contains("\"type\":\"overflow\""));
    assert!(json.contains("\"value\":\"edit\""));
}

#[test]
fn plain_text_serializes() {
    let text = PlainText::new("hello").emoji(true);
    let json = serde_json::to_string(&text.to_value()).unwrap();
    assert!(json.contains("\"type\":\"plain_text\""));
    assert!(json.contains("\"text\":\"hello\""));
    assert!(json.contains("\"emoji\":true"));
}

#[test]
fn mrkdwn_serializes() {
    let text = MrkdwnText::new("*hi*");
    let json = serde_json::to_string(&text.to_value()).unwrap();
    assert!(json.contains("\"type\":\"mrkdwn\""));
    assert!(json.contains("\"text\":\"*hi*\""));
}

#[test]
fn text_object_from_plain() {
    let text: TextObject = PlainText::new("hello").into();
    let json = serde_json::to_string(&text.to_value()).unwrap();
    assert!(json.contains("\"type\":\"plain_text\""));
}

#[test]
fn section_serializes_text_nodes() {
    let element = RichTextElement::section(vec![
        RichTextNode::text("Hello"),
        RichTextNode::styled_text("world", TextStyle::new().bold()),
    ]);

    let json = serde_json::to_string(&element.to_value()).unwrap();
    assert!(json.contains("\"type\":\"rich_text_section\""));
    assert!(json.contains("Hello"));
    assert!(json.contains("world"));
}
