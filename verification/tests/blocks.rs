use slaq::blocks::elements::{OptionGroup, StaticSelectElement};
use slaq::blocks::rich_text;
use slaq::blocks::{
    Actions, BlockElement, BuildError, ButtonElement, ColumnAlignment, ColumnSetting, Context,
    ContextActionElement, ContextActions, ContextElement, Divider, FeedbackButton, File,
    FileSource, Header, Image, Input, Markdown, MrkdwnText, PlainText, RichText, Section,
    SelectOption, SlackFileRef, Table, TableCell, TextObject, Video,
};
use slaq::blocks::{
    MAX_ACTIONS_ELEMENTS, MAX_CONTEXT_ACTIONS_ELEMENTS, MAX_CONTEXT_ELEMENTS, MAX_INPUT_TEXT_LEN,
    MAX_SECTION_FIELDS, MAX_TABLE_COLUMNS, MAX_TABLE_ROWS,
};

fn element(json: &str) -> BlockElement {
    BlockElement(serde_json::from_str(json).expect("element json"))
}

#[test]
fn divider_serializes_minimal() {
    let block = Divider::new().build().expect("divider build");
    let json = serde_json::to_string(&block.to_value()).unwrap();
    assert_eq!(json, r#"{"type":"divider"}"#);
}

#[test]
fn markdown_serializes_with_text_and_block_id() {
    let block = Markdown::new("hello")
        .block_id("block-1")
        .build()
        .expect("markdown build");
    let json = serde_json::to_string(&block.to_value()).unwrap();
    assert!(json.contains("\"type\":\"markdown\""));
    assert!(json.contains("\"text\":\"hello\""));
    assert!(json.contains("\"block_id\":\"block-1\""));
}

#[test]
fn header_serializes_plain_text() {
    let block = Header::new(PlainText::new("Release"))
        .build()
        .expect("header build");
    let json = serde_json::to_string(&block.to_value()).unwrap();
    assert!(json.contains("\"type\":\"header\""));
    assert!(json.contains("\"text\":{\"type\":\"plain_text\""));
}

#[test]
fn image_serializes_with_url() {
    let block = Image::new("Preview")
        .image_url("https://example.com/cat.png")
        .title(PlainText::new("cat"))
        .build()
        .expect("image build");
    let json = serde_json::to_string(&block.to_value()).unwrap();
    assert!(json.contains("\"type\":\"image\""));
    assert!(json.contains("\"image_url\":\"https://example.com/cat.png\""));
}

#[test]
fn file_serializes_remote_source() {
    let block = File::new("ABCD1", FileSource::Remote)
        .build()
        .expect("file build");
    let json = serde_json::to_string(&block.to_value()).unwrap();
    assert!(json.contains("\"type\":\"file\""));
    assert!(json.contains("\"external_id\":\"ABCD1\""));
    assert!(json.contains("\"source\":\"remote\""));
}

#[test]
fn context_serializes_text_and_image() {
    let block = Context::new(vec![
        ContextElement::mrkdwn("*Location*: Dogpatch"),
        ContextElement::image(
            "https://image.freepik.com/free-photo/red-drawing-pin_1156-445.jpg",
            "pin",
        ),
    ])
    .build()
    .expect("context build");

    let json = serde_json::to_string(&block.to_value()).unwrap();
    assert!(json.contains("\"type\":\"context\""));
    assert!(json.contains("Dogpatch"));
    assert!(json.contains("red-drawing-pin"));
}

#[test]
fn context_actions_serializes_feedback() {
    let positive = FeedbackButton::new("👍", "positive");
    let negative = FeedbackButton::new("👎", "negative");
    let block = ContextActions::new(vec![ContextActionElement::feedback(
        "feedback_1",
        positive,
        negative,
    )])
    .build()
    .expect("context actions build");

    let json = serde_json::to_string(&block.to_value()).unwrap();
    assert!(json.contains("\"type\":\"context_actions\""));
    assert!(json.contains("feedback_1"));
}

#[test]
fn actions_serializes_button() {
    let button = ButtonElement::new(PlainText::new("Click"), "btn_1");
    let block = Actions::new(vec![BlockElement::from(button)])
        .build()
        .expect("actions build");

    let json = serde_json::to_string(&block.to_value()).unwrap();
    assert!(json.contains("\"type\":\"actions\""));
    assert!(json.contains("btn_1"));
}

#[test]
fn actions_empty_fails() {
    let err = Actions::new(Vec::new())
        .build()
        .expect_err("expected error");
    assert!(err.to_string().contains("requires at least one element"));
}

#[test]
fn section_serializes_with_text_and_accessory() {
    let section = Section::new()
        .text(TextObject::from("*Deployment finished*"))
        .accessory(BlockElement::from(ButtonElement::new(
            PlainText::new("Details"),
            "details_btn",
        )))
        .build()
        .expect("section build");

    let json = serde_json::to_string(&section.to_value()).unwrap();
    assert!(json.contains("\"type\":\"section\""));
    assert!(json.contains("Deployment finished"));
    assert!(json.contains("details_btn"));
}

#[test]
fn section_requires_content() {
    let err = Section::new().build().expect_err("expected section error");
    assert!(err
        .to_string()
        .contains("section block requires text or at least one field"));
}

#[test]
fn input_serializes_with_text_input() {
    let element = element(r#"{"type": "plain_text_input", "action_id": "input_1"}"#);
    let block = Input::new(PlainText::new("Reason"), element)
        .hint(PlainText::new("Optional"))
        .build()
        .expect("input build");

    let json = serde_json::to_string(&block.to_value()).unwrap();
    assert!(json.contains("\"type\":\"input\""));
    assert!(json.contains("Reason"));
    assert!(json.contains("plain_text_input"));
}

#[test]
fn input_dispatch_action_file_input_fails() {
    let element = element(r#"{"type": "file_input", "action_id": "files"}"#);
    let err = Input::new(PlainText::new("Upload"), element)
        .dispatch_action(true)
        .build()
        .expect_err("expected input error");
    assert!(err
        .to_string()
        .contains("input block cannot use dispatch_action with file_input"));
}

#[test]
fn video_serializes_minimal() {
    let block = Video::new(
        PlainText::new("Slack demo"),
        "https://example.com/embed/123",
        "https://example.com/thumb.jpg",
        "Slack demo video",
    )
    .build()
    .expect("video build");

    let json = serde_json::to_string(&block.to_value()).unwrap();
    assert!(json.contains("\"type\":\"video\""));
    assert!(json.contains("Slack demo"));
    assert!(json.contains("thumb.jpg"));
}

#[test]
fn video_rejects_non_https_urls() {
    let err = Video::new(
        PlainText::new("Slack demo"),
        "http://example.com/embed/123",
        "https://example.com/thumb.jpg",
        "Slack demo video",
    )
    .build()
    .expect_err("expected https validation");

    assert!(err
        .to_string()
        .contains("video block video_url must use https scheme"));
}

#[test]
fn rich_text_serializes_section() {
    let section = rich_text::RichTextElement::section(vec![
        rich_text::RichTextNode::text("Hello"),
        rich_text::RichTextNode::styled_text("world", rich_text::TextStyle::new().bold()),
    ]);
    let block = RichText::new(vec![section])
        .build()
        .expect("rich text build");

    let json = serde_json::to_string(&block.to_value()).unwrap();
    assert!(json.contains("\"type\":\"rich_text\""));
    assert!(json.contains("Hello"));
    assert!(json.contains("world"));
}

#[test]
fn rich_text_requires_elements() {
    let err = RichText::new(Vec::<rich_text::RichTextElement>::new())
        .build()
        .expect_err("expected rich text error");
    assert!(err
        .to_string()
        .contains("rich_text block requires at least one element"));
}

#[test]
fn table_serializes_raw_rows() {
    let rows = vec![
        vec![TableCell::raw("Header A"), TableCell::raw("Header B")],
        vec![TableCell::raw("Data 1A"), TableCell::raw("Data 1B")],
    ];
    let table = Table::new(rows)
        .column_settings(vec![
            ColumnSetting::new().align(ColumnAlignment::Left),
            ColumnSetting::new().wrap(true),
        ])
        .build()
        .expect("table build");

    let json = serde_json::to_string(&table.to_value()).unwrap();
    assert!(json.contains("\"type\":\"table\""));
    assert!(json.contains("Header A"));
    assert!(json.contains("Data 1B"));
}

#[test]
fn table_requires_rows() {
    let err = Table::new(Vec::<Vec<TableCell>>::new())
        .build()
        .expect_err("expected table error");
    assert!(err
        .to_string()
        .contains("table block requires at least one row"));
}

#[test]
fn static_select_requires_options_or_groups() {
    let sel = StaticSelectElement::new("s");
    let err = Actions::new(vec![BlockElement::from(sel)])
        .build()
        .expect_err("expected validation error");
    assert_eq!(
        err,
        BuildError::message("static_select requires options or option_groups")
    );
}

#[test]
fn static_select_cannot_have_both() {
    let sel = StaticSelectElement::new("s")
        .options(vec![SelectOption::new(PlainText::new("A"), "a")])
        .option_groups(vec![OptionGroup::new(
            PlainText::new("G"),
            vec![SelectOption::new(PlainText::new("A"), "a")],
        )]);
    let err = Actions::new(vec![BlockElement::from(sel)])
        .build()
        .expect_err("expected validation error");
    assert_eq!(
        err,
        BuildError::message("static_select cannot specify both options and option_groups")
    );
}

#[test]
fn actions_over_element_limit_rejected() {
    let button = ButtonElement::new(PlainText::new("Go"), "go");
    let mut items: Vec<BlockElement> = Vec::new();
    for _ in 0..=MAX_ACTIONS_ELEMENTS {
        // one over
        items.push(BlockElement::from(button.clone()));
    }
    let err = Actions::new(items).build().expect_err("expected too many");
    assert_eq!(
        err,
        BuildError::message(&format!(
            "actions block supports at most {} elements",
            MAX_ACTIONS_ELEMENTS
        ))
    );
}

#[test]
fn context_actions_requires_at_least_one_element() {
    let err = ContextActions::new(Vec::new())
        .build()
        .expect_err("empty context_actions");
    assert_eq!(
        err,
        BuildError::message("context_actions block requires at least one element")
    );
}

#[test]
fn context_actions_rejects_over_limit() {
    // Use feedback buttons element for minimal JSON
    let pos = FeedbackButton::new("Yes", "y");
    let neg = FeedbackButton::new("No", "n");
    let mut items = Vec::new();
    for _ in 0..=MAX_CONTEXT_ACTIONS_ELEMENTS {
        // one over
        items.push(ContextActionElement::feedback(
            "fb",
            pos.clone(),
            neg.clone(),
        ));
    }
    let err = ContextActions::new(items).build().expect_err("too many");
    assert_eq!(
        err,
        BuildError::message(&format!(
            "context_actions block supports at most {} elements",
            MAX_CONTEXT_ACTIONS_ELEMENTS
        ))
    );
}

#[test]
fn context_actions_icon_button_serializes() {
    let icon_el = ContextActionElement::icon(":smile:", PlainText::new("Great"), "act");
    let block = ContextActions::new(vec![icon_el]).build().expect("build");
    let json = serde_json::to_string(&block.to_value()).unwrap();
    assert!(json.contains("\"type\":\"context_actions\""));
    assert!(json.contains("\"type\":\"icon_button\""));
    assert!(json.contains("Great"));
}

#[test]
fn context_requires_at_least_one_element() {
    let err = Context::new(Vec::new()).build().expect_err("empty context");
    assert_eq!(
        err,
        BuildError::message("context block requires at least one element")
    );
}

#[test]
fn context_rejects_over_limit() {
    let mut items = Vec::new();
    for _ in 0..=MAX_CONTEXT_ELEMENTS {
        // one over
        items.push(ContextElement::plain_text("x"));
    }
    let err = Context::new(items).build().expect_err("too many");
    assert_eq!(
        err,
        BuildError::message(&format!(
            "context block supports at most {} elements",
            MAX_CONTEXT_ELEMENTS
        ))
    );
}

#[test]
fn image_requires_one_source() {
    let err = Image::new("alt").build().expect_err("missing source");
    assert_eq!(
        err,
        BuildError::message("image block requires either image_url or slack_file")
    );
}

#[test]
fn image_cannot_have_both_sources() {
    let err = Image::new("alt")
        .image_url("https://example")
        .slack_file(SlackFileRef {
            url: Some("https://files".into()),
            id: None,
        })
        .build()
        .expect_err("both sources");
    assert_eq!(
        err,
        BuildError::message("image block must choose either image_url or slack_file, not both")
    );
}

#[test]
fn label_over_limit_rejected() {
    let long = "x".repeat(MAX_INPUT_TEXT_LEN + 1);
    let element = element(r#"{"type": "plain_text_input", "action_id": "a"}"#);
    let err = Input::new(PlainText::new(&long), element)
        .build()
        .expect_err("expected label length error");
    assert_eq!(
        err,
        BuildError::message(&format!(
            "input block label cannot exceed {} characters",
            MAX_INPUT_TEXT_LEN
        ))
    );
}

#[test]
fn hint_over_limit_rejected() {
    let long = "x".repeat(MAX_INPUT_TEXT_LEN + 1);
    let element = element(r#"{"type": "plain_text_input", "action_id": "a"}"#);
    let err = Input::new(PlainText::new("Label"), element)
        .hint(PlainText::new(&long))
        .build()
        .expect_err("expected hint length error");
    assert_eq!(
        err,
        BuildError::message(&format!(
            "input block hint cannot exceed {} characters",
            MAX_INPUT_TEXT_LEN
        ))
    );
}

#[test]
fn section_accessory_select_requires_content() {
    let sel = StaticSelectElement::new("id");
    let err = Section::new()
        .text(TextObject::from(MrkdwnText::new("t")))
        .accessory(BlockElement::from(sel))
        .build()
        .expect_err("error");
    assert_eq!(
        err,
        BuildError::message("static_select requires options or option_groups")
    );
}

#[test]
fn section_fields_over_limit_rejected() {
    let mut fields = Vec::new();
    for _ in 0..=MAX_SECTION_FIELDS {
        // one over
        fields.push(MrkdwnText::new("f").into());
    }
    let err = Section::new().fields(fields).build().expect_err("error");
    assert_eq!(
        err,
        BuildError::message(&format!(
            "section fields can contain at most {} items",
            MAX_SECTION_FIELDS
        ))
    );
}

#[test]
fn table_rejects_too_many_rows() {
    let rows = vec![vec![TableCell::raw("x")]; MAX_TABLE_ROWS + 1];
    let res = Table::new(rows).build();
    assert!(res.is_err());
    let msg = format!("table block supports at most {} rows", MAX_TABLE_ROWS);
    assert_eq!(res.unwrap_err(), BuildError::message(&msg));
}

#[test]
fn table_rejects_too_many_columns() {
    let row = vec![TableCell::raw("x"); MAX_TABLE_COLUMNS + 1];
    let rows = vec![row];
    let res = Table::new(rows).build();
    assert!(res.is_err());
    let msg = format!(
        "table block rows support at most {} cells",
        MAX_TABLE_COLUMNS
    );
    assert_eq!(res.unwrap_err(), BuildError::message(&msg));
}

fn base() -> Video {
    Video::new(
        PlainText::new("Title"),
        "https://example.com/video",
        "https://example.com/thumb",
        "alt",
    )
}

#[test]
fn rejects_non_https_urls() {
    let v = Video::new(
        PlainText::new("Title"),
        "http://example.com/video",
        "https://example.com/thumb",
        "alt",
    );
    assert_eq!(
        v.build().unwrap_err(),
        BuildError::message("video block video_url must use https scheme")
    );

    let v = Video::new(
        PlainText::new("Title"),
        "https://example.com/video",
        "http://example.com/thumb",
        "alt",
    );
    assert_eq!(
        v.build().unwrap_err(),
        BuildError::message("video block thumbnail_url must use https scheme")
    );

    let v = base().title_url("http://example.com/title");
    assert_eq!(
        v.build().unwrap_err(),
        BuildError::message("video block title_url must use https scheme")
    );
}

#[test]
fn rejects_empty_alt_text() {
    let v = Video::new(
        PlainText::new("Title"),
        "https://example.com/video",
        "https://example.com/thumb",
        "   ",
    );
    assert_eq!(
        v.build().unwrap_err(),
        BuildError::message("video block alt_text must not be empty")
    );
}
