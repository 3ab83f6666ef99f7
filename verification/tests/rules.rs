use slaq::blocks::elements::rules::{validate_element, validate_static_select};
use slaq::blocks::elements::{
    ButtonElement, FileInputElement, MultiStaticSelectElement, OptionGroup,
    PlainTextInputElement, SelectOption, StaticSelectElement,
};
use slaq::blocks::{
    Actions, Block, BlockElement, BuildError, ColumnSetting, Context, ContextActionElement,
    ContextActions, ContextElement, Divider, FeedbackButton, Header, Image, Input, MrkdwnText,
    PlainText, RichText, RichTextElement, RichTextNode, Section, SlackFileRef, Table, TableCell,
    TextObject, Video,
};
use slaq::strings::{is_blank, to_decimal, with_number};

fn option(text: &str, value: &str) -> SelectOption {
    SelectOption::new(PlainText::new(text), value)
}

fn group() -> OptionGroup {
    OptionGroup::new(PlainText::new("G"), vec![option("A", "a")])
}

fn buttons(n: usize) -> Vec<BlockElement> {
    (0..n)
        .map(|_| BlockElement::from(ButtonElement::new(PlainText::new("Go"), "go")))
        .collect()
}

fn message(result: Result<Block, BuildError>) -> String {
    result.expect_err("expected a refusal").to_string()
}

fn video() -> Video {
    Video::new(
        PlainText::new("Title"),
        "https://example.com/video",
        "https://example.com/thumb",
        "alt",
    )
}

#[test]
fn empty_collections_are_refused() {
    assert_eq!(
        message(Context::new(Vec::new()).build()),
        "context block requires at least one element"
    );
    assert_eq!(
        message(ContextActions::new(Vec::new()).build()),
        "context_actions block requires at least one element"
    );
    assert_eq!(
        message(Actions::new(Vec::new()).build()),
        "actions block requires at least one element"
    );
    assert_eq!(
        message(RichText::new(Vec::new()).build()),
        "rich_text block requires at least one element"
    );
    assert_eq!(
        message(Table::new(Vec::new()).build()),
        "table block requires at least one row"
    );
}

#[test]
fn context_accepts_the_most_and_refuses_one_more() {
    let texts = |n: usize| (0..n).map(|_| ContextElement::plain_text("x")).collect::<Vec<_>>();
    assert!(Context::new(texts(10)).build().is_ok());
    assert_eq!(
        message(Context::new(texts(11)).build()),
        "context block supports at most 10 elements"
    );
}

#[test]
fn context_actions_accepts_the_most_and_refuses_one_more() {
    let pairs = |n: usize| {
        (0..n)
            .map(|_| {
                ContextActionElement::feedback(
                    "fb",
                    FeedbackButton::new("Yes", "y"),
                    FeedbackButton::new("No", "n"),
                )
            })
            .collect::<Vec<_>>()
    };
    assert!(ContextActions::new(pairs(5)).build().is_ok());
    assert_eq!(
        message(ContextActions::new(pairs(6)).build()),
        "context_actions block supports at most 5 elements"
    );
}

#[test]
fn actions_accepts_the_most_and_refuses_one_more() {
    assert!(Actions::new(buttons(25)).build().is_ok());
    assert_eq!(
        message(Actions::new(buttons(26)).build()),
        "actions block supports at most 25 elements"
    );
}

#[test]
fn actions_with_the_most_elements_is_still_held_to_their_rules() {
    let mut elements = buttons(24);
    elements.push(BlockElement::from(StaticSelectElement::new("s")));
    assert_eq!(
        message(Actions::new(elements).build()),
        "static_select requires options or option_groups"
    );
}

#[test]
fn section_fields_accept_the_most_and_refuse_one_more() {
    let fields = |n: usize| {
        (0..n)
            .map(|_| TextObject::from(MrkdwnText::new("f")))
            .collect::<Vec<_>>()
    };
    assert!(Section::new().fields(fields(10)).build().is_ok());
    assert_eq!(
        message(Section::new().fields(fields(11)).build()),
        "section fields can contain at most 10 items"
    );
}

#[test]
fn table_accepts_the_most_and_refuses_one_more() {
    let rows = |n: usize, cells: usize| vec![vec![TableCell::raw("x"); cells]; n];
    assert!(Table::new(rows(100, 1)).build().is_ok());
    assert_eq!(
        message(Table::new(rows(101, 1)).build()),
        "table block supports at most 100 rows"
    );
    assert!(Table::new(rows(1, 20)).build().is_ok());
    assert_eq!(
        message(Table::new(rows(1, 21)).build()),
        "table block rows support at most 20 cells"
    );
    let settings = |n: usize| vec![ColumnSetting::new(); n];
    assert!(Table::new(rows(1, 1))
        .column_settings(settings(20))
        .build()
        .is_ok());
    assert_eq!(
        message(Table::new(rows(1, 1)).column_settings(settings(21)).build()),
        "table block column_settings supports at most 20 entries"
    );
}

#[test]
fn table_names_the_first_row_without_cells() {
    let mut rows = vec![vec![TableCell::raw("x")]; 14];
    rows[12] = Vec::new();
    rows[13] = Vec::new();
    assert_eq!(
        message(Table::new(rows).build()),
        "table block row 12 must contain at least one cell"
    );
    assert_eq!(
        message(Table::new(vec![Vec::new()]).build()),
        "table block row 0 must contain at least one cell"
    );
}

#[test]
fn table_rows_are_checked_before_column_settings() {
    let rows = vec![vec![TableCell::raw("x")], vec![TableCell::raw("x"); 21]];
    let table = Table::new(rows).column_settings(vec![ColumnSetting::new(); 21]);
    assert_eq!(
        message(table.build()),
        "table block rows support at most 20 cells"
    );
}

#[test]
fn image_takes_exactly_one_source() {
    assert_eq!(
        message(Image::new("alt").build()),
        "image block requires either image_url or slack_file"
    );
    let file = SlackFileRef {
        url: None,
        id: Some("F123".to_string()),
    };
    assert_eq!(
        message(
            Image::new("alt")
                .image_url("https://example.com/cat.png")
                .slack_file(file.clone())
                .build()
        ),
        "image block must choose either image_url or slack_file, not both"
    );
    assert!(Image::new("alt")
        .image_url("https://example.com/cat.png")
        .build()
        .is_ok());
    assert!(Image::new("alt").slack_file(file).build().is_ok());
}

#[test]
fn image_file_is_named_by_url_or_id() {
    let nameless = SlackFileRef {
        url: None,
        id: None,
    };
    assert_eq!(
        message(Image::new("alt").slack_file(nameless).build()),
        "slack_file reference requires either url or id"
    );
    let by_url = SlackFileRef {
        url: Some("https://files.example.com/f".to_string()),
        id: None,
    };
    assert!(Image::new("alt").slack_file(by_url).build().is_ok());
}

#[test]
fn video_names_the_url_that_is_not_https() {
    assert!(video().build().is_ok());
    assert!(video()
        .title_url("https://example.com/title")
        .build()
        .is_ok());
    let v = Video::new(
        PlainText::new("Title"),
        "ftp://example.com/video",
        "http://example.com/thumb",
        "alt",
    );
    assert_eq!(
        message(v.build()),
        "video block video_url must use https scheme"
    );
    let v = Video::new(
        PlainText::new("Title"),
        "https://example.com/video",
        "HTTPS://example.com/thumb",
        "alt",
    );
    assert_eq!(
        message(v.build()),
        "video block thumbnail_url must use https scheme"
    );
    assert_eq!(
        message(video().title_url("https:/example.com").build()),
        "video block title_url must use https scheme"
    );
    // Only the URLs that the rules name are held to the scheme.
    assert!(video()
        .provider_icon_url("http://example.com/icon")
        .build()
        .is_ok());
}

#[test]
fn video_texts_have_a_limit() {
    let long = "x".repeat(201);
    let most = "x".repeat(200);
    let v = Video::new(PlainText::new(&long), "https://a", "https://b", "alt");
    assert_eq!(
        message(v.build()),
        "video block title cannot exceed 200 characters"
    );
    let v = Video::new(PlainText::new(&most), "https://a", "https://b", "alt");
    assert!(v.build().is_ok());
    assert_eq!(
        message(video().description(PlainText::new(&long)).build()),
        "video block description cannot exceed 200 characters"
    );
    assert!(video().description(PlainText::new(&most)).build().is_ok());
}

#[test]
fn video_alt_text_is_not_blank() {
    for blank in ["", " ", "\t\n", "\u{a0}\u{2003}"] {
        let v = Video::new(PlainText::new("Title"), "https://a", "https://b", blank);
        assert_eq!(message(v.build()), "video block alt_text must not be empty");
    }
    let v = Video::new(PlainText::new("Title"), "https://a", "https://b", "  a  ");
    assert!(v.build().is_ok());
}

#[test]
fn blankness_is_white_space_throughout() {
    assert!(is_blank(""));
    assert!(is_blank("  \r\n"));
    assert!(!is_blank(" x "));
    assert!(!is_blank("x"));
    assert!(!is_blank("\u{200b}"));
}

#[test]
fn white_space_is_the_unicode_property() {
    let listed = |u: u32| {
        (0x0009..=0x000D).contains(&u)
            || u == 0x0020
            || u == 0x0085
            || u == 0x00A0
            || u == 0x1680
            || (0x2000..=0x200A).contains(&u)
            || u == 0x2028
            || u == 0x2029
            || u == 0x202F
            || u == 0x205F
            || u == 0x3000
    };
    let mut buffer = [0u8; 4];
    let mut white = 0;
    for u in 0..=0x10FFFFu32 {
        if let Some(c) = char::from_u32(u) {
            let text: &str = c.encode_utf8(&mut buffer);
            assert_eq!(is_blank(text), listed(u), "U+{u:04X}");
            if listed(u) {
                white += 1;
            }
        }
    }
    assert_eq!(white, 25);
}

#[test]
fn section_takes_text_or_fields() {
    assert_eq!(
        message(Section::new().build()),
        "section block requires text or at least one field"
    );
    assert_eq!(
        message(Section::new().fields(Vec::new()).build()),
        "section block requires text or at least one field"
    );
    assert!(Section::new()
        .text(TextObject::from("text alone"))
        .build()
        .is_ok());
    assert!(Section::new()
        .fields(vec![TextObject::from("field alone")])
        .build()
        .is_ok());
    assert!(Section::new()
        .text(TextObject::from(PlainText::new("")))
        .build()
        .is_ok());
}

#[test]
fn input_with_file_input_does_not_dispatch() {
    let file = || BlockElement::from(FileInputElement::new("files"));
    let text = || BlockElement::from(PlainTextInputElement::new("text"));
    assert_eq!(
        message(
            Input::new(PlainText::new("Upload"), file())
                .dispatch_action(true)
                .build()
        ),
        "input block cannot use dispatch_action with file_input"
    );
    assert!(Input::new(PlainText::new("Upload"), file())
        .dispatch_action(false)
        .build()
        .is_ok());
    assert!(Input::new(PlainText::new("Upload"), file()).build().is_ok());
    assert!(Input::new(PlainText::new("Reason"), text())
        .dispatch_action(true)
        .build()
        .is_ok());
}

#[test]
fn input_dispatch_is_checked_before_the_label() {
    let long = "x".repeat(2001);
    let file = BlockElement::from(FileInputElement::new("files"));
    assert_eq!(
        message(
            Input::new(PlainText::new(&long), file)
                .dispatch_action(true)
                .build()
        ),
        "input block cannot use dispatch_action with file_input"
    );
    let text = BlockElement::from(PlainTextInputElement::new("text"));
    let most = "x".repeat(2000);
    assert!(Input::new(PlainText::new(&most), text)
        .hint(PlainText::new(&most))
        .build()
        .is_ok());
}

#[test]
fn static_select_takes_options_or_groups() {
    let build = |select: StaticSelectElement| Actions::new(vec![BlockElement::from(select)]).build();
    assert_eq!(
        message(build(StaticSelectElement::new("s"))),
        "static_select requires options or option_groups"
    );
    assert_eq!(
        message(build(
            StaticSelectElement::new("s")
                .options(vec![option("A", "a")])
                .option_groups(vec![group()])
        )),
        "static_select cannot specify both options and option_groups"
    );
    assert!(build(StaticSelectElement::new("s").options(vec![option("A", "a")])).is_ok());
    assert!(build(StaticSelectElement::new("s").option_groups(vec![group()])).is_ok());
    // A list that is set but empty counts as not set.
    assert_eq!(
        message(build(StaticSelectElement::new("s").options(Vec::new()))),
        "static_select requires options or option_groups"
    );
    assert!(build(
        StaticSelectElement::new("s")
            .options(Vec::new())
            .option_groups(vec![group()])
    )
    .is_ok());
}

#[test]
fn multi_static_select_allows_at_least_one_choice() {
    let build = |select: MultiStaticSelectElement| {
        Section::new()
            .text(TextObject::from("pick"))
            .accessory(BlockElement::from(select))
            .build()
    };
    let with_options = || MultiStaticSelectElement::new("m").options(vec![option("A", "a")]);
    assert_eq!(
        message(build(with_options().max_selected_items(0))),
        "multi_static_select max_selected_items must be greater than 0"
    );
    assert!(build(with_options().max_selected_items(1)).is_ok());
    assert!(build(with_options()).is_ok());
    assert_eq!(
        message(build(MultiStaticSelectElement::new("m").max_selected_items(0))),
        "static_select requires options or option_groups"
    );
    assert_eq!(
        message(build(with_options().option_groups(vec![group()]))),
        "static_select cannot specify both options and option_groups"
    );
}

#[test]
fn elements_are_told_apart_by_their_tag() {
    let raw = |json: &str| BlockElement(serde_json::from_str(json).expect("json"));
    assert!(validate_element(&raw(r#"{"type": "button"}"#)).is_ok());
    assert!(validate_element(&raw(r#"{"options": []}"#)).is_ok());
    assert!(validate_element(&raw(r#"{"type": 7}"#)).is_ok());
    assert!(validate_element(&raw(r#"["static_select"]"#)).is_ok());
    assert_eq!(
        validate_element(&raw(r#"{"type": "static_select", "options": {"a": 1}}"#)),
        Err(BuildError::message(
            "static_select requires options or option_groups"
        ))
    );
    assert!(validate_element(&raw(r#"{"type": "static_select", "options": [1]}"#)).is_ok());
    assert!(validate_element(&raw(
        r#"{"type": "multi_static_select", "options": [1], "max_selected_items": -1}"#
    ))
    .is_ok());
    assert!(validate_element(&raw(
        r#"{"type": "multi_static_select", "options": [1], "max_selected_items": 0.0}"#
    ))
    .is_ok());
    assert_eq!(
        validate_element(&raw(
            r#"{"type": "multi_static_select", "options": [1], "max_selected_items": 0}"#
        )),
        Err(BuildError::message(
            "multi_static_select max_selected_items must be greater than 0"
        ))
    );
    let value = serde_json::from_str(r#"{"option_groups": [{}]}"#).expect("json");
    assert!(validate_static_select(&value, false).is_ok());
    assert!(validate_static_select(&value, true).is_ok());
}

#[test]
fn header_text_has_a_limit_in_bytes() {
    assert!(Header::new(PlainText::new(&"x".repeat(150))).build().is_ok());
    assert_eq!(
        message(Header::new(PlainText::new(&"x".repeat(151))).build()),
        "header block text cannot exceed 150 characters"
    );
    assert!(Header::new(PlainText::new(&"é".repeat(75))).build().is_ok());
    assert_eq!(
        message(Header::new(PlainText::new(&"é".repeat(76))).build()),
        "header block text cannot exceed 150 characters"
    );
}

#[test]
fn only_the_first_broken_rule_is_reported() {
    let mut elements = vec![
        BlockElement::from(ButtonElement::new(PlainText::new("Go"), "go")),
        BlockElement::from(MultiStaticSelectElement::new("m").options(vec![option("A", "a")]).max_selected_items(0)),
        BlockElement::from(StaticSelectElement::new("s")),
    ];
    assert_eq!(
        message(Actions::new(elements.clone()).build()),
        "multi_static_select max_selected_items must be greater than 0"
    );
    elements.remove(1);
    assert_eq!(
        message(Actions::new(elements).build()),
        "static_select requires options or option_groups"
    );
}

#[test]
fn a_finished_block_is_the_builder_itself() {
    let builder = Divider::new().block_id("d1");
    assert_eq!(builder.clone().build(), Ok(Block::Divider(builder)));
    let builder = RichText::new(vec![RichTextElement::quote(vec![RichTextNode::emoji("wave")])]);
    assert!(builder.validate().is_ok());
    assert_eq!(builder.clone().build(), Ok(Block::RichText(builder)));
}

#[test]
fn numbers_are_written_in_decimal() {
    assert_eq!(to_decimal(0), "0");
    assert_eq!(to_decimal(7), "7");
    assert_eq!(to_decimal(10), "10");
    assert_eq!(to_decimal(2000), "2000");
    assert_eq!(to_decimal(9876543210), "9876543210");
    assert_eq!(with_number("at most ", 25, " elements"), "at most 25 elements");
}

#[test]
fn an_error_carries_its_description() {
    let err = BuildError::message("broken");
    assert_eq!(err, BuildError::Message("broken".to_string()));
    assert_eq!(err.to_string(), "broken");
}
