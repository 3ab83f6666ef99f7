use slaq::blocks::elements::{
    ButtonElement, ButtonStyle, ConfirmationDialog, ContextImage, ConversationsFilter,
    ConversationsFilterKind, DateTimePickerElement, DispatchActionConfig, DispatchActionTrigger,
    ExternalSelectElement, MultiConversationsSelectElement, MultiUsersSelectElement,
    NumberInputElement, OptionGroup, PlainTextInputElement, RichTextInputElement, SelectOption,
};
use slaq::blocks::rich_text::{BroadcastRange, ListStyle};
use slaq::blocks::{
    Actions, Block, BlockElement, ColumnSetting, Context, ContextActionElement, ContextActions,
    ContextElement, Divider, File, FileSource, Header, Image, Input, Markdown, MrkdwnText,
    PlainText, RichText, RichTextElement, RichTextNode, Section, SlackFileRef, Table, TableCell,
    TextObject, TextStyle, Video,
};
use slaq::encode::ToJson;

fn text<T: ToJson>(value: &T) -> String {
    serde_json::to_string(&value.to_value()).expect("json text")
}

fn built(result: Result<Block, slaq::blocks::BuildError>) -> String {
    serde_json::to_string(&result.expect("build").to_value()).expect("json text")
}

#[test]
fn header_is_written_in_full() {
    assert_eq!(
        built(Header::new(PlainText::new("Status Report")).build()),
        r#"{"type":"header","text":{"type":"plain_text","text":"Status Report"}}"#
    );
}

#[test]
fn bare_divider_has_only_its_tag() {
    assert_eq!(built(Divider::new().build()), r#"{"type":"divider"}"#);
}

#[test]
fn table_rows_are_written_as_cells() {
    let table = Table::new(vec![vec![
        TableCell::raw("Header A"),
        TableCell::raw("Header B"),
    ]]);
    assert_eq!(
        built(table.build()),
        r#"{"type":"table","rows":[[{"type":"raw_text","text":"Header A"},{"type":"raw_text","text":"Header B"}]]}"#
    );
}

#[test]
fn every_block_kind_has_its_tag_and_no_unset_field() {
    let button = || BlockElement::from(ButtonElement::new(PlainText::new("Go"), "go"));
    let plain = r#"{"type":"plain_text","text":"t"}"#;
    let go = r#"{"type":"button","text":{"type":"plain_text","text":"Go"},"action_id":"go"}"#;
    assert_eq!(
        built(Markdown::new("**hi**").build()),
        r#"{"type":"markdown","text":"**hi**"}"#
    );
    assert_eq!(
        built(Image::new("alt").image_url("https://e/i.png").build()),
        r#"{"type":"image","alt_text":"alt","image_url":"https://e/i.png"}"#
    );
    assert_eq!(
        built(File::new("ABCD1", FileSource::Remote).build()),
        r#"{"type":"file","external_id":"ABCD1","source":"remote"}"#
    );
    assert_eq!(
        built(Context::new(vec![ContextElement::plain_text("t")]).build()),
        format!(r#"{{"type":"context","elements":[{plain}]}}"#)
    );
    assert_eq!(
        built(
            ContextActions::new(vec![ContextActionElement::icon(
                "trash",
                PlainText::new("t"),
                "del"
            )])
            .build()
        ),
        format!(
            r#"{{"type":"context_actions","elements":[{{"type":"icon_button","icon":"trash","text":{plain},"action_id":"del"}}]}}"#
        )
    );
    assert_eq!(
        built(Actions::new(vec![button()]).build()),
        format!(r#"{{"type":"actions","elements":[{go}]}}"#)
    );
    assert_eq!(
        built(Section::new().text(TextObject::from(PlainText::new("t"))).build()),
        format!(r#"{{"type":"section","text":{plain}}}"#)
    );
    assert_eq!(
        built(Input::new(PlainText::new("t"), button()).build()),
        format!(r#"{{"type":"input","label":{plain},"element":{go}}}"#)
    );
    assert_eq!(
        built(Video::new(PlainText::new("t"), "https://v", "https://t", "alt").build()),
        format!(
            r#"{{"type":"video","title":{plain},"video_url":"https://v","thumbnail_url":"https://t","alt_text":"alt"}}"#
        )
    );
    assert_eq!(
        built(RichText::new(vec![RichTextElement::section(vec![RichTextNode::text("t")])]).build()),
        r#"{"type":"rich_text","elements":[{"type":"rich_text_section","elements":[{"type":"text","text":"t"}]}]}"#
    );
}

#[test]
fn every_option_that_is_set_is_written() {
    assert_eq!(
        built(Divider::new().block_id("b").build()),
        r#"{"type":"divider","block_id":"b"}"#
    );
    let file = SlackFileRef {
        url: Some("https://f".to_string()),
        id: Some("F1".to_string()),
    };
    assert_eq!(
        built(
            Image::new("alt")
                .slack_file(file)
                .title(PlainText::new("t").emoji(false))
                .block_id("b")
                .build()
        ),
        r#"{"type":"image","alt_text":"alt","slack_file":{"url":"https://f","id":"F1"},"title":{"type":"plain_text","text":"t","emoji":false},"block_id":"b"}"#
    );
    assert_eq!(
        built(
            Section::new()
                .fields(vec![
                    TextObject::from("a"),
                    TextObject::from(MrkdwnText::new("b").verbatim(true))
                ])
                .accessory(BlockElement::from(ContextImage::new("https://i", "alt")))
                .expand(true)
                .block_id("b")
                .build()
        ),
        r#"{"type":"section","fields":[{"type":"mrkdwn","text":"a"},{"type":"mrkdwn","text":"b","verbatim":true}],"accessory":{"type":"image","image_url":"https://i","alt_text":"alt"},"expand":true,"block_id":"b"}"#
    );
    assert_eq!(
        built(
            Input::new(
                PlainText::new("l"),
                BlockElement::from(RichTextInputElement::new("r"))
            )
            .dispatch_action(true)
            .hint(PlainText::new("h"))
            .optional(false)
            .block_id("b")
            .build()
        ),
        r#"{"type":"input","label":{"type":"plain_text","text":"l"},"element":{"type":"rich_text_input","action_id":"r"},"dispatch_action":true,"hint":{"type":"plain_text","text":"h"},"optional":false,"block_id":"b"}"#
    );
    assert_eq!(
        built(
            Video::new(PlainText::new("t"), "https://v", "https://t", "alt")
                .description(PlainText::new("d"))
                .title_url("https://u")
                .provider_icon_url("https://p")
                .provider_name("pn")
                .author_name("an")
                .block_id("b")
                .build()
        ),
        r#"{"type":"video","title":{"type":"plain_text","text":"t"},"video_url":"https://v","thumbnail_url":"https://t","alt_text":"alt","description":{"type":"plain_text","text":"d"},"title_url":"https://u","provider_icon_url":"https://p","provider_name":"pn","author_name":"an","block_id":"b"}"#
    );
    assert_eq!(
        built(
            Table::new(vec![vec![TableCell::rich(Vec::new())]])
                .column_settings(vec![
                    ColumnSetting::new(),
                    ColumnSetting::new()
                        .align(slaq::blocks::ColumnAlignment::Center)
                        .wrap(false)
                ])
                .block_id("b")
                .build()
        ),
        r#"{"type":"table","rows":[[{"type":"rich_text","elements":[]}]],"column_settings":[{},{"align":"center","is_wrapped":false}],"block_id":"b"}"#
    );
}

#[test]
fn button_is_written_with_what_is_set() {
    let dialog = ConfirmationDialog::new(
        PlainText::new("Sure?"),
        TextObject::from("Really?"),
        PlainText::new("Yes"),
        PlainText::new("No"),
    )
    .style(ButtonStyle::Danger);
    let button = ButtonElement::new(PlainText::new("Go"), "go")
        .url("https://example.com")
        .value("v")
        .style(ButtonStyle::Primary)
        .confirm(dialog);
    assert_eq!(
        text(&button),
        r#"{"type":"button","text":{"type":"plain_text","text":"Go"},"action_id":"go","url":"https://example.com","value":"v","style":"primary","confirm":{"title":{"type":"plain_text","text":"Sure?"},"text":{"type":"mrkdwn","text":"Really?"},"confirm":{"type":"plain_text","text":"Yes"},"deny":{"type":"plain_text","text":"No"},"style":"danger"}}"#
    );
    // The wrapper holds the element as it is written.
    assert_eq!(BlockElement::from(button.clone()).to_value(), button.to_value());
    assert_eq!(BlockElement::from_struct(&button).to_value(), button.to_value());
}

#[test]
fn numbers_and_flags_are_written_as_json_numbers_and_booleans() {
    let number = NumberInputElement::new("n")
        .initial_value("3")
        .min_value(-5)
        .max_value(9_000_000_000)
        .decimal_allowed(false);
    assert_eq!(
        text(&number),
        r#"{"type":"number_input","action_id":"n","initial_value":"3","min_value":-5,"max_value":9000000000,"is_decimal_allowed":false}"#
    );
    let picker = DateTimePickerElement::new("d").initial_date_time(i64::MIN);
    assert_eq!(
        text(&picker),
        r#"{"type":"datetimepicker","action_id":"d","initial_date_time":-9223372036854775808}"#
    );
    let input = PlainTextInputElement::new("t")
        .multiline(true)
        .min_length(0)
        .max_length(u32::MAX)
        .dispatch_action_config(DispatchActionConfig::new(vec![
            DispatchActionTrigger::OnEnterPressed,
            DispatchActionTrigger::OnCharacterEntered,
        ]));
    assert_eq!(
        text(&input),
        r#"{"type":"plain_text_input","action_id":"t","multiline":true,"min_length":0,"max_length":4294967295,"dispatch_action_config":{"trigger_actions_on":["on_enter_pressed","on_character_entered"]}}"#
    );
}

#[test]
fn menus_are_written_with_their_tags() {
    let option = SelectOption::new(PlainText::new("A"), "a").description(PlainText::new("first"));
    let external = ExternalSelectElement::new("e")
        .min_query_length(2)
        .initial_option(option.clone());
    assert_eq!(
        text(&external),
        r#"{"type":"external_select","action_id":"e","min_query_length":2,"initial_option":{"text":{"type":"plain_text","text":"A"},"value":"a","description":{"type":"plain_text","text":"first"}}}"#
    );
    let users = MultiUsersSelectElement::new("u")
        .initial_users(vec!["U1".to_string(), "U2".to_string()])
        .max_selected_items(2);
    assert_eq!(
        text(&users),
        r#"{"type":"multi_users_select","action_id":"u","initial_users":["U1","U2"],"max_selected_items":2}"#
    );
    let conversations = MultiConversationsSelectElement::new("c").filter(
        ConversationsFilter::new()
            .including(vec![
                ConversationsFilterKind::Im,
                ConversationsFilterKind::Mpim,
                ConversationsFilterKind::Private,
                ConversationsFilterKind::Public,
            ])
            .exclude_external_shared_channels(true)
            .exclude_bot_users(false),
    );
    assert_eq!(
        text(&conversations),
        r#"{"type":"multi_conversations_select","action_id":"c","filter":{"include":["im","mpim","private","public"],"exclude_external_shared_channels":true,"exclude_bot_users":false}}"#
    );
    let group = OptionGroup::new(PlainText::new("G"), vec![option]);
    assert_eq!(
        text(&group),
        r#"{"label":{"type":"plain_text","text":"G"},"options":[{"text":{"type":"plain_text","text":"A"},"value":"a","description":{"type":"plain_text","text":"first"}}]}"#
    );
    assert_eq!(text(&ConversationsFilter::default()), "{}");
}

#[test]
fn rich_text_is_written_as_a_tree() {
    let inner = RichTextElement::list(
        ListStyle::Ordered,
        vec![RichTextElement::section(vec![RichTextNode::text("deep")])],
    )
    .indent(1)
    .offset(2)
    .border(3);
    let outer = RichTextElement::list(
        ListStyle::Bullet,
        vec![
            inner,
            RichTextElement::preformatted(vec![RichTextNode::channel("C1")]).border(1),
            RichTextElement::quote(vec![
                RichTextNode::user("U1"),
                RichTextNode::broadcast(BroadcastRange::Here),
                RichTextNode::broadcast(BroadcastRange::Channel),
                RichTextNode::broadcast(BroadcastRange::Everyone),
            ]),
        ],
    );
    assert_eq!(
        text(&outer),
        r#"{"type":"rich_text_list","style":"bullet","elements":[{"type":"rich_text_list","style":"ordered","elements":[{"type":"rich_text_section","elements":[{"type":"text","text":"deep"}]}],"indent":1,"offset":2,"border":3},{"type":"rich_text_preformatted","elements":[{"type":"channel","channel_id":"C1"}],"border":1},{"type":"rich_text_quote","elements":[{"type":"user","user_id":"U1"},{"type":"broadcast","range":"here"},{"type":"broadcast","range":"channel"},{"type":"broadcast","range":"everyone"}]}]}"#
    );
    assert_eq!(outer.clone(), outer);
}

#[test]
fn rich_text_nodes_are_written_with_what_is_set() {
    let style = TextStyle::new().bold().italic().strike().code();
    assert_eq!(
        text(&RichTextNode::styled_text("t", style).url("https://u")),
        r#"{"type":"text","text":"t","style":{"bold":true,"italic":true,"strike":true,"code":true},"url":"https://u"}"#
    );
    assert_eq!(
        text(&RichTextNode::styled_text("t", TextStyle::new())),
        r#"{"type":"text","text":"t","style":{}}"#
    );
    assert_eq!(
        text(&RichTextNode::link("here", "https://u")),
        r#"{"type":"link","url":"https://u","text":"here"}"#
    );
    assert_eq!(
        text(&RichTextNode::emoji("wave")),
        r#"{"type":"emoji","name":"wave"}"#
    );
}

#[test]
fn setters_for_one_kind_leave_other_kinds_as_they_are() {
    let link = RichTextNode::link("here", "https://u");
    assert_eq!(link.clone().url("https://other"), link);
    let quote = RichTextElement::quote(Vec::new());
    assert_eq!(quote.clone().indent(1).offset(2).border(3), quote);
    let section = RichTextElement::section(Vec::new());
    assert_eq!(section.clone().border(3), section);
    assert_eq!(
        RichTextElement::list(ListStyle::Bullet, Vec::new()).border(3),
        RichTextElement::RichTextList {
            style: ListStyle::Bullet,
            elements: Vec::new(),
            indent: None,
            offset: None,
            border: Some(3),
        }
    );
}

#[test]
fn text_objects_come_from_strings_and_texts() {
    assert_eq!(
        TextObject::from("hi"),
        TextObject::Mrkdwn(MrkdwnText::new("hi"))
    );
    assert_eq!(
        TextObject::from("hi".to_string()),
        TextObject::Mrkdwn(MrkdwnText::new("hi"))
    );
    assert_eq!(
        TextObject::from(PlainText::new("hi")),
        TextObject::Plain(PlainText::new("hi"))
    );
    assert_eq!(PlainText::from("hi"), PlainText::new("hi"));
    assert_eq!(PlainText::from("hi".to_string()), PlainText::new("hi"));
    assert_eq!(MrkdwnText::from("hi"), MrkdwnText::new("hi"));
    assert_eq!(
        text(&TextObject::from(PlainText::new("a \"quoted\" text"))),
        r#"{"type":"plain_text","text":"a \"quoted\" text"}"#
    );
}

#[test]
fn defaults_have_every_field_unset() {
    assert_eq!(ColumnSetting::default(), ColumnSetting::new());
    assert_eq!(TextStyle::default(), TextStyle::new());
    assert_eq!(text(&ColumnSetting::default()), "{}");
    assert_eq!(text(&TextStyle::default()), "{}");
}

#[test]
fn context_elements_are_written_as_what_they_hold() {
    assert_eq!(
        text(&ContextElement::mrkdwn("*hi*")),
        text(&MrkdwnText::new("*hi*"))
    );
    assert_eq!(
        text(&ContextElement::image("https://i", "alt")),
        r#"{"type":"image","image_url":"https://i","alt_text":"alt"}"#
    );
    let pair = ContextActionElement::feedback(
        "fb",
        slaq::blocks::FeedbackButton::new("Yes", "y"),
        slaq::blocks::FeedbackButton::new("No", "n"),
    );
    assert_eq!(
        text(&pair),
        r#"{"type":"feedback_buttons","action_id":"fb","positive_button":{"text":{"type":"plain_text","text":"Yes"},"value":"y"},"negative_button":{"text":{"type":"plain_text","text":"No"},"value":"n"}}"#
    );
    let icon = slaq::blocks::IconButton::new("trash", PlainText::new("Delete"), "del").value("v");
    assert_eq!(
        text(&icon),
        r#"{"type":"icon_button","icon":"trash","text":{"type":"plain_text","text":"Delete"},"action_id":"del","value":"v"}"#
    );
}
