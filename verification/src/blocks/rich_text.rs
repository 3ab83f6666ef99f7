//! Rich text: a tree of styled content, for rich-text blocks and table cells.

use vstd::prelude::*;
use vstd::string::StringExecFns;
use crate::encode::{ToJson, json_each, opt_json, put, put_opt, put_tag, tag_of, with_opt};
use crate::json::{
    Json, json_array, json_object, json_of, json_seq, json_string, map_insert, map_new, member,
    no_members,
};

verus! {

/// How the items of a list are marked.
#[derive(Debug, Clone, Copy, PartialEq, Eq)]
pub enum ListStyle {
    /// With bullets.
    Bullet,
    /// With numbers.
    Ordered,
}

impl ToJson for ListStyle {
    open spec fn json(&self) -> Json {
        match self {
            ListStyle::Bullet => Json::Str("bullet"@),
            ListStyle::Ordered => Json::Str("ordered"@),
        }
    }

    fn to_value(&self) -> (v: serde_json::Value) {
        let name = match self {
            ListStyle::Bullet => "bullet",
            ListStyle::Ordered => "ordered",
        };
        json_string(String::from_str(name))
    }
}

/// Whom a broadcast mentions.
#[derive(Debug, Clone, Copy, PartialEq, Eq)]
pub enum BroadcastRange {
    /// Everyone who is active in the channel.
    Here,
    /// Everyone in the channel.
    Channel,
    /// Everyone in the workspace.
    Everyone,
}

impl ToJson for BroadcastRange {
    open spec fn json(&self) -> Json {
        match self {
            BroadcastRange::Here => Json::Str("here"@),
            BroadcastRange::Channel => Json::Str("channel"@),
            BroadcastRange::Everyone => Json::Str("everyone"@),
        }
    }

    fn to_value(&self) -> (v: serde_json::Value) {
        let name = match self {
            BroadcastRange::Here => "here",
            BroadcastRange::Channel => "channel",
            BroadcastRange::Everyone => "everyone",
        };
        json_string(String::from_str(name))
    }
}

/// How a run of text is styled. Each flag is on its own.
#[derive(Debug, Clone, PartialEq)]
pub struct TextStyle {
    /// Bold.
    pub bold: Option<bool>,
    /// Italic.
    pub italic: Option<bool>,
    /// Struck through.
    pub strike: Option<bool>,
    /// In the type of code.
    pub code: Option<bool>,
}

impl TextStyle {
    /// The style of unstyled text: no flag is set.
    pub fn new() -> (r: Self)
        ensures
            r.bold is None,
            r.italic is None,
            r.strike is None,
            r.code is None,
    {
        TextStyle { bold: None, italic: None, strike: None, code: None }
    }

    /// Makes the text bold.
    pub fn bold(self) -> (r: Self)
        ensures
            r == (TextStyle { bold: Some(true), ..self }),
    {
        TextStyle { bold: Some(true), ..self }
    }

    /// Makes the text italic.
    pub fn italic(self) -> (r: Self)
        ensures
            r == (TextStyle { italic: Some(true), ..self }),
    {
        TextStyle { italic: Some(true), ..self }
    }

    /// Strikes the text through.
    pub fn strike(self) -> (r: Self)
        ensures
            r == (TextStyle { strike: Some(true), ..self }),
    {
        TextStyle { strike: Some(true), ..self }
    }

    /// Sets the text in the type of code.
    pub fn code(self) -> (r: Self)
        ensures
            r == (TextStyle { code: Some(true), ..self }),
    {
        TextStyle { code: Some(true), ..self }
    }
}

impl Default for TextStyle {
    fn default() -> (r: Self)
        ensures
            r.bold is None,
            r.italic is None,
            r.strike is None,
            r.code is None,
    {
        TextStyle::new()
    }
}

impl ToJson for TextStyle {
    open spec fn json(&self) -> Json {
        let m = with_opt(no_members(), "bold"@, self.bold);
        let m = with_opt(m, "italic"@, self.italic);
        let m = with_opt(m, "strike"@, self.strike);
        let m = with_opt(m, "code"@, self.code);
        Json::Object(m)
    }

    fn to_value(&self) -> (v: serde_json::Value) {
        let mut m = map_new();
        put_opt(&mut m, "bold", &self.bold);
        put_opt(&mut m, "italic", &self.italic);
        put_opt(&mut m, "strike", &self.strike);
        put_opt(&mut m, "code", &self.code);
        json_object(m)
    }
}

/// The members of a text style: each optional field that is set, and nothing
/// else.
pub proof fn lemma_text_style_shape(x: TextStyle)
    ensures
        member(x.json(), "bold"@) == opt_json(x.bold),
        member(x.json(), "italic"@) == opt_json(x.italic),
        member(x.json(), "strike"@) == opt_json(x.strike),
        member(x.json(), "code"@) == opt_json(x.code),
        forall|k: Seq<char>|
            (#[trigger] member(x.json(), k)) is Some ==> k == "bold"@ || k == "italic"@
                || k == "strike"@ || k == "code"@,
{
    reveal_strlit("bold");
    reveal_strlit("italic");
    reveal_strlit("strike");
    reveal_strlit("code");
    assert("bold"@.len() == 4);
    assert("italic"@.len() == 6);
    assert("strike"@.len() == 6);
    assert("code"@.len() == 4);
    assert("bold"@[0] != "code"@[0]);
    assert("italic"@[0] != "strike"@[0]);
}

/// A leaf of rich text.
#[allow(inconsistent_fields)]
#[derive(Debug, Clone, PartialEq)]
pub enum RichTextNode {
    /// A run of text, which may be styled and may link to a page.
    Text { text: String, style: Option<TextStyle>, url: Option<String> },
    /// A link with its own text.
    Link { url: String, text: String },
    /// An emoji, by name.
    Emoji { name: String },
    /// A mention of a user.
    User { user_id: String },
    /// A mention of everyone in a range.
    Broadcast { range: BroadcastRange },
    /// A mention of a channel.
    Channel { channel_id: String },
}

impl RichTextNode {
    /// A run of unstyled text.
    pub fn text(text: &str) -> (r: Self)
        ensures
            r matches RichTextNode::Text { text: t, style, url } && t@ == text@ && style is None
                && url is None,
    {
        RichTextNode::Text { text: String::from_str(text), style: None, url: None }
    }

    /// A run of styled text.
    pub fn styled_text(text: &str, style: TextStyle) -> (r: Self)
        ensures
            r matches RichTextNode::Text { text: t, style: s, url } && t@ == text@ && s == Some(
                style,
            ) && url is None,
    {
        RichTextNode::Text { text: String::from_str(text), style: Some(style), url: None }
    }

    /// A link with its own text.
    pub fn link(text: &str, url: &str) -> (r: Self)
        ensures
            r matches RichTextNode::Link { url: u, text: t } && t@ == text@ && u@ == url@,
    {
        RichTextNode::Link { url: String::from_str(url), text: String::from_str(text) }
    }

    /// An emoji, by name.
    pub fn emoji(name: &str) -> (r: Self)
        ensures
            r matches RichTextNode::Emoji { name: n } && n@ == name@,
    {
        RichTextNode::Emoji { name: String::from_str(name) }
    }

    /// A mention of a user.
    pub fn user(user_id: &str) -> (r: Self)
        ensures
            r matches RichTextNode::User { user_id: u } && u@ == user_id@,
    {
        RichTextNode::User { user_id: String::from_str(user_id) }
    }

    /// A mention of everyone in a range.
    pub fn broadcast(range: BroadcastRange) -> (r: Self)
        ensures
            r == (RichTextNode::Broadcast { range }),
    {
        RichTextNode::Broadcast { range }
    }

    /// A mention of a channel.
    pub fn channel(channel_id: &str) -> (r: Self)
        ensures
            r matches RichTextNode::Channel { channel_id: c } && c@ == channel_id@,
    {
        RichTextNode::Channel { channel_id: String::from_str(channel_id) }
    }

    /// Makes a run of text link to a page. A node of another kind stays as
    /// it is.
    pub fn url(self, url: &str) -> (r: Self)
        ensures
            match self {
                RichTextNode::Text { text, style, url: _ } => r matches RichTextNode::Text {
                    text: t,
                    style: s,
                    url: Some(u),
                } && t == text && s == style && u@ == url@,
                _ => r == self,
            },
    {
        match self {
            RichTextNode::Text { text, style, url: _ } => RichTextNode::Text {
                text,
                style,
                url: Some(String::from_str(url)),
            },
            other => other,
        }
    }
}

impl ToJson for RichTextNode {
    open spec fn json(&self) -> Json {
        match self {
            RichTextNode::Text { text, style, url } => {
                let m = no_members().insert("type"@, Json::Str("text"@));
                let m = m.insert("text"@, text.json());
                let m = with_opt(m, "style"@, *style);
                let m = with_opt(m, "url"@, *url);
                Json::Object(m)
            },
            RichTextNode::Link { url, text } => {
                let m = no_members().insert("type"@, Json::Str("link"@));
                let m = m.insert("url"@, url.json());
                let m = m.insert("text"@, text.json());
                Json::Object(m)
            },
            RichTextNode::Emoji { name } => {
                let m = no_members().insert("type"@, Json::Str("emoji"@));
                let m = m.insert("name"@, name.json());
                Json::Object(m)
            },
            RichTextNode::User { user_id } => {
                let m = no_members().insert("type"@, Json::Str("user"@));
                let m = m.insert("user_id"@, user_id.json());
                Json::Object(m)
            },
            RichTextNode::Broadcast { range } => {
                let m = no_members().insert("type"@, Json::Str("broadcast"@));
                let m = m.insert("range"@, range.json());
                Json::Object(m)
            },
            RichTextNode::Channel { channel_id } => {
                let m = no_members().insert("type"@, Json::Str("channel"@));
                let m = m.insert("channel_id"@, channel_id.json());
                Json::Object(m)
            },
        }
    }

    fn to_value(&self) -> (v: serde_json::Value) {
        let mut m = map_new();
        match self {
            RichTextNode::Text { text, style, url } => {
                put_tag(&mut m, "text");
                put(&mut m, "text", text);
                put_opt(&mut m, "style", style);
                put_opt(&mut m, "url", url);
            },
            RichTextNode::Link { url, text } => {
                put_tag(&mut m, "link");
                put(&mut m, "url", url);
                put(&mut m, "text", text);
            },
            RichTextNode::Emoji { name } => {
                put_tag(&mut m, "emoji");
                put(&mut m, "name", name);
            },
            RichTextNode::User { user_id } => {
                put_tag(&mut m, "user");
                put(&mut m, "user_id", user_id);
            },
            RichTextNode::Broadcast { range } => {
                put_tag(&mut m, "broadcast");
                put(&mut m, "range", range);
            },
            RichTextNode::Channel { channel_id } => {
                put_tag(&mut m, "channel");
                put(&mut m, "channel_id", channel_id);
            },
        }
        json_object(m)
    }
}

impl RichTextNode {
    /// The tag that tells the kind of the node.
    pub open spec fn kind(&self) -> Seq<char> {
        match self {
            RichTextNode::Text { .. } => "text"@,
            RichTextNode::Link { .. } => "link"@,
            RichTextNode::Emoji { .. } => "emoji"@,
            RichTextNode::User { .. } => "user"@,
            RichTextNode::Broadcast { .. } => "broadcast"@,
            RichTextNode::Channel { .. } => "channel"@,
        }
    }
}

/// The members of a node: the tag of its kind and each field of its kind,
/// for a run of text `style` and `url` only where they are set, and nothing
/// else.
pub proof fn lemma_rich_text_node_shape(x: RichTextNode)
    ensures
        tag_of(x.json()) == x.kind(),
        match x {
            RichTextNode::Text { text, style, url } => {
                &&& member(x.json(), "text"@) == Some(text.json())
                &&& member(x.json(), "style"@) == opt_json(style)
                &&& member(x.json(), "url"@) == opt_json(url)
                &&& forall|k: Seq<char>|
                    (#[trigger] member(x.json(), k)) is Some ==> k == "type"@ || k == "text"@
                        || k == "style"@ || k == "url"@
            },
            RichTextNode::Link { url, text } => {
                &&& member(x.json(), "url"@) == Some(url.json())
                &&& member(x.json(), "text"@) == Some(text.json())
                &&& forall|k: Seq<char>|
                    (#[trigger] member(x.json(), k)) is Some ==> k == "type"@ || k == "url"@
                        || k == "text"@
            },
            RichTextNode::Emoji { name } => {
                &&& member(x.json(), "name"@) == Some(name.json())
                &&& forall|k: Seq<char>|
                    (#[trigger] member(x.json(), k)) is Some ==> k == "type"@ || k == "name"@
            },
            RichTextNode::User { user_id } => {
                &&& member(x.json(), "user_id"@) == Some(user_id.json())
                &&& forall|k: Seq<char>|
                    (#[trigger] member(x.json(), k)) is Some ==> k == "type"@ || k == "user_id"@
            },
            RichTextNode::Broadcast { range } => {
                &&& member(x.json(), "range"@) == Some(range.json())
                &&& forall|k: Seq<char>|
                    (#[trigger] member(x.json(), k)) is Some ==> k == "type"@ || k == "range"@
            },
            RichTextNode::Channel { channel_id } => {
                &&& member(x.json(), "channel_id"@) == Some(channel_id.json())
                &&& forall|k: Seq<char>|
                    (#[trigger] member(x.json(), k)) is Some ==> k == "type"@ || k == "channel_id"@
            },
        },
{
    reveal_strlit("type");
    reveal_strlit("text");
    reveal_strlit("style");
    reveal_strlit("url");
    reveal_strlit("name");
    reveal_strlit("user_id");
    reveal_strlit("range");
    reveal_strlit("channel_id");
    assert("type"@.len() == 4);
    assert("text"@.len() == 4);
    assert("style"@.len() == 5);
    assert("url"@.len() == 3);
    assert("name"@.len() == 4);
    assert("user_id"@.len() == 7);
    assert("range"@.len() == 5);
    assert("channel_id"@.len() == 10);
    assert("type"@[1] != "text"@[1]);
    assert("type"@[0] != "name"@[0]);
    assert("text"@[0] != "name"@[0]);
    assert("style"@[0] != "range"@[0]);
}

/// A block of rich text. A list holds blocks again, so rich text is a tree;
/// its depth is in the hands of the caller.
#[allow(inconsistent_fields)]
#[derive(Debug, PartialEq)]
pub enum RichTextElement {
    /// A paragraph.
    RichTextSection { elements: Vec<RichTextNode> },
    /// A list, whose items are blocks of rich text.
    RichTextList {
        style: ListStyle,
        elements: Vec<RichTextElement>,
        indent: Option<u32>,
        offset: Option<u32>,
        border: Option<u32>,
    },
    /// Text in which white space is kept.
    RichTextPreformatted { elements: Vec<RichTextNode>, border: Option<u32> },
    /// A quotation.
    RichTextQuote { elements: Vec<RichTextNode> },
}

/// The document of a block of rich text.
pub open spec fn element_json(e: RichTextElement) -> Json
    decreases e,
{
    match e {
        RichTextElement::RichTextSection { elements } => {
            let m = no_members().insert("type"@, Json::Str("rich_text_section"@));
            let m = m.insert("elements"@, elements.json());
            Json::Object(m)
        },
        RichTextElement::RichTextList { style, elements, indent, offset, border } => {
            let m = no_members().insert("type"@, Json::Str("rich_text_list"@));
            let m = m.insert("style"@, style.json());
            let m = m.insert("elements"@, Json::Array(elements_json(elements@)));
            let m = with_opt(m, "indent"@, indent);
            let m = with_opt(m, "offset"@, offset);
            let m = with_opt(m, "border"@, border);
            Json::Object(m)
        },
        RichTextElement::RichTextPreformatted { elements, border } => {
            let m = no_members().insert("type"@, Json::Str("rich_text_preformatted"@));
            let m = m.insert("elements"@, elements.json());
            let m = with_opt(m, "border"@, border);
            Json::Object(m)
        },
        RichTextElement::RichTextQuote { elements } => {
            let m = no_members().insert("type"@, Json::Str("rich_text_quote"@));
            let m = m.insert("elements"@, elements.json());
            Json::Object(m)
        },
    }
}

/// The documents of a sequence of blocks of rich text, in order.
pub open spec fn elements_json(s: Seq<RichTextElement>) -> Seq<Json>
    decreases s,
{
    if s.len() == 0 {
        Seq::empty()
    } else {
        elements_json(s.drop_last()).push(element_json(s.last()))
    }
}

impl RichTextElement {
    /// A paragraph of the given nodes.
    pub fn section(nodes: Vec<RichTextNode>) -> (r: Self)
        ensures
            r == (RichTextElement::RichTextSection { elements: nodes }),
    {
        RichTextElement::RichTextSection { elements: nodes }
    }

    /// A list of the given items, without indent, offset or border.
    pub fn list(style: ListStyle, items: Vec<RichTextElement>) -> (r: Self)
        ensures
            r == (RichTextElement::RichTextList {
                style,
                elements: items,
                indent: None,
                offset: None,
                border: None,
            }),
    {
        RichTextElement::RichTextList {
            style,
            elements: items,
            indent: None,
            offset: None,
            border: None,
        }
    }

    /// Preformatted text of the given nodes, without border.
    pub fn preformatted(nodes: Vec<RichTextNode>) -> (r: Self)
        ensures
            r == (RichTextElement::RichTextPreformatted { elements: nodes, border: None }),
    {
        RichTextElement::RichTextPreformatted { elements: nodes, border: None }
    }

    /// A quotation of the given nodes.
    pub fn quote(nodes: Vec<RichTextNode>) -> (r: Self)
        ensures
            r == (RichTextElement::RichTextQuote { elements: nodes }),
    {
        RichTextElement::RichTextQuote { elements: nodes }
    }

    /// Sets how far a list is indented. A block of another kind stays as it
    /// is.
    pub fn indent(self, value: u32) -> (r: Self)
        ensures
            match self {
                RichTextElement::RichTextList { style, elements, indent: _, offset, border } => r
                    == (RichTextElement::RichTextList {
                    style,
                    elements,
                    indent: Some(value),
                    offset,
                    border,
                }),
                _ => r == self,
            },
    {
        match self {
            RichTextElement::RichTextList {
                style,
                elements,
                indent: _,
                offset,
                border,
            } => RichTextElement::RichTextList {
                style,
                elements,
                indent: Some(value),
                offset,
                border,
            },
            other => other,
        }
    }

    /// Sets the number before which an ordered list starts to count. A block
    /// of another kind stays as it is.
    pub fn offset(self, value: u32) -> (r: Self)
        ensures
            match self {
                RichTextElement::RichTextList { style, elements, indent, offset: _, border } => r
                    == (RichTextElement::RichTextList {
                    style,
                    elements,
                    indent,
                    offset: Some(value),
                    border,
                }),
                _ => r == self,
            },
    {
        match self {
            RichTextElement::RichTextList {
                style,
                elements,
                indent,
                offset: _,
                border,
            } => RichTextElement::RichTextList {
                style,
                elements,
                indent,
                offset: Some(value),
                border,
            },
            other => other,
        }
    }

    /// Sets the width of the border of a list or of preformatted text. A
    /// block of another kind stays as it is.
    pub fn border(self, value: u32) -> (r: Self)
        ensures
            match self {
                RichTextElement::RichTextList { style, elements, indent, offset, border: _ } => r
                    == (RichTextElement::RichTextList {
                    style,
                    elements,
                    indent,
                    offset,
                    border: Some(value),
                }),
                RichTextElement::RichTextPreformatted { elements, border: _ } => r
                    == (RichTextElement::RichTextPreformatted { elements, border: Some(value) }),
                _ => r == self,
            },
    {
        match self {
            RichTextElement::RichTextList {
                style,
                elements,
                indent,
                offset,
                border: _,
            } => RichTextElement::RichTextList {
                style,
                elements,
                indent,
                offset,
                border: Some(value),
            },
            RichTextElement::RichTextPreformatted {
                elements,
                border: _,
            } => RichTextElement::RichTextPreformatted { elements, border: Some(value) },
            other => other,
        }
    }

    /// The tag that tells the kind of the block.
    pub open spec fn kind(&self) -> Seq<char> {
        match self {
            RichTextElement::RichTextSection { .. } => "rich_text_section"@,
            RichTextElement::RichTextList { .. } => "rich_text_list"@,
            RichTextElement::RichTextPreformatted { .. } => "rich_text_preformatted"@,
            RichTextElement::RichTextQuote { .. } => "rich_text_quote"@,
        }
    }

    /// Writes the block, and the blocks below it, as a document.
    fn write(&self) -> (v: serde_json::Value)
        ensures
            json_of(v) == element_json(*self),
        decreases self,
    {
        let mut m = map_new();
        match self {
            RichTextElement::RichTextSection { elements } => {
                put_tag(&mut m, "rich_text_section");
                put(&mut m, "elements", elements);
            },
            RichTextElement::RichTextList { style, elements, indent, offset, border } => {
                put_tag(&mut m, "rich_text_list");
                put(&mut m, "style", style);
                let mut items: Vec<serde_json::Value> = Vec::new();
                let mut i: usize = 0;
                while i < elements.len()
                    invariant
                        i <= elements.len(),
                        json_seq(items@) == elements_json(elements@.take(i as int)),
                        forall|j: int|
                            0 <= j < elements.len() ==> decreases_to!(self => #[trigger] elements[j]),
                    decreases elements.len() - i,
                {
                    let item = elements[i].write();
                    proof {
                        assert(elements@.take(i + 1).drop_last() =~= elements@.take(i as int));
                        assert(json_seq(items@.push(item)) =~= json_seq(items@).push(
                            json_of(item),
                        ));
                    }
                    items.push(item);
                    i += 1;
                }
                proof {
                    assert(elements@.take(i as int) =~= elements@);
                }
                map_insert(&mut m, String::from_str("elements"), json_array(items));
                put_opt(&mut m, "indent", indent);
                put_opt(&mut m, "offset", offset);
                put_opt(&mut m, "border", border);
            },
            RichTextElement::RichTextPreformatted { elements, border } => {
                put_tag(&mut m, "rich_text_preformatted");
                put(&mut m, "elements", elements);
                put_opt(&mut m, "border", border);
            },
            RichTextElement::RichTextQuote { elements } => {
                put_tag(&mut m, "rich_text_quote");
                put(&mut m, "elements", elements);
            },
        }
        json_object(m)
    }

    /// Copies the block and the blocks below it; the copy is written as the same document.
    fn duplicate(&self) -> (r: Self)
        ensures
            element_json(r) == element_json(*self),
            match (*self, r) {
                (
                    RichTextElement::RichTextSection { elements },
                    RichTextElement::RichTextSection { elements: copied },
                ) => copied@ == elements@,
                (
                    RichTextElement::RichTextList { style, elements, indent, offset, border },
                    RichTextElement::RichTextList {
                        style: s,
                        elements: copied,
                        indent: i,
                        offset: o,
                        border: b,
                    },
                ) => s == style && i == indent && o == offset && b == border && elements_json(
                    copied@,
                ) == elements_json(elements@),
                (
                    RichTextElement::RichTextPreformatted { elements, border },
                    RichTextElement::RichTextPreformatted { elements: copied, border: b },
                ) => copied@ == elements@ && b == border,
                (
                    RichTextElement::RichTextQuote { elements },
                    RichTextElement::RichTextQuote { elements: copied },
                ) => copied@ == elements@,
                _ => false,
            },
        decreases self,
    {
        match self {
            RichTextElement::RichTextSection { elements } => RichTextElement::RichTextSection {
                elements: copy_nodes(elements),
            },
            RichTextElement::RichTextList { style, elements, indent, offset, border } => {
                let mut items: Vec<RichTextElement> = Vec::new();
                let mut i: usize = 0;
                while i < elements.len()
                    invariant
                        i <= elements.len(),
                        elements_json(items@) == elements_json(elements@.take(i as int)),
                        forall|j: int|
                            0 <= j < elements.len() ==> decreases_to!(self => #[trigger] elements[j]),
                    decreases elements.len() - i,
                {
                    let item = elements[i].duplicate();
                    proof {
                        assert(elements@.take(i + 1).drop_last() =~= elements@.take(i as int));
                        assert(items@.push(item).drop_last() =~= items@);
                    }
                    items.push(item);
                    i += 1;
                }
                proof {
                    assert(elements@.take(i as int) =~= elements@);
                }
                RichTextElement::RichTextList {
                    style: *style,
                    elements: items,
                    indent: *indent,
                    offset: *offset,
                    border: *border,
                }
            },
            RichTextElement::RichTextPreformatted {
                elements,
                border,
            } => RichTextElement::RichTextPreformatted {
                elements: copy_nodes(elements),
                border: *border,
            },
            RichTextElement::RichTextQuote { elements } => RichTextElement::RichTextQuote {
                elements: copy_nodes(elements),
            },
        }
    }
}

/// Copies a node.
fn copy_node(node: &RichTextNode) -> (r: RichTextNode)
    ensures
        r == *node,
{
    match node {
        RichTextNode::Text { text, style, url } => RichTextNode::Text {
            text: text.clone(),
            style: match style {
                Some(s) => Some(
                    TextStyle { bold: s.bold, italic: s.italic, strike: s.strike, code: s.code },
                ),
                None => None,
            },
            url: match url {
                Some(u) => Some(u.clone()),
                None => None,
            },
        },
        RichTextNode::Link { url, text } => RichTextNode::Link {
            url: url.clone(),
            text: text.clone(),
        },
        RichTextNode::Emoji { name } => RichTextNode::Emoji { name: name.clone() },
        RichTextNode::User { user_id } => RichTextNode::User { user_id: user_id.clone() },
        RichTextNode::Broadcast { range } => RichTextNode::Broadcast { range: *range },
        RichTextNode::Channel { channel_id } => RichTextNode::Channel {
            channel_id: channel_id.clone(),
        },
    }
}

/// Copies a list of nodes, node by node and in order.
fn copy_nodes(nodes: &Vec<RichTextNode>) -> (r: Vec<RichTextNode>)
    ensures
        r@ == nodes@,
{
    let mut copied: Vec<RichTextNode> = Vec::new();
    let mut i: usize = 0;
    while i < nodes.len()
        invariant
            i <= nodes.len(),
            copied@ == nodes@.take(i as int),
        decreases nodes.len() - i,
    {
        copied.push(copy_node(&nodes[i]));
        proof {
            assert(nodes@.take(i + 1) =~= nodes@.take(i as int).push(nodes@[i as int]));
        }
        i += 1;
    }
    proof {
        assert(nodes@.take(i as int) =~= nodes@);
    }
    copied
}

impl Clone for RichTextElement {
    /// The copy is written as the same document.
    fn clone(&self) -> (r: Self)
        ensures
            element_json(r) == element_json(*self),
    {
        self.duplicate()
    }
}

impl ToJson for RichTextElement {
    open spec fn json(&self) -> Json {
        element_json(*self)
    }

    fn to_value(&self) -> (v: serde_json::Value) {
        self.write()
    }
}

/// The items of a list are written one by one, like the blocks of any other
/// sequence.
pub proof fn lemma_elements_json(s: Seq<RichTextElement>)
    ensures
        elements_json(s) == json_each(s),
    decreases s.len(),
{
    if s.len() == 0 {
        assert(json_each(s) =~= Seq::<Json>::empty());
    } else {
        lemma_elements_json(s.drop_last());
        assert(json_each(s) =~= json_each(s.drop_last()).push(s.last().json()));
    }
}

/// The members of a block of rich text: the tag of its kind, its content
/// under `elements`, for a list its style, and `indent`, `offset` and
/// `border` only where its kind has them and they are set; and nothing else.
pub proof fn lemma_rich_text_element_shape(x: RichTextElement)
    ensures
        tag_of(x.json()) == x.kind(),
        match x {
            RichTextElement::RichTextSection { elements } => {
                &&& member(x.json(), "elements"@) == Some(elements.json())
                &&& forall|k: Seq<char>|
                    (#[trigger] member(x.json(), k)) is Some ==> k == "type"@ || k == "elements"@
            },
            RichTextElement::RichTextList { style, elements, indent, offset, border } => {
                &&& member(x.json(), "style"@) == Some(style.json())
                &&& member(x.json(), "elements"@) == Some(elements.json())
                &&& member(x.json(), "indent"@) == opt_json(indent)
                &&& member(x.json(), "offset"@) == opt_json(offset)
                &&& member(x.json(), "border"@) == opt_json(border)
                &&& forall|k: Seq<char>|
                    (#[trigger] member(x.json(), k)) is Some ==> k == "type"@ || k == "style"@
                        || k == "elements"@ || k == "indent"@ || k == "offset"@ || k == "border"@
            },
            RichTextElement::RichTextPreformatted { elements, border } => {
                &&& member(x.json(), "elements"@) == Some(elements.json())
                &&& member(x.json(), "border"@) == opt_json(border)
                &&& forall|k: Seq<char>|
                    (#[trigger] member(x.json(), k)) is Some ==> k == "type"@
                        || k == "elements"@ || k == "border"@
            },
            RichTextElement::RichTextQuote { elements } => {
                &&& member(x.json(), "elements"@) == Some(elements.json())
                &&& forall|k: Seq<char>|
                    (#[trigger] member(x.json(), k)) is Some ==> k == "type"@ || k == "elements"@
            },
        },
{
    reveal_strlit("type");
    reveal_strlit("style");
    reveal_strlit("elements");
    reveal_strlit("indent");
    reveal_strlit("offset");
    reveal_strlit("border");
    assert("type"@.len() == 4);
    assert("style"@.len() == 5);
    assert("elements"@.len() == 8);
    assert("indent"@.len() == 6);
    assert("offset"@.len() == 6);
    assert("border"@.len() == 6);
    assert("indent"@[0] != "offset"@[0]);
    assert("indent"@[0] != "border"@[0]);
    assert("offset"@[0] != "border"@[0]);
    match x {
        RichTextElement::RichTextList { elements, .. } => {
            lemma_elements_json(elements@);
        },
        _ => {},
    }
}

} // verus!
