//! Blocks: the top-level units of a message, their limits, and the error
//! that a builder returns for a block that breaks a rule.

use vstd::prelude::*;
use vstd::string::StringExecFns;
use crate::encode::{ToJson, opt_json, tag_of};
use crate::json::{Json, member};

pub mod actions_block;
pub mod context_actions_block;
pub mod context_block;
pub mod elements;
pub mod file_block;
pub mod image_block;
pub mod input_block;
pub mod rich_text;
pub mod rich_text_block;
pub mod section_block;
pub mod simple;
pub mod table_block;
pub mod text;
pub mod video_block;

pub use actions_block::Actions;
pub use context_actions_block::ContextActions;
pub use context_block::Context;
pub use elements::{
    BlockElement, ButtonElement, ButtonStyle, ConfirmationDialog, ContextActionElement,
    ContextElement, FeedbackButton, FeedbackButtons, IconButton, OptionGroup, SelectOption,
    StaticSelectElement,
};
pub use file_block::{File, FileSource};
pub use image_block::{Image, SlackFileRef};
pub use input_block::Input;
pub use rich_text::{BroadcastRange, ListStyle, RichTextElement, RichTextNode, TextStyle};
pub use rich_text_block::RichText;
pub use section_block::Section;
pub use simple::{Divider, Header, Markdown};
pub use table_block::{ColumnAlignment, ColumnSetting, Table, TableCell};
pub use text::{MrkdwnText, PlainText, TextObject};
pub use video_block::Video;

verus! {

/// Most elements that a context block holds.
pub const MAX_CONTEXT_ELEMENTS: usize = 10;

/// Most elements that a context-actions block holds.
pub const MAX_CONTEXT_ACTIONS_ELEMENTS: usize = 5;

/// Most elements that an actions block holds.
pub const MAX_ACTIONS_ELEMENTS: usize = 25;

/// Most fields that a section block holds.
pub const MAX_SECTION_FIELDS: usize = 10;

/// Longest text of a header block, in bytes.
pub const MAX_HEADER_TEXT_LEN: usize = 150;

/// Longest label or hint of an input block, in bytes.
pub const MAX_INPUT_TEXT_LEN: usize = 2000;

/// Longest title or description of a video block, in bytes.
pub const MAX_VIDEO_TEXT_LEN: usize = 200;

/// Most rows that a table block holds.
pub const MAX_TABLE_ROWS: usize = 100;

/// Most cells in a row of a table block, and most column settings.
pub const MAX_TABLE_COLUMNS: usize = 20;

/// What a builder returns for a block that breaks a rule: the description of
/// the first rule that it breaks.
#[derive(Debug, Clone, PartialEq, Eq)]
pub enum BuildError {
    Message(String),
}

impl View for BuildError {
    type V = Seq<char>;

    /// The description that the error carries.
    open spec fn view(&self) -> Seq<char> {
        match self {
            BuildError::Message(message) => message@,
        }
    }
}

impl BuildError {
    /// The error with the given description.
    pub fn message(message: &str) -> (e: Self)
        ensures
            e@ == message@,
    {
        BuildError::Message(String::from_str(message))
    }

    /// The description that the error carries.
    pub fn to_string(&self) -> (s: String)
        ensures
            s@ == self@,
    {
        match self {
            BuildError::Message(message) => message.clone(),
        }
    }
}

/// What a builder returns.
pub type BuildResult = Result<Block, BuildError>;

/// A block of any kind.
#[derive(Debug, Clone, PartialEq)]
pub enum Block {
    Divider(Divider),
    Markdown(Markdown),
    Header(Header),
    Image(Image),
    File(File),
    Context(Context),
    ContextActions(ContextActions),
    Actions(Actions),
    Section(Section),
    Input(Input),
    Video(Video),
    RichText(RichText),
    Table(Table),
}

impl Block {
    /// The tag that tells the kind of the block.
    pub open spec fn kind(&self) -> Seq<char> {
        match self {
            Block::Divider(_) => "divider"@,
            Block::Markdown(_) => "markdown"@,
            Block::Header(_) => "header"@,
            Block::Image(_) => "image"@,
            Block::File(_) => "file"@,
            Block::Context(_) => "context"@,
            Block::ContextActions(_) => "context_actions"@,
            Block::Actions(_) => "actions"@,
            Block::Section(_) => "section"@,
            Block::Input(_) => "input"@,
            Block::Video(_) => "video"@,
            Block::RichText(_) => "rich_text"@,
            Block::Table(_) => "table"@,
        }
    }

    /// The identifier of the block, if it has one.
    pub open spec fn block_id(&self) -> Option<String> {
        match self {
            Block::Divider(b) => b.block_id,
            Block::Markdown(b) => b.block_id,
            Block::Header(b) => b.block_id,
            Block::Image(b) => b.block_id,
            Block::File(b) => b.block_id,
            Block::Context(b) => b.block_id,
            Block::ContextActions(b) => b.block_id,
            Block::Actions(b) => b.block_id,
            Block::Section(b) => b.block_id,
            Block::Input(b) => b.block_id,
            Block::Video(b) => b.block_id,
            Block::RichText(b) => b.block_id,
            Block::Table(b) => b.block_id,
        }
    }

    /// The first rule of its kind that the block breaks, if it breaks one. A
    /// block that a builder has finished breaks none.
    pub open spec fn violation(&self) -> Option<Seq<char>> {
        match self {
            Block::Divider(b) => b.violation(),
            Block::Markdown(b) => b.violation(),
            Block::Header(b) => b.violation(),
            Block::Image(b) => b.violation(),
            Block::File(b) => b.violation(),
            Block::Context(b) => b.violation(),
            Block::ContextActions(b) => b.violation(),
            Block::Actions(b) => b.violation(),
            Block::Section(b) => b.violation(),
            Block::Input(b) => b.violation(),
            Block::Video(b) => b.violation(),
            Block::RichText(b) => b.violation(),
            Block::Table(b) => b.violation(),
        }
    }

    /// Writes the block as a document.
    pub fn to_value(&self) -> (v: serde_json::Value)
        ensures
            crate::json::json_of(v) == self.json(),
    {
        match self {
            Block::Divider(b) => b.to_value(),
            Block::Markdown(b) => b.to_value(),
            Block::Header(b) => b.to_value(),
            Block::Image(b) => b.to_value(),
            Block::File(b) => b.to_value(),
            Block::Context(b) => b.to_value(),
            Block::ContextActions(b) => b.to_value(),
            Block::Actions(b) => b.to_value(),
            Block::Section(b) => b.to_value(),
            Block::Input(b) => b.to_value(),
            Block::Video(b) => b.to_value(),
            Block::RichText(b) => b.to_value(),
            Block::Table(b) => b.to_value(),
        }
    }
}

impl ToJson for Block {
    open spec fn json(&self) -> Json {
        match self {
            Block::Divider(b) => b.json(),
            Block::Markdown(b) => b.json(),
            Block::Header(b) => b.json(),
            Block::Image(b) => b.json(),
            Block::File(b) => b.json(),
            Block::Context(b) => b.json(),
            Block::ContextActions(b) => b.json(),
            Block::Actions(b) => b.json(),
            Block::Section(b) => b.json(),
            Block::Input(b) => b.json(),
            Block::Video(b) => b.json(),
            Block::RichText(b) => b.json(),
            Block::Table(b) => b.json(),
        }
    }

    fn to_value(&self) -> (v: serde_json::Value) {
        Block::to_value(self)
    }
}

/// Every block is written as an object whose `type` member is the tag of its
/// kind, and which has a `block_id` member exactly where the block has an
/// identifier. What else a block of each kind is written with, and that no
/// field that is left unset leaves a member, is stated with the kind.
pub proof fn lemma_block_tag(b: Block)
    ensures
        b.json() is Object,
        tag_of(b.json()) == b.kind(),
        member(b.json(), "block_id"@) == opt_json(b.block_id()),
{
    match b {
        Block::Divider(x) => simple::lemma_divider_shape(x),
        Block::Markdown(x) => simple::lemma_markdown_shape(x),
        Block::Header(x) => simple::lemma_header_shape(x),
        Block::Image(x) => image_block::lemma_image_shape(x),
        Block::File(x) => file_block::lemma_file_shape(x),
        Block::Context(x) => context_block::lemma_context_shape(x),
        Block::ContextActions(x) => context_actions_block::lemma_context_actions_shape(x),
        Block::Actions(x) => actions_block::lemma_actions_shape(x),
        Block::Section(x) => section_block::lemma_section_shape(x),
        Block::Input(x) => input_block::lemma_input_shape(x),
        Block::Video(x) => video_block::lemma_video_shape(x),
        Block::RichText(x) => rich_text_block::lemma_rich_text_shape(x),
        Block::Table(x) => table_block::lemma_table_shape(x),
    }
}

} // verus!
