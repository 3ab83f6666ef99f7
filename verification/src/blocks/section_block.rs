//! The section block.

use vstd::prelude::*;
use vstd::string::StringExecFns;
use crate::blocks::MAX_SECTION_FIELDS;
use crate::blocks::elements::BlockElement;
use crate::blocks::elements::rules::{element_violation, validate_element};
use crate::blocks::text::TextObject;
use crate::blocks::{Block, BuildError};
use crate::encode::{ToJson, opt_json, put_opt, put_tag, tag_of, with_opt};
use crate::json::{Json, json_object, map_new, member, no_members};
use crate::strings::{citing, lemma_numerals, with_number};

verus! {

/// A text, fields of text, or both, with an element beside them.
#[derive(Debug, Clone, PartialEq)]
pub struct Section {
    /// The text.
    pub text: Option<TextObject>,
    /// Short texts, shown in two columns.
    pub fields: Option<Vec<TextObject>>,
    /// An element beside the text.
    pub accessory: Option<BlockElement>,
    /// Whether the text is shown in full.
    pub expand: Option<bool>,
    /// The identifier of the block within a message.
    pub block_id: Option<String>,
}

impl Section {
    /// A section block with every field unset.
    pub fn new() -> (r: Self)
        ensures
            r.text is None,
            r.fields is None,
            r.accessory is None,
            r.expand is None,
            r.block_id is None,
    {
        Section { text: None, fields: None, accessory: None, expand: None, block_id: None }
    }

    /// Sets `text`: the text.
    pub fn text(self, text: TextObject) -> (r: Self)
        ensures
            r == (Section { text: Some(text), ..self }),
    {
        Section { text: Some(text), ..self }
    }

    /// Sets `fields`: short texts, shown in two columns.
    pub fn fields(self, fields: Vec<TextObject>) -> (r: Self)
        ensures
            r == (Section { fields: Some(fields), ..self }),
    {
        Section { fields: Some(fields), ..self }
    }

    /// Sets `accessory`: an element beside the text.
    pub fn accessory(self, element: BlockElement) -> (r: Self)
        ensures
            r == (Section { accessory: Some(element), ..self }),
    {
        Section { accessory: Some(element), ..self }
    }

    /// Sets `expand`: whether the text is shown in full.
    pub fn expand(self, expand: bool) -> (r: Self)
        ensures
            r == (Section { expand: Some(expand), ..self }),
    {
        Section { expand: Some(expand), ..self }
    }

    /// Sets `block_id`: the identifier of the block within a message.
    pub fn block_id(self, id: &str) -> (r: Self)
        ensures
            r.block_id matches Some(s) && s@ == id@,
            r == (Section { block_id: r.block_id, ..self }),
    {
        Section { block_id: Some(String::from_str(id)), ..self }
    }

    /// Whether the block has at least one field.
    pub open spec fn has_fields(&self) -> bool {
        self.fields matches Some(fields) && fields@.len() > 0
    }

    /// The first rule that the block breaks, if it breaks one: it has a
    /// text or at least one field; it has at most `MAX_SECTION_FIELDS`
    /// fields; and its accessory obeys the rules of its kind.
    pub open spec fn violation(&self) -> Option<Seq<char>> {
        if self.text is None && !self.has_fields() {
            Some("section block requires text or at least one field"@)
        } else if self.fields matches Some(fields) && fields@.len() > MAX_SECTION_FIELDS {
            Some(
                citing(
                    "section fields can contain at most "@,
                    MAX_SECTION_FIELDS as nat,
                    " items"@,
                ),
            )
        } else if self.accessory is Some {
            element_violation(self.accessory->0.json())
        } else {
            None
        }
    }

    /// Holds the block to its rules: the first rule that it breaks, if it
    /// breaks one.
    pub fn validate(&self) -> (r: Result<(), BuildError>)
        ensures
            match r {
                Ok(_) => self.violation() is None,
                Err(e) => self.violation() == Some(e@),
            },
    {
        let has_text = self.text.is_some();
        let has_fields = match &self.fields {
            Some(fields) => fields.len() > 0,
            None => false,
        };
        if !has_text && !has_fields {
            return Err(BuildError::message("section block requires text or at least one field"));
        }
        match &self.fields {
            Some(fields) => {
                if fields.len() > MAX_SECTION_FIELDS {
                    return Err(
                        BuildError::Message(
                            with_number(
                                "section fields can contain at most ",
                                MAX_SECTION_FIELDS,
                                " items",
                            ),
                        ),
                    );
                }
            },
            None => {},
        }
        match &self.accessory {
            Some(accessory) => validate_element(accessory),
            None => Ok(()),
        }
    }

    /// Finishes the block: the block as it stands where it breaks no rule,
    /// else the first rule that it breaks.
    pub fn build(self) -> (r: Result<Block, BuildError>)
        ensures
            match r {
                Ok(b) => self.violation() is None && b == Block::Section(self),
                Err(e) => self.violation() == Some(e@),
            },
    {
        match self.validate() {
            Ok(_) => Ok(Block::Section(self)),
            Err(e) => Err(e),
        }
    }
}

impl ToJson for Section {
    open spec fn json(&self) -> Json {
        let m = no_members().insert("type"@, Json::Str("section"@));
        let m = with_opt(m, "text"@, self.text);
        let m = with_opt(m, "fields"@, self.fields);
        let m = with_opt(m, "accessory"@, self.accessory);
        let m = with_opt(m, "expand"@, self.expand);
        let m = with_opt(m, "block_id"@, self.block_id);
        Json::Object(m)
    }

    fn to_value(&self) -> (v: serde_json::Value) {
        let mut m = map_new();
        put_tag(&mut m, "section");
        put_opt(&mut m, "text", &self.text);
        put_opt(&mut m, "fields", &self.fields);
        put_opt(&mut m, "accessory", &self.accessory);
        put_opt(&mut m, "expand", &self.expand);
        put_opt(&mut m, "block_id", &self.block_id);
        json_object(m)
    }
}

/// The members of a section block: the tag `section`, each optional field
/// that is set, and nothing else.
pub proof fn lemma_section_shape(x: Section)
    ensures
        tag_of(x.json()) == "section"@,
        member(x.json(), "text"@) == opt_json(x.text),
        member(x.json(), "fields"@) == opt_json(x.fields),
        member(x.json(), "accessory"@) == opt_json(x.accessory),
        member(x.json(), "expand"@) == opt_json(x.expand),
        member(x.json(), "block_id"@) == opt_json(x.block_id),
        forall|k: Seq<char>|
            (#[trigger] member(x.json(), k)) is Some ==> k == "type"@ || k == "text"@
                || k == "fields"@ || k == "accessory"@ || k == "expand"@ || k == "block_id"@,
{
    reveal_strlit("type");
    reveal_strlit("text");
    reveal_strlit("fields");
    reveal_strlit("accessory");
    reveal_strlit("expand");
    reveal_strlit("block_id");
    assert("type"@.len() == 4);
    assert("text"@.len() == 4);
    assert("fields"@.len() == 6);
    assert("accessory"@.len() == 9);
    assert("expand"@.len() == 6);
    assert("block_id"@.len() == 8);
    assert("type"@[1] != "text"@[1]);
    assert("fields"@[0] != "expand"@[0]);
}

/// A section without text and without fields is refused. With a text alone
/// it is accepted, and with fields alone too, where they are at least one
/// and at most the most.
pub proof fn lemma_section_content(b: Section)
    ensures
        b.text is None && b.fields is None ==> b.violation() == Some(
            "section block requires text or at least one field"@,
        ),
        b.text is Some && b.fields is None && b.accessory is None ==> b.violation() is None,
        b.fields matches Some(fields) ==> (b.text is None && b.accessory is None ==> (b.violation()
            is None <==> 0 < fields@.len() <= MAX_SECTION_FIELDS)),
{
}

/// A section with one field more than the most is refused with a message
/// that cites the most; one with exactly the most is accepted, where it has
/// no accessory.
pub proof fn lemma_section_limit(b: Section)
    ensures
        b.fields matches Some(fields) ==> (fields@.len() == MAX_SECTION_FIELDS + 1 ==> b.violation()
            == Some("section fields can contain at most 10 items"@)),
        b.fields matches Some(fields) ==> (fields@.len() == MAX_SECTION_FIELDS && b.accessory
            is None ==> b.violation() is None),
{
    lemma_numerals();
    reveal_strlit("section fields can contain at most ");
    reveal_strlit("10");
    reveal_strlit(" items");
    reveal_strlit("section fields can contain at most 10 items");
    assert(
        citing(
            "section fields can contain at most "@,
            10,
            " items"@,
        ) =~= "section fields can contain at most 10 items"@
    );
}

/// A section with content within its limits is held to the rules of its
/// accessory and to nothing else.
pub proof fn lemma_section_accessory(b: Section, accessory: BlockElement)
    requires
        b.accessory == Some(accessory),
        b.text is Some || b.has_fields(),
        b.fields matches Some(fields) ==> fields@.len() <= MAX_SECTION_FIELDS,
    ensures
        b.violation() == element_violation(accessory.json()),
{
}

} // verus!
