//! The table block.

use vstd::prelude::*;
use vstd::string::StringExecFns;
use crate::blocks::rich_text::RichTextElement;
use crate::blocks::{Block, BuildError};
use crate::blocks::{MAX_TABLE_COLUMNS, MAX_TABLE_ROWS};
use crate::encode::{ToJson, opt_json, put, put_opt, put_tag, tag_of, with_opt};
use crate::json::json_string;
use crate::json::{Json, json_object, map_new, member, no_members};
use crate::strings::{citing, lemma_numerals, with_number};

verus! {

/// A cell of a table: a bare string, or rich text.
#[derive(Debug, Clone, PartialEq)]
pub enum TableCell {
    /// A bare string.
    RawText { text: String },
    /// Rich text.
    RichText { elements: Vec<RichTextElement> },
}

impl TableCell {
    /// A cell with a bare string.
    pub fn raw(text: &str) -> (r: Self)
        ensures
            r matches TableCell::RawText { text: t } && t@ == text@,
    {
        TableCell::RawText { text: String::from_str(text) }
    }

    /// A cell with rich text.
    pub fn rich(elements: Vec<RichTextElement>) -> (r: Self)
        ensures
            r == (TableCell::RichText { elements }),
    {
        TableCell::RichText { elements }
    }
}

impl ToJson for TableCell {
    open spec fn json(&self) -> Json {
        match self {
            TableCell::RawText { text } => {
                let m = no_members().insert("type"@, Json::Str("raw_text"@));
                let m = m.insert("text"@, text.json());
                Json::Object(m)
            },
            TableCell::RichText { elements } => {
                let m = no_members().insert("type"@, Json::Str("rich_text"@));
                let m = m.insert("elements"@, elements.json());
                Json::Object(m)
            },
        }
    }

    fn to_value(&self) -> (v: serde_json::Value) {
        let mut m = map_new();
        match self {
            TableCell::RawText { text } => {
                put_tag(&mut m, "raw_text");
                put(&mut m, "text", text);
            },
            TableCell::RichText { elements } => {
                put_tag(&mut m, "rich_text");
                put(&mut m, "elements", elements);
            },
        }
        json_object(m)
    }
}

/// A cell carries the tag of its kind, and its content under `text` or
/// under `elements`.
pub proof fn lemma_table_cell_shape(x: TableCell)
    ensures
        match x {
            TableCell::RawText { text } => tag_of(x.json()) == "raw_text"@ && member(
                x.json(),
                "text"@,
            ) == Some(text.json()) && member(x.json(), "elements"@) is None,
            TableCell::RichText { elements } => tag_of(x.json()) == "rich_text"@ && member(
                x.json(),
                "elements"@,
            ) == Some(elements.json()) && member(x.json(), "text"@) is None,
        },
{
    reveal_strlit("type");
    reveal_strlit("text");
    reveal_strlit("elements");
    assert("type"@.len() == 4);
    assert("text"@.len() == 4);
    assert("elements"@.len() == 8);
    assert("type"@[1] != "text"@[1]);
}

/// How the cells of a column are aligned.
#[derive(Debug, Clone, Copy, PartialEq, Eq)]
pub enum ColumnAlignment {
    Left,
    Center,
    Right,
}

impl ToJson for ColumnAlignment {
    open spec fn json(&self) -> Json {
        match self {
            ColumnAlignment::Left => Json::Str("left"@),
            ColumnAlignment::Center => Json::Str("center"@),
            ColumnAlignment::Right => Json::Str("right"@),
        }
    }

    fn to_value(&self) -> (v: serde_json::Value) {
        let name = match self {
            ColumnAlignment::Left => "left",
            ColumnAlignment::Center => "center",
            ColumnAlignment::Right => "right",
        };
        json_string(String::from_str(name))
    }
}

/// How a column of a table is shown.
#[derive(Debug, Clone, PartialEq)]
pub struct ColumnSetting {
    /// How the cells are aligned.
    pub align: Option<ColumnAlignment>,
    /// Whether long text is wrapped.
    pub is_wrapped: Option<bool>,
}

impl ColumnSetting {
    /// A column setting with every field unset.
    pub fn new() -> (r: Self)
        ensures
            r.align is None,
            r.is_wrapped is None,
    {
        ColumnSetting { align: None, is_wrapped: None }
    }

    /// Sets `align`: how the cells are aligned.
    pub fn align(self, value: ColumnAlignment) -> (r: Self)
        ensures
            r == (ColumnSetting { align: Some(value), ..self }),
    {
        ColumnSetting { align: Some(value), ..self }
    }

    /// Sets `is_wrapped`: whether long text is wrapped.
    pub fn wrap(self, value: bool) -> (r: Self)
        ensures
            r == (ColumnSetting { is_wrapped: Some(value), ..self }),
    {
        ColumnSetting { is_wrapped: Some(value), ..self }
    }
}

impl Default for ColumnSetting {
    fn default() -> (r: Self)
        ensures
            r.align is None,
            r.is_wrapped is None,
    {
        ColumnSetting::new()
    }
}

impl ToJson for ColumnSetting {
    open spec fn json(&self) -> Json {
        let m = with_opt(no_members(), "align"@, self.align);
        let m = with_opt(m, "is_wrapped"@, self.is_wrapped);
        Json::Object(m)
    }

    fn to_value(&self) -> (v: serde_json::Value) {
        let mut m = map_new();
        put_opt(&mut m, "align", &self.align);
        put_opt(&mut m, "is_wrapped", &self.is_wrapped);
        json_object(m)
    }
}

/// The members of a column setting: each optional field that is set, and
/// nothing else.
pub proof fn lemma_column_setting_shape(x: ColumnSetting)
    ensures
        member(x.json(), "align"@) == opt_json(x.align),
        member(x.json(), "is_wrapped"@) == opt_json(x.is_wrapped),
        forall|k: Seq<char>|
            (#[trigger] member(x.json(), k)) is Some ==> k == "align"@ || k == "is_wrapped"@,
{
    reveal_strlit("align");
    reveal_strlit("is_wrapped");
    assert("align"@.len() == 5);
    assert("is_wrapped"@.len() == 10);
}

/// A table of cells.
#[derive(Debug, Clone, PartialEq)]
pub struct Table {
    /// The rows, each a list of cells.
    pub rows: Vec<Vec<TableCell>>,
    /// How the columns are shown, from the first column on.
    pub column_settings: Option<Vec<ColumnSetting>>,
    /// The identifier of the block within a message.
    pub block_id: Option<String>,
}

impl Table {
    /// A table block with its required fields; every optional field is unset.
    pub fn new(rows: Vec<Vec<TableCell>>) -> (r: Self)
        ensures
            r.rows == rows,
            r.column_settings is None,
            r.block_id is None,
    {
        Table { rows, column_settings: None, block_id: None }
    }

    /// Sets `column_settings`: how the columns are shown, from the first
    /// column on.
    pub fn column_settings(self, settings: Vec<ColumnSetting>) -> (r: Self)
        ensures
            r == (Table { column_settings: Some(settings), ..self }),
    {
        Table { column_settings: Some(settings), ..self }
    }

    /// Sets `block_id`: the identifier of the block within a message.
    pub fn block_id(self, id: &str) -> (r: Self)
        ensures
            r.block_id matches Some(s) && s@ == id@,
            r == (Table { block_id: r.block_id, ..self }),
    {
        Table { block_id: Some(String::from_str(id)), ..self }
    }

    /// The first rule that a row from the given one on breaks: each row has
    /// at least one cell and at most `MAX_TABLE_COLUMNS`.
    pub open spec fn row_violation(rows: Seq<Vec<TableCell>>, from: int) -> Option<Seq<char>>
        decreases rows.len() - from,
    {
        if from < 0 || from >= rows.len() {
            None
        } else if rows[from]@.len() == 0 {
            Some(citing("table block row "@, from as nat, " must contain at least one cell"@))
        } else if rows[from]@.len() > MAX_TABLE_COLUMNS {
            Some(citing("table block rows support at most "@, MAX_TABLE_COLUMNS as nat, " cells"@))
        } else {
            Self::row_violation(rows, from + 1)
        }
    }

    /// The first rule that the block breaks, if it breaks one: it has at
    /// least one row and at most `MAX_TABLE_ROWS`; each row has at least one
    /// cell and at most `MAX_TABLE_COLUMNS`; and there are at most
    /// `MAX_TABLE_COLUMNS` column settings.
    pub open spec fn violation(&self) -> Option<Seq<char>> {
        if self.rows@.len() == 0 {
            Some("table block requires at least one row"@)
        } else if self.rows@.len() > MAX_TABLE_ROWS {
            Some(citing("table block supports at most "@, MAX_TABLE_ROWS as nat, " rows"@))
        } else if Self::row_violation(self.rows@, 0) is Some {
            Self::row_violation(self.rows@, 0)
        } else if self.column_settings matches Some(settings) && settings@.len()
            > MAX_TABLE_COLUMNS {
            Some(
                citing(
                    "table block column_settings supports at most "@,
                    MAX_TABLE_COLUMNS as nat,
                    " entries"@,
                ),
            )
        } else {
            None
        }
    }

    /// Holds the block to its rules: the first rule that it breaks, if it
    /// breaks one.
    pub fn validate(&self) -> (r: Result<(), BuildError>)
        ensures
            match r {
                Ok(_) => self.violation() is None,
                Err(e) => self.violation() == Some(e@),
            },
    {
        if self.rows.len() == 0 {
            return Err(BuildError::message("table block requires at least one row"));
        }
        if self.rows.len() > MAX_TABLE_ROWS {
            return Err(
                BuildError::Message(
                    with_number("table block supports at most ", MAX_TABLE_ROWS, " rows"),
                ),
            );
        }
        let mut idx: usize = 0;
        while idx < self.rows.len()
            invariant
                0 < self.rows.len() <= MAX_TABLE_ROWS,
                idx <= self.rows.len(),
                Self::row_violation(self.rows@, 0) == Self::row_violation(self.rows@, idx as int),
            decreases self.rows.len() - idx,
        {
            if self.rows[idx].len() == 0 {
                return Err(
                    BuildError::Message(
                        with_number("table block row ", idx, " must contain at least one cell"),
                    ),
                );
            }
            if self.rows[idx].len() > MAX_TABLE_COLUMNS {
                return Err(
                    BuildError::Message(
                        with_number(
                            "table block rows support at most ",
                            MAX_TABLE_COLUMNS,
                            " cells",
                        ),
                    ),
                );
            }
            idx += 1;
        }
        match &self.column_settings {
            Some(settings) => {
                if settings.len() > MAX_TABLE_COLUMNS {
                    return Err(
                        BuildError::Message(
                            with_number(
                                "table block column_settings supports at most ",
                                MAX_TABLE_COLUMNS,
                                " entries",
                            ),
                        ),
                    );
                }
            },
            None => {},
        }
        Ok(())
    }

    /// Finishes the block: the block as it stands where it breaks no rule,
    /// else the first rule that it breaks.
    pub fn build(self) -> (r: Result<Block, BuildError>)
        ensures
            match r {
                Ok(b) => self.violation() is None && b == Block::Table(self),
                Err(e) => self.violation() == Some(e@),
            },
    {
        match self.validate() {
            Ok(_) => Ok(Block::Table(self)),
            Err(e) => Err(e),
        }
    }
}

impl ToJson for Table {
    open spec fn json(&self) -> Json {
        let m = no_members().insert("type"@, Json::Str("table"@));
        let m = m.insert("rows"@, self.rows.json());
        let m = with_opt(m, "column_settings"@, self.column_settings);
        let m = with_opt(m, "block_id"@, self.block_id);
        Json::Object(m)
    }

    fn to_value(&self) -> (v: serde_json::Value) {
        let mut m = map_new();
        put_tag(&mut m, "table");
        put(&mut m, "rows", &self.rows);
        put_opt(&mut m, "column_settings", &self.column_settings);
        put_opt(&mut m, "block_id", &self.block_id);
        json_object(m)
    }
}

/// The members of a table block: the tag `table`, each required field, each
/// optional field that is set, and nothing else.
pub proof fn lemma_table_shape(x: Table)
    ensures
        tag_of(x.json()) == "table"@,
        member(x.json(), "rows"@) == Some(x.rows.json()),
        member(x.json(), "column_settings"@) == opt_json(x.column_settings),
        member(x.json(), "block_id"@) == opt_json(x.block_id),
        forall|k: Seq<char>|
            (#[trigger] member(x.json(), k)) is Some ==> k == "type"@ || k == "rows"@
                || k == "column_settings"@ || k == "block_id"@,
{
    reveal_strlit("type");
    reveal_strlit("rows");
    reveal_strlit("column_settings");
    reveal_strlit("block_id");
    assert("type"@.len() == 4);
    assert("rows"@.len() == 4);
    assert("column_settings"@.len() == 15);
    assert("block_id"@.len() == 8);
    assert("type"@[0] != "rows"@[0]);
}

/// Whether each row has at least one cell and at most the most.
pub open spec fn rows_fit(rows: Seq<Vec<TableCell>>) -> bool {
    forall|i: int| 0 <= i < rows.len() ==> 0 < (#[trigger] rows[i])@.len() <= MAX_TABLE_COLUMNS
}

/// The rows from a given one on break no rule exactly when each of them has
/// at least one cell and at most the most.
pub proof fn lemma_rows_fit(rows: Seq<Vec<TableCell>>, from: int)
    requires
        0 <= from <= rows.len(),
    ensures
        Table::row_violation(rows, from) is None <==> (forall|i: int|
            from <= i < rows.len() ==> 0 < (#[trigger] rows[i])@.len() <= MAX_TABLE_COLUMNS),
    decreases rows.len() - from,
{
    if from < rows.len() {
        lemma_rows_fit(rows, from + 1);
        if Table::row_violation(rows, from) is None {
            assert forall|i: int| from <= i < rows.len() implies 0 < (#[trigger] rows[i])@.len()
                <= MAX_TABLE_COLUMNS by {
                if i > from {
                }
            }
        }
    }
}

/// A table without rows is refused, with a message that asks for at least
/// one row.
pub proof fn lemma_table_empty(b: Table)
    requires
        b.rows@.len() == 0,
    ensures
        b.violation() == Some("table block requires at least one row"@),
{
}

/// A table with one row more than the most is refused with a message that
/// cites the most; one with exactly the most is accepted, where its rows and
/// column settings are within their limits.
pub proof fn lemma_table_row_limit(b: Table)
    ensures
        b.rows@.len() == MAX_TABLE_ROWS + 1 ==> b.violation() == Some(
            "table block supports at most 100 rows"@,
        ),
        b.rows@.len() == MAX_TABLE_ROWS && rows_fit(b.rows@) && (b.column_settings matches Some(
            settings,
        ) ==> settings@.len() <= MAX_TABLE_COLUMNS) ==> b.violation() is None,
{
    lemma_numerals();
    reveal_strlit("table block supports at most ");
    reveal_strlit("100");
    reveal_strlit(" rows");
    reveal_strlit("table block supports at most 100 rows");
    assert(
        citing(
            "table block supports at most "@,
            100,
            " rows"@,
        ) =~= "table block supports at most 100 rows"@
    );
    lemma_rows_fit(b.rows@, 0);
}

/// A table of one row with one cell more than the most is refused with a
/// message that cites the most; with exactly the most it is accepted, where
/// its column settings are within their limit.
pub proof fn lemma_table_column_limit(b: Table)
    requires
        b.rows@.len() == 1,
    ensures
        b.rows@[0]@.len() == MAX_TABLE_COLUMNS + 1 ==> b.violation() == Some(
            "table block rows support at most 20 cells"@,
        ),
        b.rows@[0]@.len() == MAX_TABLE_COLUMNS && (b.column_settings matches Some(settings)
            ==> settings@.len() <= MAX_TABLE_COLUMNS) ==> b.violation() is None,
{
    lemma_numerals();
    reveal_strlit("table block rows support at most ");
    reveal_strlit("20");
    reveal_strlit(" cells");
    reveal_strlit("table block rows support at most 20 cells");
    assert(
        citing(
            "table block rows support at most "@,
            20,
            " cells"@,
        ) =~= "table block rows support at most 20 cells"@
    );
    assert(Table::row_violation(b.rows@, 1) is None);
}

/// A table whose rows are within their limits, with one column setting more
/// than the most, is refused with a message that cites the most; with
/// exactly the most it is accepted.
pub proof fn lemma_table_settings_limit(b: Table, settings: Vec<ColumnSetting>)
    requires
        0 < b.rows@.len() <= MAX_TABLE_ROWS,
        rows_fit(b.rows@),
        b.column_settings == Some(settings),
    ensures
        settings@.len() == MAX_TABLE_COLUMNS + 1 ==> b.violation() == Some(
            "table block column_settings supports at most 20 entries"@,
        ),
        settings@.len() == MAX_TABLE_COLUMNS ==> b.violation() is None,
{
    lemma_numerals();
    reveal_strlit("table block column_settings supports at most ");
    reveal_strlit("20");
    reveal_strlit(" entries");
    reveal_strlit("table block column_settings supports at most 20 entries");
    assert(
        citing(
            "table block column_settings supports at most "@,
            20,
            " entries"@,
        ) =~= "table block column_settings supports at most 20 entries"@
    );
    lemma_rows_fit(b.rows@, 0);
}

/// A row without cells is refused with a message that cites the number of
/// the first such row, where the rows before it are within their limits.
pub proof fn lemma_table_empty_row(b: Table, row: int)
    requires
        0 < b.rows@.len() <= MAX_TABLE_ROWS,
        0 <= row < b.rows@.len(),
        b.rows@[row]@.len() == 0,
        rows_fit(b.rows@.take(row)),
    ensures
        b.violation() == Some(
            citing("table block row "@, row as nat, " must contain at least one cell"@),
        ),
{
    lemma_rows_before(b.rows@, 0, row);
}

proof fn lemma_rows_before(rows: Seq<Vec<TableCell>>, from: int, row: int)
    requires
        0 <= from <= row < rows.len(),
        rows_fit(rows.take(row)),
    ensures
        Table::row_violation(rows, from) == Table::row_violation(rows, row),
    decreases row - from,
{
    if from < row {
        assert(rows.take(row)[from] == rows[from]);
        lemma_rows_before(rows, from + 1, row);
    }
}

} // verus!
