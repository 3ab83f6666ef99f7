//! The file block.

use vstd::prelude::*;
use vstd::string::StringExecFns;
use crate::blocks::{Block, BuildError};
use crate::encode::{ToJson, opt_json, put, put_opt, put_tag, tag_of, with_opt};
use crate::json::json_string;
use crate::json::{Json, json_object, map_new, member, no_members};

verus! {

/// Where a file is kept.
#[derive(Debug, Clone, Copy, PartialEq, Eq)]
pub enum FileSource {
    /// Outside the platform.
    Remote,
}

impl ToJson for FileSource {
    open spec fn json(&self) -> Json {
        match self {
            FileSource::Remote => Json::Str("remote"@),
        }
    }

    fn to_value(&self) -> (v: serde_json::Value) {
        let name = match self {
            FileSource::Remote => "remote",
        };
        json_string(String::from_str(name))
    }
}

/// A file that is kept outside the platform.
#[derive(Debug, Clone, PartialEq, Eq)]
pub struct File {
    /// The identifier that the file was registered under.
    pub external_id: String,
    /// Where the file is kept.
    pub source: FileSource,
    /// The identifier of the block within a message.
    pub block_id: Option<String>,
}

impl File {
    /// A file block with its required fields; every optional field is unset.
    pub fn new(external_id: &str, source: FileSource) -> (r: Self)
        ensures
            r.external_id@ == external_id@,
            r.source == source,
            r.block_id is None,
    {
        File { external_id: String::from_str(external_id), source, block_id: None }
    }

    /// Sets `block_id`: the identifier of the block within a message.
    pub fn block_id(self, id: &str) -> (r: Self)
        ensures
            r.block_id matches Some(s) && s@ == id@,
            r == (File { block_id: r.block_id, ..self }),
    {
        File { block_id: Some(String::from_str(id)), ..self }
    }

    /// The first rule that the block breaks: a file block breaks none.
    pub open spec fn violation(&self) -> Option<Seq<char>> {
        None
    }

    /// Finishes the block. No rule is laid on a file block, so this never fails.
    pub fn build(self) -> (r: Result<Block, BuildError>)
        ensures
            r == Ok::<Block, BuildError>(Block::File(self)),
    {
        Ok(Block::File(self))
    }
}

impl ToJson for File {
    open spec fn json(&self) -> Json {
        let m = no_members().insert("type"@, Json::Str("file"@));
        let m = m.insert("external_id"@, self.external_id.json());
        let m = m.insert("source"@, self.source.json());
        let m = with_opt(m, "block_id"@, self.block_id);
        Json::Object(m)
    }

    fn to_value(&self) -> (v: serde_json::Value) {
        let mut m = map_new();
        put_tag(&mut m, "file");
        put(&mut m, "external_id", &self.external_id);
        put(&mut m, "source", &self.source);
        put_opt(&mut m, "block_id", &self.block_id);
        json_object(m)
    }
}

/// The members of a file block: the tag `file`, each required field, each
/// optional field that is set, and nothing else.
pub proof fn lemma_file_shape(x: File)
    ensures
        tag_of(x.json()) == "file"@,
        member(x.json(), "external_id"@) == Some(x.external_id.json()),
        member(x.json(), "source"@) == Some(x.source.json()),
        member(x.json(), "block_id"@) == opt_json(x.block_id),
        forall|k: Seq<char>|
            (#[trigger] member(x.json(), k)) is Some ==> k == "type"@ || k == "external_id"@
                || k == "source"@ || k == "block_id"@,
{
    reveal_strlit("type");
    reveal_strlit("external_id");
    reveal_strlit("source");
    reveal_strlit("block_id");
    assert("type"@.len() == 4);
    assert("external_id"@.len() == 11);
    assert("source"@.len() == 6);
    assert("block_id"@.len() == 8);
}

} // verus!
