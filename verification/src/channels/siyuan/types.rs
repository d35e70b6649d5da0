//! SiYuan API types: the response envelope, notebooks and blocks, and the
//! JSON of the values request bodies carry.
use vstd::prelude::*;
use crate::json::{array, array_exec, json_i64_exec, json_str, json_str_exec, signed_decimal};
use crate::text::{chars_of, push_chars, push_str, seqs_of};

verus! {

/// The envelope of every SiYuan API response.
#[derive(Debug, Clone)]
pub struct SiyuanResponse<T> {
    /// Zero on success, an error code otherwise.
    pub code: i32,
    /// Empty on success, the error message otherwise.
    pub msg: String,
    /// The response data, where there is any.
    pub data: Option<T>,
}

/// Why a SiYuan response yields no data.
#[derive(Debug, Clone, PartialEq, Eq)]
pub enum SiyuanError {
    /// The response reports success but carries no data.
    MissingData,
    /// The API reported an error: its message and code.
    Api { msg: String, code: i32 },
}

/// The text of an error: `Success response missing data`, or
/// `SiYuan API error: <msg> (code <code>)`.
pub open spec fn siyuan_error_text(e: SiyuanError) -> Seq<char> {
    match e {
        SiyuanError::MissingData => "Success response missing data"@,
        SiyuanError::Api { msg, code } => "SiYuan API error: "@ + msg@ + " (code "@ + signed_decimal(code as int) + ")"@,
    }
}

impl SiyuanError {
    /// The error's message.
    pub fn message(&self) -> (r: String)
        ensures
            r@ == siyuan_error_text(*self),
    {
        match self {
            SiyuanError::MissingData => "Success response missing data".to_owned(),
            SiyuanError::Api { msg, code } => {
                let mut r = String::new();
                push_str(&mut r, "SiYuan API error: ");
                push_str(&mut r, msg.as_str());
                push_str(&mut r, " (code ");
                let digits = json_i64_exec(*code as i64);
                push_chars(&mut r, digits.as_slice());
                push_str(&mut r, ")");
                r
            },
        }
    }
}

impl<T> SiyuanResponse<T> {
    /// The response reports success (code 0).
    pub fn is_success(&self) -> (r: bool)
        ensures
            r == (self.code == 0),
    {
        self.code == 0
    }

    /// The data of a successful response; the error otherwise.
    pub fn into_result(self) -> (r: Result<T, SiyuanError>)
        ensures
            self.code == 0 && self.data is Some ==> r == Ok::<T, SiyuanError>(self.data->0),
            self.code == 0 && self.data is None ==> r == Err::<T, SiyuanError>(SiyuanError::MissingData),
            self.code != 0 ==> (r matches Err(SiyuanError::Api { msg, code }) && msg@ == self.msg@ && code == self.code),
    {
        if self.is_success() {
            match self.data {
                Some(d) => Ok(d),
                None => Err(SiyuanError::MissingData),
            }
        } else {
            Err(SiyuanError::Api { msg: self.msg, code: self.code })
        }
    }
}

/// The data of an endpoint that answers with `null`.
#[derive(Debug, Clone)]
pub struct EmptyResponse;

/// A notebook.
#[derive(Debug, Clone)]
pub struct Notebook {
    pub id: String,
    pub name: String,
    pub icon: String,
    pub sort: i32,
    pub closed: bool,
}

/// Kinds of block.
#[derive(Debug, Clone, Copy, PartialEq, Eq, Structural)]
pub enum BlockType {
    Document,
    Heading,
    Paragraph,
    Code,
    ListItem,
    Table,
    SuperBlock,
    Blockquote,
    Callout,
    Html,
    Math,
}

/// The lowercase name a block kind is written with.
pub open spec fn block_type_name(t: BlockType) -> Seq<char> {
    match t {
        BlockType::Document => "document"@,
        BlockType::Heading => "heading"@,
        BlockType::Paragraph => "paragraph"@,
        BlockType::Code => "code"@,
        BlockType::ListItem => "listitem"@,
        BlockType::Table => "table"@,
        BlockType::SuperBlock => "superblock"@,
        BlockType::Blockquote => "blockquote"@,
        BlockType::Callout => "callout"@,
        BlockType::Html => "html"@,
        BlockType::Math => "math"@,
    }
}

impl BlockType {
    /// The kind's lowercase name.
    pub fn as_str(&self) -> (r: &'static str)
        ensures
            r@ == block_type_name(*self),
    {
        match self {
            BlockType::Document => "document",
            BlockType::Heading => "heading",
            BlockType::Paragraph => "paragraph",
            BlockType::Code => "code",
            BlockType::ListItem => "listitem",
            BlockType::Table => "table",
            BlockType::SuperBlock => "superblock",
            BlockType::Blockquote => "blockquote",
            BlockType::Callout => "callout",
            BlockType::Html => "html",
            BlockType::Math => "math",
        }
    }
}

/// A block's summary.
#[derive(Debug, Clone)]
pub struct BlockInfo {
    pub id: String,
    /// Written as `type`.
    pub block_type: String,
    pub subtype: Option<String>,
}

/// One operation on a block.
#[derive(Debug, Clone)]
pub struct BlockOperation {
    pub action: String,
    pub id: String,
    /// Written as `parentID`.
    pub parent_id: Option<String>,
    /// Written as `previousID`.
    pub previous_id: Option<String>,
    pub data: Option<String>,
}

/// The operations a block request performed, with their undo.
#[derive(Debug, Clone)]
pub struct BlockOperations {
    /// Written as `doOperations`.
    pub do_operations: Vec<BlockOperation>,
    /// Written as `undoOperations`.
    pub undo_operations: Option<Vec<BlockOperation>>,
}

/// A file of the workspace.
#[derive(Debug, Clone)]
pub struct FileInfo {
    pub is_dir: bool,
    pub is_symlink: bool,
    pub name: String,
    pub updated: u64,
}

/// The result of an asset upload: failed files, and each uploaded file
/// with where it went.
#[derive(Debug, Clone)]
pub struct AssetUploadResult {
    pub err_files: Vec<String>,
    pub succ_map: Vec<(String, String)>,
}

/// The result of an export: the file written.
#[derive(Debug, Clone)]
pub struct ExportResult {
    pub path: String,
}

/// A rendered template.
#[derive(Debug, Clone)]
pub struct TemplateResult {
    pub content: String,
    pub path: String,
}

/// An optional string taken as characters.
pub open spec fn opt_view(o: Option<String>) -> Option<Seq<char>> {
    match o {
        Some(s) => Some(s@),
        None => None,
    }
}

/// Strings taken as characters.
pub open spec fn strings_view(v: Seq<String>) -> Seq<Seq<char>> {
    Seq::new(v.len(), |i: int| v[i]@)
}

/// Optional strings taken as characters.
pub open spec fn opt_strings_view(o: Option<Vec<String>>) -> Option<Seq<Seq<char>>> {
    match o {
        Some(v) => Some(strings_view(v@)),
        None => None,
    }
}

/// An optional string as JSON (`null` where absent).
pub open spec fn opt_str_json(o: Option<Seq<char>>) -> Seq<char> {
    match o {
        Some(s) => json_str(s),
        None => "null"@,
    }
}

/// Strings as a JSON array.
pub open spec fn strs_json(v: Seq<Seq<char>>) -> Seq<char> {
    array(Seq::new(v.len(), |i: int| json_str(v[i])))
}

/// Optional strings as a JSON array (`null` where absent).
pub open spec fn opt_strs_json(o: Option<Seq<Seq<char>>>) -> Seq<char> {
    match o {
        Some(v) => strs_json(v),
        None => "null"@,
    }
}

/// A boolean as JSON.
pub open spec fn bool_json(b: bool) -> Seq<char> {
    if b { "true"@ } else { "false"@ }
}

/// A string slice as a JSON string, as characters.
pub fn str_json(s: &str) -> (r: Vec<char>)
    ensures
        r@ == json_str(s@),
{
    let c = chars_of(s);
    json_str_exec(c.as_slice())
}

/// An optional string as JSON, as characters.
pub fn opt_str_json_exec(o: &Option<String>) -> (r: Vec<char>)
    ensures
        r@ == opt_str_json(opt_view(*o)),
{
    match o {
        Some(s) => str_json(s.as_str()),
        None => chars_of("null"),
    }
}

/// Strings as a JSON array, as characters.
pub fn strs_json_exec(v: &Vec<String>) -> (r: Vec<char>)
    ensures
        r@ == strs_json(strings_view(v@)),
{
    let ghost target = Seq::new(v@.len(), |i: int| json_str(v@[i]@));
    let mut elems: Vec<Vec<char>> = Vec::new();
    let mut i: usize = 0;
    while i < v.len()
        invariant
            i <= v@.len(),
            target == Seq::new(v@.len(), |k: int| json_str(v@[k]@)),
            seqs_of(elems@) == target.take(i as int),
        decreases v.len() - i,
    {
        let ghost prev = elems@;
        elems.push(str_json(v[i].as_str()));
        assert(seqs_of(elems@) =~= seqs_of(prev).push(json_str(v@[i as int]@)));
        assert(target.take(i + 1) =~= target.take(i as int).push(target[i as int]));
        i += 1;
    }
    assert(target.take(v@.len() as int) =~= target);
    assert(Seq::new(strings_view(v@).len(), |i: int| json_str(strings_view(v@)[i])) =~= target);
    array_exec(&elems)
}

/// Optional strings as a JSON array, as characters.
pub fn opt_strs_json_exec(o: &Option<Vec<String>>) -> (r: Vec<char>)
    ensures
        r@ == opt_strs_json(opt_strings_view(*o)),
{
    match o {
        Some(v) => strs_json_exec(v),
        None => chars_of("null"),
    }
}

/// A boolean as JSON, as characters.
pub fn bool_json_exec(b: bool) -> (r: Vec<char>)
    ensures
        r@ == bool_json(b),
{
    if b { chars_of("true") } else { chars_of("false") }
}

} // verus!
