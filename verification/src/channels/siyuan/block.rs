//! SiYuan block requests and their JSON bodies.
use vstd::prelude::*;
use crate::channels::siyuan::types::{bool_json, bool_json_exec, opt_str_json, opt_str_json_exec, opt_strings_view, opt_strs_json, opt_strs_json_exec, opt_view, str_json, strings_view, strs_json, strs_json_exec};
use crate::json::{json_str, member, member_exec, object, object_exec};
use crate::text::{push_chars, seqs_of};

verus! {


/// How block content is written.
#[derive(Debug, Clone, Copy, PartialEq, Eq, Structural)]
pub enum BlockDataType {
    Markdown,
    Dom,
}

/// The lowercase name of a data type.
pub open spec fn data_type_name(t: BlockDataType) -> Seq<char> {
    match t {
        BlockDataType::Markdown => "markdown"@,
        BlockDataType::Dom => "dom"@,
    }
}

impl BlockDataType {
    /// The data type's lowercase name.
    pub fn as_str(&self) -> (r: &'static str)
        ensures
            r@ == data_type_name(*self),
    {
        match self {
            BlockDataType::Markdown => "markdown",
            BlockDataType::Dom => "dom",
        }
    }
}

impl Default for BlockDataType {
    /// Markdown.
    fn default() -> (t: Self)
        ensures
            t == BlockDataType::Markdown,
    {
        BlockDataType::Markdown
    }
}

/// Insert a block before, after or under another.
#[derive(Debug, Clone)]
pub struct InsertBlockRequest {
    pub data_type: String,
    pub data: String,
    pub next_id: Option<String>,
    pub previous_id: Option<String>,
    pub parent_id: Option<String>,
}

/// The JSON body of a `InsertBlockRequest` with these fields, in field order.
pub open spec fn insert_block_request_body(data_type: Seq<char>, data: Seq<char>, next_id: Option<Seq<char>>, previous_id: Option<Seq<char>>, parent_id: Option<Seq<char>>) -> Seq<char> {
    object(seq![
        member("dataType"@, json_str(data_type)),
        member("data"@, json_str(data)),
        member("nextID"@, opt_str_json(next_id)),
        member("previousID"@, opt_str_json(previous_id)),
        member("parentID"@, opt_str_json(parent_id)),
    ])
}

impl InsertBlockRequest {
    /// The request as its JSON body.
    pub fn to_json(&self) -> (r: String)
        ensures
            r@ == insert_block_request_body(self.data_type@, self.data@, opt_view(self.next_id), opt_view(self.previous_id), opt_view(self.parent_id)),
    {
        let mut m: Vec<Vec<char>> = Vec::new();
        m.push(member_exec("dataType", str_json(self.data_type.as_str())));
        m.push(member_exec("data", str_json(self.data.as_str())));
        m.push(member_exec("nextID", opt_str_json_exec(&self.next_id)));
        m.push(member_exec("previousID", opt_str_json_exec(&self.previous_id)));
        m.push(member_exec("parentID", opt_str_json_exec(&self.parent_id)));
        assert(seqs_of(m@) =~= seq![
            member("dataType"@, json_str(self.data_type@)),
            member("data"@, json_str(self.data@)),
            member("nextID"@, opt_str_json(opt_view(self.next_id))),
            member("previousID"@, opt_str_json(opt_view(self.previous_id))),
            member("parentID"@, opt_str_json(opt_view(self.parent_id))),
        ]);
        let o = object_exec(&m);
        let mut r = String::new();
        push_chars(&mut r, o.as_slice());
        r
    }
}

/// Insert a block as the first child of a parent.
#[derive(Debug, Clone)]
pub struct PrependBlockRequest {
    pub data: String,
    pub data_type: String,
    pub parent_id: String,
}

/// The JSON body of a `PrependBlockRequest` with these fields, in field order.
pub open spec fn prepend_block_request_body(data: Seq<char>, data_type: Seq<char>, parent_id: Seq<char>) -> Seq<char> {
    object(seq![
        member("data"@, json_str(data)),
        member("dataType"@, json_str(data_type)),
        member("parentID"@, json_str(parent_id)),
    ])
}

impl PrependBlockRequest {
    /// The request as its JSON body.
    pub fn to_json(&self) -> (r: String)
        ensures
            r@ == prepend_block_request_body(self.data@, self.data_type@, self.parent_id@),
    {
        let mut m: Vec<Vec<char>> = Vec::new();
        m.push(member_exec("data", str_json(self.data.as_str())));
        m.push(member_exec("dataType", str_json(self.data_type.as_str())));
        m.push(member_exec("parentID", str_json(self.parent_id.as_str())));
        assert(seqs_of(m@) =~= seq![
            member("data"@, json_str(self.data@)),
            member("dataType"@, json_str(self.data_type@)),
            member("parentID"@, json_str(self.parent_id@)),
        ]);
        let o = object_exec(&m);
        let mut r = String::new();
        push_chars(&mut r, o.as_slice());
        r
    }
}

/// Insert a block as the last child of a parent.
#[derive(Debug, Clone)]
pub struct AppendBlockRequest {
    pub data: String,
    pub data_type: String,
    pub parent_id: String,
}

/// The JSON body of a `AppendBlockRequest` with these fields, in field order.
pub open spec fn append_block_request_body(data: Seq<char>, data_type: Seq<char>, parent_id: Seq<char>) -> Seq<char> {
    object(seq![
        member("data"@, json_str(data)),
        member("dataType"@, json_str(data_type)),
        member("parentID"@, json_str(parent_id)),
    ])
}

impl AppendBlockRequest {
    /// The request as its JSON body.
    pub fn to_json(&self) -> (r: String)
        ensures
            r@ == append_block_request_body(self.data@, self.data_type@, self.parent_id@),
    {
        let mut m: Vec<Vec<char>> = Vec::new();
        m.push(member_exec("data", str_json(self.data.as_str())));
        m.push(member_exec("dataType", str_json(self.data_type.as_str())));
        m.push(member_exec("parentID", str_json(self.parent_id.as_str())));
        assert(seqs_of(m@) =~= seq![
            member("data"@, json_str(self.data@)),
            member("dataType"@, json_str(self.data_type@)),
            member("parentID"@, json_str(self.parent_id@)),
        ]);
        let o = object_exec(&m);
        let mut r = String::new();
        push_chars(&mut r, o.as_slice());
        r
    }
}

/// Replace a block's content.
#[derive(Debug, Clone)]
pub struct UpdateBlockRequest {
    pub id: String,
    pub data_type: String,
    pub data: String,
}

/// The JSON body of a `UpdateBlockRequest` with these fields, in field order.
pub open spec fn update_block_request_body(id: Seq<char>, data_type: Seq<char>, data: Seq<char>) -> Seq<char> {
    object(seq![
        member("id"@, json_str(id)),
        member("dataType"@, json_str(data_type)),
        member("data"@, json_str(data)),
    ])
}

impl UpdateBlockRequest {
    /// The request as its JSON body.
    pub fn to_json(&self) -> (r: String)
        ensures
            r@ == update_block_request_body(self.id@, self.data_type@, self.data@),
    {
        let mut m: Vec<Vec<char>> = Vec::new();
        m.push(member_exec("id", str_json(self.id.as_str())));
        m.push(member_exec("dataType", str_json(self.data_type.as_str())));
        m.push(member_exec("data", str_json(self.data.as_str())));
        assert(seqs_of(m@) =~= seq![
            member("id"@, json_str(self.id@)),
            member("dataType"@, json_str(self.data_type@)),
            member("data"@, json_str(self.data@)),
        ]);
        let o = object_exec(&m);
        let mut r = String::new();
        push_chars(&mut r, o.as_slice());
        r
    }
}

/// Delete a block.
#[derive(Debug, Clone)]
pub struct DeleteBlockRequest {
    pub id: String,
}

/// The JSON body of a `DeleteBlockRequest` with these fields, in field order.
pub open spec fn delete_block_request_body(id: Seq<char>) -> Seq<char> {
    object(seq![
        member("id"@, json_str(id)),
    ])
}

impl DeleteBlockRequest {
    /// The request as its JSON body.
    pub fn to_json(&self) -> (r: String)
        ensures
            r@ == delete_block_request_body(self.id@),
    {
        let mut m: Vec<Vec<char>> = Vec::new();
        m.push(member_exec("id", str_json(self.id.as_str())));
        assert(seqs_of(m@) =~= seq![
            member("id"@, json_str(self.id@)),
        ]);
        let o = object_exec(&m);
        let mut r = String::new();
        push_chars(&mut r, o.as_slice());
        r
    }
}

/// Move a block.
#[derive(Debug, Clone)]
pub struct MoveBlockRequest {
    pub id: String,
    pub previous_id: Option<String>,
    pub parent_id: Option<String>,
}

/// The JSON body of a `MoveBlockRequest` with these fields, in field order.
pub open spec fn move_block_request_body(id: Seq<char>, previous_id: Option<Seq<char>>, parent_id: Option<Seq<char>>) -> Seq<char> {
    object(seq![
        member("id"@, json_str(id)),
        member("previousID"@, opt_str_json(previous_id)),
        member("parentID"@, opt_str_json(parent_id)),
    ])
}

impl MoveBlockRequest {
    /// The request as its JSON body.
    pub fn to_json(&self) -> (r: String)
        ensures
            r@ == move_block_request_body(self.id@, opt_view(self.previous_id), opt_view(self.parent_id)),
    {
        let mut m: Vec<Vec<char>> = Vec::new();
        m.push(member_exec("id", str_json(self.id.as_str())));
        m.push(member_exec("previousID", opt_str_json_exec(&self.previous_id)));
        m.push(member_exec("parentID", opt_str_json_exec(&self.parent_id)));
        assert(seqs_of(m@) =~= seq![
            member("id"@, json_str(self.id@)),
            member("previousID"@, opt_str_json(opt_view(self.previous_id))),
            member("parentID"@, opt_str_json(opt_view(self.parent_id))),
        ]);
        let o = object_exec(&m);
        let mut r = String::new();
        push_chars(&mut r, o.as_slice());
        r
    }
}

/// Fold a block.
#[derive(Debug, Clone)]
pub struct FoldBlockRequest {
    pub id: String,
}

/// The JSON body of a `FoldBlockRequest` with these fields, in field order.
pub open spec fn fold_block_request_body(id: Seq<char>) -> Seq<char> {
    object(seq![
        member("id"@, json_str(id)),
    ])
}

impl FoldBlockRequest {
    /// The request as its JSON body.
    pub fn to_json(&self) -> (r: String)
        ensures
            r@ == fold_block_request_body(self.id@),
    {
        let mut m: Vec<Vec<char>> = Vec::new();
        m.push(member_exec("id", str_json(self.id.as_str())));
        assert(seqs_of(m@) =~= seq![
            member("id"@, json_str(self.id@)),
        ]);
        let o = object_exec(&m);
        let mut r = String::new();
        push_chars(&mut r, o.as_slice());
        r
    }
}

/// Unfold a block.
#[derive(Debug, Clone)]
pub struct UnfoldBlockRequest {
    pub id: String,
}

/// The JSON body of a `UnfoldBlockRequest` with these fields, in field order.
pub open spec fn unfold_block_request_body(id: Seq<char>) -> Seq<char> {
    object(seq![
        member("id"@, json_str(id)),
    ])
}

impl UnfoldBlockRequest {
    /// The request as its JSON body.
    pub fn to_json(&self) -> (r: String)
        ensures
            r@ == unfold_block_request_body(self.id@),
    {
        let mut m: Vec<Vec<char>> = Vec::new();
        m.push(member_exec("id", str_json(self.id.as_str())));
        assert(seqs_of(m@) =~= seq![
            member("id"@, json_str(self.id@)),
        ]);
        let o = object_exec(&m);
        let mut r = String::new();
        push_chars(&mut r, o.as_slice());
        r
    }
}

/// Get a block's kramdown source.
#[derive(Debug, Clone)]
pub struct GetBlockKramdownRequest {
    pub id: String,
}

/// The JSON body of a `GetBlockKramdownRequest` with these fields, in field order.
pub open spec fn get_block_kramdown_request_body(id: Seq<char>) -> Seq<char> {
    object(seq![
        member("id"@, json_str(id)),
    ])
}

impl GetBlockKramdownRequest {
    /// The request as its JSON body.
    pub fn to_json(&self) -> (r: String)
        ensures
            r@ == get_block_kramdown_request_body(self.id@),
    {
        let mut m: Vec<Vec<char>> = Vec::new();
        m.push(member_exec("id", str_json(self.id.as_str())));
        assert(seqs_of(m@) =~= seq![
            member("id"@, json_str(self.id@)),
        ]);
        let o = object_exec(&m);
        let mut r = String::new();
        push_chars(&mut r, o.as_slice());
        r
    }
}

/// Get a block's children.
#[derive(Debug, Clone)]
pub struct GetChildBlocksRequest {
    pub id: String,
}

/// The JSON body of a `GetChildBlocksRequest` with these fields, in field order.
pub open spec fn get_child_blocks_request_body(id: Seq<char>) -> Seq<char> {
    object(seq![
        member("id"@, json_str(id)),
    ])
}

impl GetChildBlocksRequest {
    /// The request as its JSON body.
    pub fn to_json(&self) -> (r: String)
        ensures
            r@ == get_child_blocks_request_body(self.id@),
    {
        let mut m: Vec<Vec<char>> = Vec::new();
        m.push(member_exec("id", str_json(self.id.as_str())));
        assert(seqs_of(m@) =~= seq![
            member("id"@, json_str(self.id@)),
        ]);
        let o = object_exec(&m);
        let mut r = String::new();
        push_chars(&mut r, o.as_slice());
        r
    }
}

/// Move references from one block to another.
#[derive(Debug, Clone)]
pub struct TransferBlockRefRequest {
    pub from_id: String,
    pub to_id: String,
    pub ref_ids: Option<Vec<String>>,
}

/// The JSON body of a `TransferBlockRefRequest` with these fields, in field order.
pub open spec fn transfer_block_ref_request_body(from_id: Seq<char>, to_id: Seq<char>, ref_ids: Option<Seq<Seq<char>>>) -> Seq<char> {
    object(seq![
        member("fromID"@, json_str(from_id)),
        member("toID"@, json_str(to_id)),
        member("refIDs"@, opt_strs_json(ref_ids)),
    ])
}

impl TransferBlockRefRequest {
    /// The request as its JSON body.
    pub fn to_json(&self) -> (r: String)
        ensures
            r@ == transfer_block_ref_request_body(self.from_id@, self.to_id@, opt_strings_view(self.ref_ids)),
    {
        let mut m: Vec<Vec<char>> = Vec::new();
        m.push(member_exec("fromID", str_json(self.from_id.as_str())));
        m.push(member_exec("toID", str_json(self.to_id.as_str())));
        m.push(member_exec("refIDs", opt_strs_json_exec(&self.ref_ids)));
        assert(seqs_of(m@) =~= seq![
            member("fromID"@, json_str(self.from_id@)),
            member("toID"@, json_str(self.to_id@)),
            member("refIDs"@, opt_strs_json(opt_strings_view(self.ref_ids))),
        ]);
        let o = object_exec(&m);
        let mut r = String::new();
        push_chars(&mut r, o.as_slice());
        r
    }
}

/// A block's kramdown source.
#[derive(Debug, Clone)]
pub struct BlockKramdownResponse {
    pub id: String,
    pub kramdown: String,
}

} // verus!
