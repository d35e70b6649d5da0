//! SiYuan document requests and their JSON bodies.
use vstd::prelude::*;
use crate::channels::siyuan::types::{bool_json, bool_json_exec, opt_str_json, opt_str_json_exec, opt_strings_view, opt_strs_json, opt_strs_json_exec, opt_view, str_json, strings_view, strs_json, strs_json_exec};
use crate::json::{json_str, member, member_exec, object, object_exec};
use crate::text::{push_chars, seqs_of};

verus! {



/// Create a document from markdown.
#[derive(Debug, Clone)]
pub struct CreateDocRequest {
    pub notebook: String,
    pub path: String,
    pub markdown: String,
}

/// The JSON body of a `CreateDocRequest` with these fields, in field order.
pub open spec fn create_doc_request_body(notebook: Seq<char>, path: Seq<char>, markdown: Seq<char>) -> Seq<char> {
    object(seq![
        member("notebook"@, json_str(notebook)),
        member("path"@, json_str(path)),
        member("markdown"@, json_str(markdown)),
    ])
}

impl CreateDocRequest {
    /// The request as its JSON body.
    pub fn to_json(&self) -> (r: String)
        ensures
            r@ == create_doc_request_body(self.notebook@, self.path@, self.markdown@),
    {
        let mut m: Vec<Vec<char>> = Vec::new();
        m.push(member_exec("notebook", str_json(self.notebook.as_str())));
        m.push(member_exec("path", str_json(self.path.as_str())));
        m.push(member_exec("markdown", str_json(self.markdown.as_str())));
        assert(seqs_of(m@) =~= seq![
            member("notebook"@, json_str(self.notebook@)),
            member("path"@, json_str(self.path@)),
            member("markdown"@, json_str(self.markdown@)),
        ]);
        let o = object_exec(&m);
        let mut r = String::new();
        push_chars(&mut r, o.as_slice());
        r
    }
}

/// Rename a document by path.
#[derive(Debug, Clone)]
pub struct RenameDocRequest {
    pub notebook: String,
    pub path: String,
    pub title: String,
}

/// The JSON body of a `RenameDocRequest` with these fields, in field order.
pub open spec fn rename_doc_request_body(notebook: Seq<char>, path: Seq<char>, title: Seq<char>) -> Seq<char> {
    object(seq![
        member("notebook"@, json_str(notebook)),
        member("path"@, json_str(path)),
        member("title"@, json_str(title)),
    ])
}

impl RenameDocRequest {
    /// The request as its JSON body.
    pub fn to_json(&self) -> (r: String)
        ensures
            r@ == rename_doc_request_body(self.notebook@, self.path@, self.title@),
    {
        let mut m: Vec<Vec<char>> = Vec::new();
        m.push(member_exec("notebook", str_json(self.notebook.as_str())));
        m.push(member_exec("path", str_json(self.path.as_str())));
        m.push(member_exec("title", str_json(self.title.as_str())));
        assert(seqs_of(m@) =~= seq![
            member("notebook"@, json_str(self.notebook@)),
            member("path"@, json_str(self.path@)),
            member("title"@, json_str(self.title@)),
        ]);
        let o = object_exec(&m);
        let mut r = String::new();
        push_chars(&mut r, o.as_slice());
        r
    }
}

/// Rename a document by id.
#[derive(Debug, Clone)]
pub struct RenameDocByIDRequest {
    pub id: String,
    pub title: String,
}

/// The JSON body of a `RenameDocByIDRequest` with these fields, in field order.
pub open spec fn rename_doc_by_id_request_body(id: Seq<char>, title: Seq<char>) -> Seq<char> {
    object(seq![
        member("id"@, json_str(id)),
        member("title"@, json_str(title)),
    ])
}

impl RenameDocByIDRequest {
    /// The request as its JSON body.
    pub fn to_json(&self) -> (r: String)
        ensures
            r@ == rename_doc_by_id_request_body(self.id@, self.title@),
    {
        let mut m: Vec<Vec<char>> = Vec::new();
        m.push(member_exec("id", str_json(self.id.as_str())));
        m.push(member_exec("title", str_json(self.title.as_str())));
        assert(seqs_of(m@) =~= seq![
            member("id"@, json_str(self.id@)),
            member("title"@, json_str(self.title@)),
        ]);
        let o = object_exec(&m);
        let mut r = String::new();
        push_chars(&mut r, o.as_slice());
        r
    }
}

/// Remove a document by path.
#[derive(Debug, Clone)]
pub struct RemoveDocRequest {
    pub notebook: String,
    pub path: String,
}

/// The JSON body of a `RemoveDocRequest` with these fields, in field order.
pub open spec fn remove_doc_request_body(notebook: Seq<char>, path: Seq<char>) -> Seq<char> {
    object(seq![
        member("notebook"@, json_str(notebook)),
        member("path"@, json_str(path)),
    ])
}

impl RemoveDocRequest {
    /// The request as its JSON body.
    pub fn to_json(&self) -> (r: String)
        ensures
            r@ == remove_doc_request_body(self.notebook@, self.path@),
    {
        let mut m: Vec<Vec<char>> = Vec::new();
        m.push(member_exec("notebook", str_json(self.notebook.as_str())));
        m.push(member_exec("path", str_json(self.path.as_str())));
        assert(seqs_of(m@) =~= seq![
            member("notebook"@, json_str(self.notebook@)),
            member("path"@, json_str(self.path@)),
        ]);
        let o = object_exec(&m);
        let mut r = String::new();
        push_chars(&mut r, o.as_slice());
        r
    }
}

/// Remove a document by id.
#[derive(Debug, Clone)]
pub struct RemoveDocByIDRequest {
    pub id: String,
}

/// The JSON body of a `RemoveDocByIDRequest` with these fields, in field order.
pub open spec fn remove_doc_by_id_request_body(id: Seq<char>) -> Seq<char> {
    object(seq![
        member("id"@, json_str(id)),
    ])
}

impl RemoveDocByIDRequest {
    /// The request as its JSON body.
    pub fn to_json(&self) -> (r: String)
        ensures
            r@ == remove_doc_by_id_request_body(self.id@),
    {
        let mut m: Vec<Vec<char>> = Vec::new();
        m.push(member_exec("id", str_json(self.id.as_str())));
        assert(seqs_of(m@) =~= seq![
            member("id"@, json_str(self.id@)),
        ]);
        let o = object_exec(&m);
        let mut r = String::new();
        push_chars(&mut r, o.as_slice());
        r
    }
}

/// Move documents by path.
#[derive(Debug, Clone)]
pub struct MoveDocsRequest {
    pub from_paths: Vec<String>,
    pub to_notebook: String,
    pub to_path: String,
}

/// The JSON body of a `MoveDocsRequest` with these fields, in field order.
pub open spec fn move_docs_request_body(from_paths: Seq<Seq<char>>, to_notebook: Seq<char>, to_path: Seq<char>) -> Seq<char> {
    object(seq![
        member("fromPaths"@, strs_json(from_paths)),
        member("toNotebook"@, json_str(to_notebook)),
        member("toPath"@, json_str(to_path)),
    ])
}

impl MoveDocsRequest {
    /// The request as its JSON body.
    pub fn to_json(&self) -> (r: String)
        ensures
            r@ == move_docs_request_body(strings_view(self.from_paths@), self.to_notebook@, self.to_path@),
    {
        let mut m: Vec<Vec<char>> = Vec::new();
        m.push(member_exec("fromPaths", strs_json_exec(&self.from_paths)));
        m.push(member_exec("toNotebook", str_json(self.to_notebook.as_str())));
        m.push(member_exec("toPath", str_json(self.to_path.as_str())));
        assert(seqs_of(m@) =~= seq![
            member("fromPaths"@, strs_json(strings_view(self.from_paths@))),
            member("toNotebook"@, json_str(self.to_notebook@)),
            member("toPath"@, json_str(self.to_path@)),
        ]);
        let o = object_exec(&m);
        let mut r = String::new();
        push_chars(&mut r, o.as_slice());
        r
    }
}

/// Move documents by id.
#[derive(Debug, Clone)]
pub struct MoveDocsByIDRequest {
    pub from_ids: Vec<String>,
    pub to_id: String,
}

/// The JSON body of a `MoveDocsByIDRequest` with these fields, in field order.
pub open spec fn move_docs_by_id_request_body(from_ids: Seq<Seq<char>>, to_id: Seq<char>) -> Seq<char> {
    object(seq![
        member("fromIDs"@, strs_json(from_ids)),
        member("toID"@, json_str(to_id)),
    ])
}

impl MoveDocsByIDRequest {
    /// The request as its JSON body.
    pub fn to_json(&self) -> (r: String)
        ensures
            r@ == move_docs_by_id_request_body(strings_view(self.from_ids@), self.to_id@),
    {
        let mut m: Vec<Vec<char>> = Vec::new();
        m.push(member_exec("fromIDs", strs_json_exec(&self.from_ids)));
        m.push(member_exec("toID", str_json(self.to_id.as_str())));
        assert(seqs_of(m@) =~= seq![
            member("fromIDs"@, strs_json(strings_view(self.from_ids@))),
            member("toID"@, json_str(self.to_id@)),
        ]);
        let o = object_exec(&m);
        let mut r = String::new();
        push_chars(&mut r, o.as_slice());
        r
    }
}

/// Get a document's readable path from its storage path.
#[derive(Debug, Clone)]
pub struct GetHPathByPathRequest {
    pub notebook: String,
    pub path: String,
}

/// The JSON body of a `GetHPathByPathRequest` with these fields, in field order.
pub open spec fn get_h_path_by_path_request_body(notebook: Seq<char>, path: Seq<char>) -> Seq<char> {
    object(seq![
        member("notebook"@, json_str(notebook)),
        member("path"@, json_str(path)),
    ])
}

impl GetHPathByPathRequest {
    /// The request as its JSON body.
    pub fn to_json(&self) -> (r: String)
        ensures
            r@ == get_h_path_by_path_request_body(self.notebook@, self.path@),
    {
        let mut m: Vec<Vec<char>> = Vec::new();
        m.push(member_exec("notebook", str_json(self.notebook.as_str())));
        m.push(member_exec("path", str_json(self.path.as_str())));
        assert(seqs_of(m@) =~= seq![
            member("notebook"@, json_str(self.notebook@)),
            member("path"@, json_str(self.path@)),
        ]);
        let o = object_exec(&m);
        let mut r = String::new();
        push_chars(&mut r, o.as_slice());
        r
    }
}

/// Get a block's readable path.
#[derive(Debug, Clone)]
pub struct GetHPathByIDRequest {
    pub id: String,
}

/// The JSON body of a `GetHPathByIDRequest` with these fields, in field order.
pub open spec fn get_h_path_by_id_request_body(id: Seq<char>) -> Seq<char> {
    object(seq![
        member("id"@, json_str(id)),
    ])
}

impl GetHPathByIDRequest {
    /// The request as its JSON body.
    pub fn to_json(&self) -> (r: String)
        ensures
            r@ == get_h_path_by_id_request_body(self.id@),
    {
        let mut m: Vec<Vec<char>> = Vec::new();
        m.push(member_exec("id", str_json(self.id.as_str())));
        assert(seqs_of(m@) =~= seq![
            member("id"@, json_str(self.id@)),
        ]);
        let o = object_exec(&m);
        let mut r = String::new();
        push_chars(&mut r, o.as_slice());
        r
    }
}

/// Get a block's storage path.
#[derive(Debug, Clone)]
pub struct GetPathByIDRequest {
    pub id: String,
}

/// The JSON body of a `GetPathByIDRequest` with these fields, in field order.
pub open spec fn get_path_by_id_request_body(id: Seq<char>) -> Seq<char> {
    object(seq![
        member("id"@, json_str(id)),
    ])
}

impl GetPathByIDRequest {
    /// The request as its JSON body.
    pub fn to_json(&self) -> (r: String)
        ensures
            r@ == get_path_by_id_request_body(self.id@),
    {
        let mut m: Vec<Vec<char>> = Vec::new();
        m.push(member_exec("id", str_json(self.id.as_str())));
        assert(seqs_of(m@) =~= seq![
            member("id"@, json_str(self.id@)),
        ]);
        let o = object_exec(&m);
        let mut r = String::new();
        push_chars(&mut r, o.as_slice());
        r
    }
}

/// Get the ids of documents at a readable path.
#[derive(Debug, Clone)]
pub struct GetIDsByHPathRequest {
    pub path: String,
    pub notebook: String,
}

/// The JSON body of a `GetIDsByHPathRequest` with these fields, in field order.
pub open spec fn get_i_ds_by_h_path_request_body(path: Seq<char>, notebook: Seq<char>) -> Seq<char> {
    object(seq![
        member("path"@, json_str(path)),
        member("notebook"@, json_str(notebook)),
    ])
}

impl GetIDsByHPathRequest {
    /// The request as its JSON body.
    pub fn to_json(&self) -> (r: String)
        ensures
            r@ == get_i_ds_by_h_path_request_body(self.path@, self.notebook@),
    {
        let mut m: Vec<Vec<char>> = Vec::new();
        m.push(member_exec("path", str_json(self.path.as_str())));
        m.push(member_exec("notebook", str_json(self.notebook.as_str())));
        assert(seqs_of(m@) =~= seq![
            member("path"@, json_str(self.path@)),
            member("notebook"@, json_str(self.notebook@)),
        ]);
        let o = object_exec(&m);
        let mut r = String::new();
        push_chars(&mut r, o.as_slice());
        r
    }
}

/// A block's notebook and storage path.
#[derive(Debug, Clone)]
pub struct PathByIDResponse {
    pub notebook: String,
    pub path: String,
}

} // verus!
