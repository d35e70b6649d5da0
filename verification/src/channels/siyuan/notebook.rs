//! SiYuan notebook requests and their JSON bodies.
use vstd::prelude::*;
use crate::channels::siyuan::types::{bool_json, bool_json_exec, opt_str_json, opt_str_json_exec, opt_strings_view, opt_strs_json, opt_strs_json_exec, opt_view, str_json, strings_view, strs_json, strs_json_exec};
use crate::json::{json_str, member, member_exec, object, object_exec};
use crate::text::{push_chars, seqs_of};
use crate::channels::siyuan::types::Notebook;
verus! {


/// List the notebooks; its body is `null`.
#[derive(Debug, Clone)]
pub struct ListNotebooksRequest;

impl ListNotebooksRequest {
    /// The request as its JSON body: `null`.
    pub fn to_json(&self) -> (r: String)
        ensures
            r@ == "null"@,
    {
        "null".to_owned()
    }
}

/// The notebooks listed.
#[derive(Debug, Clone)]
pub struct ListNotebooksResponse {
    pub notebooks: Vec<Notebook>,
}

/// The notebook created.
#[derive(Debug, Clone)]
pub struct CreateNotebookResponse {
    pub notebook: Notebook,
}

/// A notebook's configuration with the notebook's id and name.
#[derive(Debug, Clone)]
pub struct GetNotebookConfResponse {
    pub box_id: String,
    pub conf: NotebookConf,
    pub name: String,
}

/// The JSON of a configuration update.
pub open spec fn notebook_conf_update_json(c: NotebookConfUpdate) -> Seq<char> {
    notebook_conf_update_body(
        c.name@,
        c.closed,
        c.ref_create_save_path@,
        c.create_doc_name_template@,
        c.daily_note_save_path@,
        c.daily_note_template_path@,
    )
}

impl NotebookConfUpdate {
    /// The update as JSON, as characters.
    pub fn to_json_chars(&self) -> (r: Vec<char>)
        ensures
            r@ == notebook_conf_update_json(*self),
    {
        let s = self.to_json();
        crate::text::chars_of(s.as_str())
    }
}

/// Open a notebook.
#[derive(Debug, Clone)]
pub struct OpenNotebookRequest {
    pub notebook: String,
}

/// The JSON body of a `OpenNotebookRequest` with these fields, in field order.
pub open spec fn open_notebook_request_body(notebook: Seq<char>) -> Seq<char> {
    object(seq![
        member("notebook"@, json_str(notebook)),
    ])
}

impl OpenNotebookRequest {
    /// The request as its JSON body.
    pub fn to_json(&self) -> (r: String)
        ensures
            r@ == open_notebook_request_body(self.notebook@),
    {
        let mut m: Vec<Vec<char>> = Vec::new();
        m.push(member_exec("notebook", str_json(self.notebook.as_str())));
        assert(seqs_of(m@) =~= seq![
            member("notebook"@, json_str(self.notebook@)),
        ]);
        let o = object_exec(&m);
        let mut r = String::new();
        push_chars(&mut r, o.as_slice());
        r
    }
}

/// Close a notebook.
#[derive(Debug, Clone)]
pub struct CloseNotebookRequest {
    pub notebook: String,
}

/// The JSON body of a `CloseNotebookRequest` with these fields, in field order.
pub open spec fn close_notebook_request_body(notebook: Seq<char>) -> Seq<char> {
    object(seq![
        member("notebook"@, json_str(notebook)),
    ])
}

impl CloseNotebookRequest {
    /// The request as its JSON body.
    pub fn to_json(&self) -> (r: String)
        ensures
            r@ == close_notebook_request_body(self.notebook@),
    {
        let mut m: Vec<Vec<char>> = Vec::new();
        m.push(member_exec("notebook", str_json(self.notebook.as_str())));
        assert(seqs_of(m@) =~= seq![
            member("notebook"@, json_str(self.notebook@)),
        ]);
        let o = object_exec(&m);
        let mut r = String::new();
        push_chars(&mut r, o.as_slice());
        r
    }
}

/// Create a notebook.
#[derive(Debug, Clone)]
pub struct CreateNotebookRequest {
    pub name: String,
}

/// The JSON body of a `CreateNotebookRequest` with these fields, in field order.
pub open spec fn create_notebook_request_body(name: Seq<char>) -> Seq<char> {
    object(seq![
        member("name"@, json_str(name)),
    ])
}

impl CreateNotebookRequest {
    /// The request as its JSON body.
    pub fn to_json(&self) -> (r: String)
        ensures
            r@ == create_notebook_request_body(self.name@),
    {
        let mut m: Vec<Vec<char>> = Vec::new();
        m.push(member_exec("name", str_json(self.name.as_str())));
        assert(seqs_of(m@) =~= seq![
            member("name"@, json_str(self.name@)),
        ]);
        let o = object_exec(&m);
        let mut r = String::new();
        push_chars(&mut r, o.as_slice());
        r
    }
}

/// Rename a notebook.
#[derive(Debug, Clone)]
pub struct RenameNotebookRequest {
    pub notebook: String,
    pub name: String,
}

/// The JSON body of a `RenameNotebookRequest` with these fields, in field order.
pub open spec fn rename_notebook_request_body(notebook: Seq<char>, name: Seq<char>) -> Seq<char> {
    object(seq![
        member("notebook"@, json_str(notebook)),
        member("name"@, json_str(name)),
    ])
}

impl RenameNotebookRequest {
    /// The request as its JSON body.
    pub fn to_json(&self) -> (r: String)
        ensures
            r@ == rename_notebook_request_body(self.notebook@, self.name@),
    {
        let mut m: Vec<Vec<char>> = Vec::new();
        m.push(member_exec("notebook", str_json(self.notebook.as_str())));
        m.push(member_exec("name", str_json(self.name.as_str())));
        assert(seqs_of(m@) =~= seq![
            member("notebook"@, json_str(self.notebook@)),
            member("name"@, json_str(self.name@)),
        ]);
        let o = object_exec(&m);
        let mut r = String::new();
        push_chars(&mut r, o.as_slice());
        r
    }
}

/// Remove a notebook.
#[derive(Debug, Clone)]
pub struct RemoveNotebookRequest {
    pub notebook: String,
}

/// The JSON body of a `RemoveNotebookRequest` with these fields, in field order.
pub open spec fn remove_notebook_request_body(notebook: Seq<char>) -> Seq<char> {
    object(seq![
        member("notebook"@, json_str(notebook)),
    ])
}

impl RemoveNotebookRequest {
    /// The request as its JSON body.
    pub fn to_json(&self) -> (r: String)
        ensures
            r@ == remove_notebook_request_body(self.notebook@),
    {
        let mut m: Vec<Vec<char>> = Vec::new();
        m.push(member_exec("notebook", str_json(self.notebook.as_str())));
        assert(seqs_of(m@) =~= seq![
            member("notebook"@, json_str(self.notebook@)),
        ]);
        let o = object_exec(&m);
        let mut r = String::new();
        push_chars(&mut r, o.as_slice());
        r
    }
}

/// Get a notebook's configuration.
#[derive(Debug, Clone)]
pub struct GetNotebookConfRequest {
    pub notebook: String,
}

/// The JSON body of a `GetNotebookConfRequest` with these fields, in field order.
pub open spec fn get_notebook_conf_request_body(notebook: Seq<char>) -> Seq<char> {
    object(seq![
        member("notebook"@, json_str(notebook)),
    ])
}

impl GetNotebookConfRequest {
    /// The request as its JSON body.
    pub fn to_json(&self) -> (r: String)
        ensures
            r@ == get_notebook_conf_request_body(self.notebook@),
    {
        let mut m: Vec<Vec<char>> = Vec::new();
        m.push(member_exec("notebook", str_json(self.notebook.as_str())));
        assert(seqs_of(m@) =~= seq![
            member("notebook"@, json_str(self.notebook@)),
        ]);
        let o = object_exec(&m);
        let mut r = String::new();
        push_chars(&mut r, o.as_slice());
        r
    }
}

/// A notebook's new configuration.
#[derive(Debug, Clone)]
pub struct NotebookConfUpdate {
    pub name: String,
    pub closed: bool,
    pub ref_create_save_path: String,
    pub create_doc_name_template: String,
    pub daily_note_save_path: String,
    pub daily_note_template_path: String,
}

/// The JSON body of a `NotebookConfUpdate` with these fields, in field order.
pub open spec fn notebook_conf_update_body(name: Seq<char>, closed: bool, ref_create_save_path: Seq<char>, create_doc_name_template: Seq<char>, daily_note_save_path: Seq<char>, daily_note_template_path: Seq<char>) -> Seq<char> {
    object(seq![
        member("name"@, json_str(name)),
        member("closed"@, bool_json(closed)),
        member("refCreateSavePath"@, json_str(ref_create_save_path)),
        member("createDocNameTemplate"@, json_str(create_doc_name_template)),
        member("dailyNoteSavePath"@, json_str(daily_note_save_path)),
        member("dailyNoteTemplatePath"@, json_str(daily_note_template_path)),
    ])
}

impl NotebookConfUpdate {
    /// The request as its JSON body.
    pub fn to_json(&self) -> (r: String)
        ensures
            r@ == notebook_conf_update_body(self.name@, self.closed, self.ref_create_save_path@, self.create_doc_name_template@, self.daily_note_save_path@, self.daily_note_template_path@),
    {
        let mut m: Vec<Vec<char>> = Vec::new();
        m.push(member_exec("name", str_json(self.name.as_str())));
        m.push(member_exec("closed", bool_json_exec(self.closed)));
        m.push(member_exec("refCreateSavePath", str_json(self.ref_create_save_path.as_str())));
        m.push(member_exec("createDocNameTemplate", str_json(self.create_doc_name_template.as_str())));
        m.push(member_exec("dailyNoteSavePath", str_json(self.daily_note_save_path.as_str())));
        m.push(member_exec("dailyNoteTemplatePath", str_json(self.daily_note_template_path.as_str())));
        assert(seqs_of(m@) =~= seq![
            member("name"@, json_str(self.name@)),
            member("closed"@, bool_json(self.closed)),
            member("refCreateSavePath"@, json_str(self.ref_create_save_path@)),
            member("createDocNameTemplate"@, json_str(self.create_doc_name_template@)),
            member("dailyNoteSavePath"@, json_str(self.daily_note_save_path@)),
            member("dailyNoteTemplatePath"@, json_str(self.daily_note_template_path@)),
        ]);
        let o = object_exec(&m);
        let mut r = String::new();
        push_chars(&mut r, o.as_slice());
        r
    }
}

/// Set a notebook's configuration.
#[derive(Debug, Clone)]
pub struct SetNotebookConfRequest {
    pub notebook: String,
    pub conf: NotebookConfUpdate,
}

/// The JSON body of a `SetNotebookConfRequest` with these fields, in field order.
pub open spec fn set_notebook_conf_request_body(notebook: Seq<char>, conf: NotebookConfUpdate) -> Seq<char> {
    object(seq![
        member("notebook"@, json_str(notebook)),
        member("conf"@, notebook_conf_update_json(conf)),
    ])
}

impl SetNotebookConfRequest {
    /// The request as its JSON body.
    pub fn to_json(&self) -> (r: String)
        ensures
            r@ == set_notebook_conf_request_body(self.notebook@, self.conf),
    {
        let mut m: Vec<Vec<char>> = Vec::new();
        m.push(member_exec("notebook", str_json(self.notebook.as_str())));
        m.push(member_exec("conf", self.conf.to_json_chars()));
        assert(seqs_of(m@) =~= seq![
            member("notebook"@, json_str(self.notebook@)),
            member("conf"@, notebook_conf_update_json(self.conf)),
        ]);
        let o = object_exec(&m);
        let mut r = String::new();
        push_chars(&mut r, o.as_slice());
        r
    }
}

/// A notebook's configuration.
#[derive(Debug, Clone)]
pub struct NotebookConf {
    pub name: String,
    pub closed: bool,
    pub ref_create_save_path: String,
    pub create_doc_name_template: String,
    pub daily_note_save_path: String,
    pub daily_note_template_path: String,
}

} // verus!
