//! The SiYuan client: where requests go and with what authorization.
//!
//! Each API method builds the HTTP call the client makes: the URL, the
//! `Authorization` header where there is a token, and the JSON body. The
//! caller sends it and reads the response's envelope.
use vstd::prelude::*;
use crate::channels::siyuan::block::{AppendBlockRequest, DeleteBlockRequest, FoldBlockRequest, GetBlockKramdownRequest, GetChildBlocksRequest, InsertBlockRequest, MoveBlockRequest, PrependBlockRequest, TransferBlockRefRequest, UnfoldBlockRequest, UpdateBlockRequest, append_block_request_body, delete_block_request_body, fold_block_request_body, get_block_kramdown_request_body, get_child_blocks_request_body, insert_block_request_body, move_block_request_body, prepend_block_request_body, transfer_block_ref_request_body, unfold_block_request_body, update_block_request_body};
use crate::channels::siyuan::document::{CreateDocRequest, GetHPathByIDRequest, GetHPathByPathRequest, GetIDsByHPathRequest, GetPathByIDRequest, MoveDocsByIDRequest, MoveDocsRequest, RemoveDocByIDRequest, RemoveDocRequest, RenameDocByIDRequest, RenameDocRequest, create_doc_request_body, get_h_path_by_id_request_body, get_h_path_by_path_request_body, get_i_ds_by_h_path_request_body, get_path_by_id_request_body, move_docs_by_id_request_body, move_docs_request_body, remove_doc_by_id_request_body, remove_doc_request_body, rename_doc_by_id_request_body, rename_doc_request_body};
use crate::channels::siyuan::notebook::{CloseNotebookRequest, CreateNotebookRequest, GetNotebookConfRequest, OpenNotebookRequest, RemoveNotebookRequest, RenameNotebookRequest, SetNotebookConfRequest, close_notebook_request_body, create_notebook_request_body, get_notebook_conf_request_body, open_notebook_request_body, remove_notebook_request_body, rename_notebook_request_body, set_notebook_conf_request_body};
use crate::channels::siyuan::notebook::{ListNotebooksRequest, NotebookConfUpdate};use crate::channels::siyuan::types::{opt_strings_view, opt_view, strings_view};
use crate::text::push_str;

verus! {

/// The default SiYuan API endpoint.
pub const DEFAULT_BASE_URL: &'static str = "http://localhost:6806";

/// A POST to the SiYuan API.
#[derive(Debug, Clone)]
pub struct ApiCall {
    /// Where it goes.
    pub url: String,
    /// The `Authorization` header, where there is one.
    pub authorization: Option<String>,
    /// The JSON body.
    pub body: String,
}

/// The `Authorization` header for a token: `Token <token>`, none for an
/// empty token.
pub open spec fn authorization_of(token: Seq<char>) -> Option<Seq<char>> {
    if token.len() == 0 {
        None
    } else {
        Some("Token "@ + token)
    }
}

/// An optional string slice taken as characters.
pub open spec fn opt_str_view(o: Option<&str>) -> Option<Seq<char>> {
    match o {
        Some(s) => Some(s@),
        None => None,
    }
}

/// String slices taken as characters.
pub open spec fn slices_view(v: Seq<&str>) -> Seq<Seq<char>> {
    Seq::new(v.len(), |i: int| v[i]@)
}

fn owned_opt(o: Option<&str>) -> (r: Option<String>)
    ensures
        opt_view(r) == opt_str_view(o),
{
    match o {
        Some(s) => Some(s.to_owned()),
        None => None,
    }
}

fn owned_all(v: &[&str]) -> (r: Vec<String>)
    ensures
        strings_view(r@) == slices_view(v@),
{
    let mut r: Vec<String> = Vec::new();
    let mut i: usize = 0;
    while i < v.len()
        invariant
            i <= v@.len(),
            r@.len() == i,
            forall|j: int| 0 <= j < i ==> (#[trigger] r@[j])@ == v@[j]@,
        decreases v.len() - i,
    {
        r.push(v[i].to_owned());
        i += 1;
    }
    assert(strings_view(r@) =~= slices_view(v@));
    r
}

/// A SiYuan API client's settings.
#[derive(Debug, Clone)]
pub struct SiyuanClient {
    api_token: String,
    base_url: String,
}

impl SiyuanClient {
    /// The API token (empty for a local instance without authentication).
    pub closed spec fn token(&self) -> Seq<char> {
        self.api_token@
    }

    /// The base URL.
    pub closed spec fn base(&self) -> Seq<char> {
        self.base_url@
    }

    /// A client with `api_token` for the default endpoint.
    pub fn new(api_token: String) -> (c: Self)
        ensures
            c.token() == api_token@,
            c.base() == DEFAULT_BASE_URL@,
    {
        SiyuanClient { api_token, base_url: DEFAULT_BASE_URL.to_owned() }
    }

    /// A client with `api_token` (none: empty) for `base_url` (none: the
    /// default endpoint).
    pub fn with_settings(api_token: Option<String>, base_url: Option<String>) -> (c: Self)
        ensures
            c.token() == match api_token { Some(t) => t@, None => Seq::<char>::empty() },
            c.base() == match base_url { Some(b) => b@, None => DEFAULT_BASE_URL@ },
    {
        SiyuanClient {
            api_token: match api_token { Some(t) => t, None => String::new() },
            base_url: match base_url { Some(b) => b, None => DEFAULT_BASE_URL.to_owned() },
        }
    }

    /// The API token in use.
    pub fn api_token(&self) -> (r: &str)
        ensures
            r@ == self.token(),
    {
        self.api_token.as_str()
    }

    /// The base URL in use.
    pub fn base_url(&self) -> (r: &str)
        ensures
            r@ == self.base(),
    {
        self.base_url.as_str()
    }

    /// The call to `endpoint` with `body`.
    fn call(&self, endpoint: &str, body: String) -> (c: ApiCall)
        ensures
            c.url@ == self.base_url@ + endpoint@,
            opt_view(c.authorization) == authorization_of(self.api_token@),
            c.body == body,
    {
        let mut url = self.base_url.clone();
        push_str(&mut url, endpoint);
        let authorization = if self.api_token.as_str().is_empty() {
            None
        } else {
            let mut h = String::new();
            push_str(&mut h, "Token ");
            push_str(&mut h, self.api_token.as_str());
            Some(h)
        };
        ApiCall { url, authorization, body }
    }

    /// Lists the notebooks.
    pub fn list_notebooks(&self) -> (c: ApiCall)
        ensures
            c.url@ == self.base() + "/api/notebook/lsNotebooks"@,
            opt_view(c.authorization) == authorization_of(self.token()),
            c.body@ == "null"@,
    {
        self.call("/api/notebook/lsNotebooks", ListNotebooksRequest.to_json())
    }

    /// Inserts a block before `next_id`, after `previous_id` or under `parent_id`.
    pub fn insert_block(&self, data: &str, data_type: &str, next_id: Option<&str>, previous_id: Option<&str>, parent_id: Option<&str>) -> (c: ApiCall)
        ensures
            c.url@ == self.base() + "/api/block/insertBlock"@,
            opt_view(c.authorization) == authorization_of(self.token()),
            c.body@ == insert_block_request_body(data_type@, data@, opt_str_view(next_id), opt_str_view(previous_id), opt_str_view(parent_id)),
    {
        let req = InsertBlockRequest { data_type: data_type.to_owned(), data: data.to_owned(), next_id: owned_opt(next_id), previous_id: owned_opt(previous_id), parent_id: owned_opt(parent_id) };
        self.call("/api/block/insertBlock", req.to_json())
    }

    /// Inserts a block as the first child of `parent_id`.
    pub fn prepend_block(&self, data: &str, data_type: &str, parent_id: &str) -> (c: ApiCall)
        ensures
            c.url@ == self.base() + "/api/block/prependBlock"@,
            opt_view(c.authorization) == authorization_of(self.token()),
            c.body@ == prepend_block_request_body(data@, data_type@, parent_id@),
    {
        let req = PrependBlockRequest { data: data.to_owned(), data_type: data_type.to_owned(), parent_id: parent_id.to_owned() };
        self.call("/api/block/prependBlock", req.to_json())
    }

    /// Inserts a block as the last child of `parent_id`.
    pub fn append_block(&self, data: &str, data_type: &str, parent_id: &str) -> (c: ApiCall)
        ensures
            c.url@ == self.base() + "/api/block/appendBlock"@,
            opt_view(c.authorization) == authorization_of(self.token()),
            c.body@ == append_block_request_body(data@, data_type@, parent_id@),
    {
        let req = AppendBlockRequest { data: data.to_owned(), data_type: data_type.to_owned(), parent_id: parent_id.to_owned() };
        self.call("/api/block/appendBlock", req.to_json())
    }

    /// Replaces a block's content.
    pub fn update_block(&self, block_id: &str, data: &str, data_type: &str) -> (c: ApiCall)
        ensures
            c.url@ == self.base() + "/api/block/updateBlock"@,
            opt_view(c.authorization) == authorization_of(self.token()),
            c.body@ == update_block_request_body(block_id@, data_type@, data@),
    {
        let req = UpdateBlockRequest { id: block_id.to_owned(), data_type: data_type.to_owned(), data: data.to_owned() };
        self.call("/api/block/updateBlock", req.to_json())
    }

    /// Deletes a block.
    pub fn delete_block(&self, block_id: &str) -> (c: ApiCall)
        ensures
            c.url@ == self.base() + "/api/block/deleteBlock"@,
            opt_view(c.authorization) == authorization_of(self.token()),
            c.body@ == delete_block_request_body(block_id@),
    {
        let req = DeleteBlockRequest { id: block_id.to_owned() };
        self.call("/api/block/deleteBlock", req.to_json())
    }

    /// Moves a block after `previous_id` or under `parent_id`.
    pub fn move_block(&self, block_id: &str, previous_id: Option<&str>, parent_id: Option<&str>) -> (c: ApiCall)
        ensures
            c.url@ == self.base() + "/api/block/moveBlock"@,
            opt_view(c.authorization) == authorization_of(self.token()),
            c.body@ == move_block_request_body(block_id@, opt_str_view(previous_id), opt_str_view(parent_id)),
    {
        let req = MoveBlockRequest { id: block_id.to_owned(), previous_id: owned_opt(previous_id), parent_id: owned_opt(parent_id) };
        self.call("/api/block/moveBlock", req.to_json())
    }

    /// Folds a block.
    pub fn fold_block(&self, block_id: &str) -> (c: ApiCall)
        ensures
            c.url@ == self.base() + "/api/block/foldBlock"@,
            opt_view(c.authorization) == authorization_of(self.token()),
            c.body@ == fold_block_request_body(block_id@),
    {
        let req = FoldBlockRequest { id: block_id.to_owned() };
        self.call("/api/block/foldBlock", req.to_json())
    }

    /// Unfolds a block.
    pub fn unfold_block(&self, block_id: &str) -> (c: ApiCall)
        ensures
            c.url@ == self.base() + "/api/block/unfoldBlock"@,
            opt_view(c.authorization) == authorization_of(self.token()),
            c.body@ == unfold_block_request_body(block_id@),
    {
        let req = UnfoldBlockRequest { id: block_id.to_owned() };
        self.call("/api/block/unfoldBlock", req.to_json())
    }

    /// Gets a block's kramdown source.
    pub fn get_block_kramdown(&self, block_id: &str) -> (c: ApiCall)
        ensures
            c.url@ == self.base() + "/api/block/getBlockKramdown"@,
            opt_view(c.authorization) == authorization_of(self.token()),
            c.body@ == get_block_kramdown_request_body(block_id@),
    {
        let req = GetBlockKramdownRequest { id: block_id.to_owned() };
        self.call("/api/block/getBlockKramdown", req.to_json())
    }

    /// Gets a block's children.
    pub fn get_child_blocks(&self, parent_id: &str) -> (c: ApiCall)
        ensures
            c.url@ == self.base() + "/api/block/getChildBlocks"@,
            opt_view(c.authorization) == authorization_of(self.token()),
            c.body@ == get_child_blocks_request_body(parent_id@),
    {
        let req = GetChildBlocksRequest { id: parent_id.to_owned() };
        self.call("/api/block/getChildBlocks", req.to_json())
    }

    /// Moves references from one block to another.
    pub fn transfer_block_ref(&self, from_id: &str, to_id: &str, ref_ids: Option<Vec<String>>) -> (c: ApiCall)
        ensures
            c.url@ == self.base() + "/api/block/transferBlockRef"@,
            opt_view(c.authorization) == authorization_of(self.token()),
            c.body@ == transfer_block_ref_request_body(from_id@, to_id@, opt_strings_view(ref_ids)),
    {
        let req = TransferBlockRefRequest { from_id: from_id.to_owned(), to_id: to_id.to_owned(), ref_ids: ref_ids };
        self.call("/api/block/transferBlockRef", req.to_json())
    }

    /// Creates a document from markdown.
    pub fn create_doc(&self, notebook_id: &str, path: &str, markdown: &str) -> (c: ApiCall)
        ensures
            c.url@ == self.base() + "/api/filetree/createDocWithMd"@,
            opt_view(c.authorization) == authorization_of(self.token()),
            c.body@ == create_doc_request_body(notebook_id@, path@, markdown@),
    {
        let req = CreateDocRequest { notebook: notebook_id.to_owned(), path: path.to_owned(), markdown: markdown.to_owned() };
        self.call("/api/filetree/createDocWithMd", req.to_json())
    }

    /// Renames a document by path.
    pub fn rename_doc(&self, notebook_id: &str, path: &str, new_title: &str) -> (c: ApiCall)
        ensures
            c.url@ == self.base() + "/api/filetree/renameDoc"@,
            opt_view(c.authorization) == authorization_of(self.token()),
            c.body@ == rename_doc_request_body(notebook_id@, path@, new_title@),
    {
        let req = RenameDocRequest { notebook: notebook_id.to_owned(), path: path.to_owned(), title: new_title.to_owned() };
        self.call("/api/filetree/renameDoc", req.to_json())
    }

    /// Renames a document by id.
    pub fn rename_doc_by_id(&self, doc_id: &str, new_title: &str) -> (c: ApiCall)
        ensures
            c.url@ == self.base() + "/api/filetree/renameDocByID"@,
            opt_view(c.authorization) == authorization_of(self.token()),
            c.body@ == rename_doc_by_id_request_body(doc_id@, new_title@),
    {
        let req = RenameDocByIDRequest { id: doc_id.to_owned(), title: new_title.to_owned() };
        self.call("/api/filetree/renameDocByID", req.to_json())
    }

    /// Removes a document by path.
    pub fn remove_doc(&self, notebook_id: &str, path: &str) -> (c: ApiCall)
        ensures
            c.url@ == self.base() + "/api/filetree/removeDoc"@,
            opt_view(c.authorization) == authorization_of(self.token()),
            c.body@ == remove_doc_request_body(notebook_id@, path@),
    {
        let req = RemoveDocRequest { notebook: notebook_id.to_owned(), path: path.to_owned() };
        self.call("/api/filetree/removeDoc", req.to_json())
    }

    /// Removes a document by id.
    pub fn remove_doc_by_id(&self, doc_id: &str) -> (c: ApiCall)
        ensures
            c.url@ == self.base() + "/api/filetree/removeDocByID"@,
            opt_view(c.authorization) == authorization_of(self.token()),
            c.body@ == remove_doc_by_id_request_body(doc_id@),
    {
        let req = RemoveDocByIDRequest { id: doc_id.to_owned() };
        self.call("/api/filetree/removeDocByID", req.to_json())
    }

    /// Moves documents by path.
    pub fn move_docs(&self, from_paths: &[&str], to_notebook_id: &str, to_path: &str) -> (c: ApiCall)
        ensures
            c.url@ == self.base() + "/api/filetree/moveDocs"@,
            opt_view(c.authorization) == authorization_of(self.token()),
            c.body@ == move_docs_request_body(slices_view(from_paths@), to_notebook_id@, to_path@),
    {
        let req = MoveDocsRequest { from_paths: owned_all(from_paths), to_notebook: to_notebook_id.to_owned(), to_path: to_path.to_owned() };
        self.call("/api/filetree/moveDocs", req.to_json())
    }

    /// Moves documents by id.
    pub fn move_docs_by_id(&self, from_ids: &[&str], to_id: &str) -> (c: ApiCall)
        ensures
            c.url@ == self.base() + "/api/filetree/moveDocsByID"@,
            opt_view(c.authorization) == authorization_of(self.token()),
            c.body@ == move_docs_by_id_request_body(slices_view(from_ids@), to_id@),
    {
        let req = MoveDocsByIDRequest { from_ids: owned_all(from_ids), to_id: to_id.to_owned() };
        self.call("/api/filetree/moveDocsByID", req.to_json())
    }

    /// Gets a document's readable path from its storage path.
    pub fn get_hpath_by_path(&self, notebook_id: &str, path: &str) -> (c: ApiCall)
        ensures
            c.url@ == self.base() + "/api/filetree/getHPathByPath"@,
            opt_view(c.authorization) == authorization_of(self.token()),
            c.body@ == get_h_path_by_path_request_body(notebook_id@, path@),
    {
        let req = GetHPathByPathRequest { notebook: notebook_id.to_owned(), path: path.to_owned() };
        self.call("/api/filetree/getHPathByPath", req.to_json())
    }

    /// Gets a block's readable path.
    pub fn get_hpath_by_id(&self, block_id: &str) -> (c: ApiCall)
        ensures
            c.url@ == self.base() + "/api/filetree/getHPathByID"@,
            opt_view(c.authorization) == authorization_of(self.token()),
            c.body@ == get_h_path_by_id_request_body(block_id@),
    {
        let req = GetHPathByIDRequest { id: block_id.to_owned() };
        self.call("/api/filetree/getHPathByID", req.to_json())
    }

    /// Gets a block's storage path.
    pub fn get_path_by_id(&self, block_id: &str) -> (c: ApiCall)
        ensures
            c.url@ == self.base() + "/api/filetree/getPathByID"@,
            opt_view(c.authorization) == authorization_of(self.token()),
            c.body@ == get_path_by_id_request_body(block_id@),
    {
        let req = GetPathByIDRequest { id: block_id.to_owned() };
        self.call("/api/filetree/getPathByID", req.to_json())
    }

    /// Gets the ids of the documents at a readable path.
    pub fn get_ids_by_hpath(&self, path: &str, notebook_id: &str) -> (c: ApiCall)
        ensures
            c.url@ == self.base() + "/api/filetree/getIDsByHPath"@,
            opt_view(c.authorization) == authorization_of(self.token()),
            c.body@ == get_i_ds_by_h_path_request_body(path@, notebook_id@),
    {
        let req = GetIDsByHPathRequest { path: path.to_owned(), notebook: notebook_id.to_owned() };
        self.call("/api/filetree/getIDsByHPath", req.to_json())
    }

    /// Opens a notebook.
    pub fn open_notebook(&self, notebook_id: &str) -> (c: ApiCall)
        ensures
            c.url@ == self.base() + "/api/notebook/openNotebook"@,
            opt_view(c.authorization) == authorization_of(self.token()),
            c.body@ == open_notebook_request_body(notebook_id@),
    {
        let req = OpenNotebookRequest { notebook: notebook_id.to_owned() };
        self.call("/api/notebook/openNotebook", req.to_json())
    }

    /// Closes a notebook.
    pub fn close_notebook(&self, notebook_id: &str) -> (c: ApiCall)
        ensures
            c.url@ == self.base() + "/api/notebook/closeNotebook"@,
            opt_view(c.authorization) == authorization_of(self.token()),
            c.body@ == close_notebook_request_body(notebook_id@),
    {
        let req = CloseNotebookRequest { notebook: notebook_id.to_owned() };
        self.call("/api/notebook/closeNotebook", req.to_json())
    }

    /// Creates a notebook.
    pub fn create_notebook(&self, name: &str) -> (c: ApiCall)
        ensures
            c.url@ == self.base() + "/api/notebook/createNotebook"@,
            opt_view(c.authorization) == authorization_of(self.token()),
            c.body@ == create_notebook_request_body(name@),
    {
        let req = CreateNotebookRequest { name: name.to_owned() };
        self.call("/api/notebook/createNotebook", req.to_json())
    }

    /// Renames a notebook.
    pub fn rename_notebook(&self, notebook_id: &str, new_name: &str) -> (c: ApiCall)
        ensures
            c.url@ == self.base() + "/api/notebook/renameNotebook"@,
            opt_view(c.authorization) == authorization_of(self.token()),
            c.body@ == rename_notebook_request_body(notebook_id@, new_name@),
    {
        let req = RenameNotebookRequest { notebook: notebook_id.to_owned(), name: new_name.to_owned() };
        self.call("/api/notebook/renameNotebook", req.to_json())
    }

    /// Removes a notebook and all its documents.
    pub fn remove_notebook(&self, notebook_id: &str) -> (c: ApiCall)
        ensures
            c.url@ == self.base() + "/api/notebook/removeNotebook"@,
            opt_view(c.authorization) == authorization_of(self.token()),
            c.body@ == remove_notebook_request_body(notebook_id@),
    {
        let req = RemoveNotebookRequest { notebook: notebook_id.to_owned() };
        self.call("/api/notebook/removeNotebook", req.to_json())
    }

    /// Gets a notebook's configuration.
    pub fn get_notebook_conf(&self, notebook_id: &str) -> (c: ApiCall)
        ensures
            c.url@ == self.base() + "/api/notebook/getNotebookConf"@,
            opt_view(c.authorization) == authorization_of(self.token()),
            c.body@ == get_notebook_conf_request_body(notebook_id@),
    {
        let req = GetNotebookConfRequest { notebook: notebook_id.to_owned() };
        self.call("/api/notebook/getNotebookConf", req.to_json())
    }

    /// Sets a notebook's configuration.
    pub fn set_notebook_conf(&self, notebook_id: &str, conf: NotebookConfUpdate) -> (c: ApiCall)
        ensures
            c.url@ == self.base() + "/api/notebook/setNotebookConf"@,
            opt_view(c.authorization) == authorization_of(self.token()),
            c.body@ == set_notebook_conf_request_body(notebook_id@, conf),
    {
        let req = SetNotebookConfRequest { notebook: notebook_id.to_owned(), conf: conf };
        self.call("/api/notebook/setNotebookConf", req.to_json())
    }
}

} // verus!
