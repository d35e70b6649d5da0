use zeroclaw::channels::siyuan::block::{BlockDataType, InsertBlockRequest, TransferBlockRefRequest};
use zeroclaw::channels::siyuan::client::SiyuanClient;
use zeroclaw::channels::siyuan::document::{CreateDocRequest, MoveDocsRequest};
use zeroclaw::channels::siyuan::notebook::{ListNotebooksRequest, NotebookConfUpdate};
use zeroclaw::channels::siyuan::types::{BlockType, SiyuanError, SiyuanResponse};

#[test]
fn test_insert_block_request_serialization() {
    let req = InsertBlockRequest {
        data_type: "markdown".into(),
        data: "**bold**".into(),
        next_id: None,
        previous_id: Some("prev-id".into()),
        parent_id: None,
    };
    let result = req.to_json();
    let v: serde_json::Value = serde_json::from_str(&result).unwrap();
    assert_eq!(v["previousID"], "prev-id");
    assert!(v["nextID"].is_null());
    assert_eq!(
        result,
        "{\"dataType\":\"markdown\",\"data\":\"**bold**\",\"nextID\":null,\"previousID\":\"prev-id\",\"parentID\":null}"
    );
}

#[test]
fn test_create_doc_request_serialization() {
    let req = CreateDocRequest { notebook: "test-nb".into(), path: "/test/doc".into(), markdown: "# Test".into() };
    let result = req.to_json();
    assert!(result.contains("test-nb"));
    assert_eq!(result, "{\"notebook\":\"test-nb\",\"path\":\"/test/doc\",\"markdown\":\"# Test\"}");
}

#[test]
fn test_list_notebooks_request_serialization() {
    let result = ListNotebooksRequest.to_json();
    assert_eq!(result, "null");
}

#[test]
fn lists_and_booleans_serialise() {
    let m = MoveDocsRequest { from_paths: vec!["/a".into(), "/b".into()], to_notebook: "nb".into(), to_path: "/".into() };
    assert_eq!(m.to_json(), "{\"fromPaths\":[\"/a\",\"/b\"],\"toNotebook\":\"nb\",\"toPath\":\"/\"}");
    let t = TransferBlockRefRequest { from_id: "x".into(), to_id: "y".into(), ref_ids: None };
    assert_eq!(t.to_json(), "{\"fromID\":\"x\",\"toID\":\"y\",\"refIDs\":null}");
    let c = NotebookConfUpdate {
        name: "N".into(),
        closed: true,
        ref_create_save_path: "".into(),
        create_doc_name_template: "t".into(),
        daily_note_save_path: "d".into(),
        daily_note_template_path: "".into(),
    };
    let v: serde_json::Value = serde_json::from_str(&c.to_json()).unwrap();
    assert_eq!(v["closed"], true);
    assert_eq!(v["createDocNameTemplate"], "t");
    assert_eq!(BlockDataType::default().as_str(), "markdown");
    assert_eq!(BlockType::ListItem.as_str(), "listitem");
}

#[test]
fn test_client_creates_with_token() {
    let client = SiyuanClient::new("test-token".into());
    assert_eq!(client.api_token(), "test-token");
    assert_eq!(client.base_url(), "http://localhost:6806");
}

#[test]
fn client_builds_calls() {
    let client = SiyuanClient::new("tok".into());
    let call = client.insert_block("hi", "markdown", None, Some("p"), None);
    assert_eq!(call.url, "http://localhost:6806/api/block/insertBlock");
    assert_eq!(call.authorization, Some("Token tok".to_string()));
    assert_eq!(
        call.body,
        "{\"dataType\":\"markdown\",\"data\":\"hi\",\"nextID\":null,\"previousID\":\"p\",\"parentID\":null}"
    );
    let anon = SiyuanClient::with_settings(None, Some("http://h:1".into()));
    let moved = anon.move_docs_by_id(&["a", "b"], "c");
    assert_eq!(moved.url, "http://h:1/api/filetree/moveDocsByID");
    assert_eq!(moved.authorization, None);
    assert_eq!(moved.body, "{\"fromIDs\":[\"a\",\"b\"],\"toID\":\"c\"}");
    assert_eq!(anon.list_notebooks().body, "null");
}

#[test]
fn response_envelope_into_result() {
    let ok = SiyuanResponse { code: 0, msg: String::new(), data: Some(5) };
    assert!(ok.is_success());
    assert_eq!(ok.into_result(), Ok(5));
    let empty: SiyuanResponse<u8> = SiyuanResponse { code: 0, msg: String::new(), data: None };
    assert_eq!(empty.into_result(), Err(SiyuanError::MissingData));
    let bad: SiyuanResponse<u8> = SiyuanResponse { code: -1, msg: "boom".into(), data: Some(1) };
    assert!(!bad.is_success());
    assert_eq!(bad.into_result(), Err(SiyuanError::Api { msg: "boom".into(), code: -1 }));
}

#[test]
fn error_messages() {
    let r: SiyuanResponse<i32> = SiyuanResponse { code: -1, msg: "bad".to_string(), data: None };
    assert_eq!(r.into_result().unwrap_err().message(), "SiYuan API error: bad (code -1)");
    let r: SiyuanResponse<i32> = SiyuanResponse { code: 0, msg: String::new(), data: None };
    assert_eq!(r.into_result().unwrap_err().message(), "Success response missing data");
    let r: SiyuanResponse<i32> = SiyuanResponse { code: 0, msg: String::new(), data: Some(7) };
    assert_eq!(r.into_result(), Ok(7));
}
