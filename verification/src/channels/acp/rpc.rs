//! JSON-RPC errors of the ACP protocol, and the prompt given to the agent
//! in Zed mode.
use vstd::prelude::*;
use crate::text::{chars_of, push_chars, push_str, trim, trim_exec};

verus! {

/// A JSON value (`serde_json::Value`).
#[verifier::external_type_specification]
#[verifier::external_body]
pub struct ExJsonValue(serde_json::Value);

/// A JSON-RPC error.
#[derive(Debug, Clone)]
pub struct JsonRpcError {
    /// The error code.
    pub code: i64,
    /// What went wrong.
    pub message: String,
    /// Further data, where there is any.
    pub data: Option<serde_json::Value>,
}

impl JsonRpcError {
    /// Invalid JSON was received.
    pub const PARSE_ERROR_CODE: i64 = -32700;
    /// The JSON sent is not a valid request.
    pub const INVALID_REQUEST_CODE: i64 = -32600;
    /// The method does not exist.
    pub const METHOD_NOT_FOUND_CODE: i64 = -32601;
    /// Invalid method parameters.
    pub const INVALID_PARAMS_CODE: i64 = -32602;
    /// Internal JSON-RPC error.
    pub const INTERNAL_ERROR_CODE: i64 = -32603;

    /// An error with `code` and `message` and no data.
    pub fn new(code: i64, message: &str) -> (e: Self)
        ensures
            e.code == code,
            e.message@ == message@,
            e.data is None,
    {
        JsonRpcError { code, message: message.to_owned(), data: None }
    }

    /// `Parse error` (-32700).
    pub fn parse_error() -> (e: Self)
        ensures
            e.code == -32700,
            e.message@ == "Parse error"@,
            e.data is None,
    {
        Self::new(Self::PARSE_ERROR_CODE, "Parse error")
    }

    /// `Invalid Request` (-32600).
    pub fn invalid_request() -> (e: Self)
        ensures
            e.code == -32600,
            e.message@ == "Invalid Request"@,
            e.data is None,
    {
        Self::new(Self::INVALID_REQUEST_CODE, "Invalid Request")
    }

    /// `Method not found` (-32601).
    pub fn method_not_found() -> (e: Self)
        ensures
            e.code == -32601,
            e.message@ == "Method not found"@,
            e.data is None,
    {
        Self::new(Self::METHOD_NOT_FOUND_CODE, "Method not found")
    }

    /// `Invalid params` (-32602).
    pub fn invalid_params() -> (e: Self)
        ensures
            e.code == -32602,
            e.message@ == "Invalid params"@,
            e.data is None,
    {
        Self::new(Self::INVALID_PARAMS_CODE, "Invalid params")
    }

    /// `Internal error` (-32603).
    pub fn internal_error() -> (e: Self)
        ensures
            e.code == -32603,
            e.message@ == "Internal error"@,
            e.data is None,
    {
        Self::new(Self::INTERNAL_ERROR_CODE, "Internal error")
    }

    /// An internal error (-32603) with its own message.
    pub fn internal_error_with_message(message: &str) -> (e: Self)
        ensures
            e.code == -32603,
            e.message@ == message@,
            e.data is None,
    {
        Self::new(Self::INTERNAL_ERROR_CODE, message)
    }
}

/// The instructions that tell the agent about Zed commands.
pub open spec fn zed_instructions() -> Seq<char> {
    "You are running in Zed Editor ACP mode. You can control the editor using special commands:\n- [[ZED:open:path/to/file]] - Open a file\n- [[ZED:open:path/to/file:42]] - Open file at line 42\n- [[ZED:scroll:100]] - Scroll to line 100\n- [[ZED:highlight:10:20]] - Highlight lines 10-20\n- [[ZED:info:message]] - Show info notification\n- [[ZED:warn:message]] - Show warning\n- [[ZED:error:message]] - Show error\n\nWhen you need to show code or point to a specific location, use these commands."@
}

/// The prompt for Zed mode: the Zed command instructions, a blank line,
/// then the user's prompt.
pub fn build_prompt_with_zed_instructions(prompt: &str) -> (r: String)
    ensures
        r@ == zed_instructions() + "\n\n"@ + prompt@,
{
    let mut r = String::new();
    push_str(&mut r, "You are running in Zed Editor ACP mode. You can control the editor using special commands:\n- [[ZED:open:path/to/file]] - Open a file\n- [[ZED:open:path/to/file:42]] - Open file at line 42\n- [[ZED:scroll:100]] - Scroll to line 100\n- [[ZED:highlight:10:20]] - Highlight lines 10-20\n- [[ZED:info:message]] - Show info notification\n- [[ZED:warn:message]] - Show warning\n- [[ZED:error:message]] - Show error\n\nWhen you need to show code or point to a specific location, use these commands.");
    push_str(&mut r, "\n\n");
    push_str(&mut r, prompt);
    r
}

/// The prompt with the instructions of the requested skills put before it:
/// the prompt alone where those instructions are empty, else the
/// instructions trimmed, a blank line, `User request: ` and the prompt.
pub open spec fn skills_prompt_view(prompt: Seq<char>, skills_prompt: Seq<char>) -> Seq<char> {
    if skills_prompt.len() == 0 {
        prompt
    } else {
        trim(skills_prompt) + "\n\nUser request: "@ + prompt
    }
}

/// `prompt` enriched with `skills_prompt`, the instructions of the skills
/// that the request named, in the form the skills loader gives them.
pub fn build_prompt_with_skills(prompt: &str, skills_prompt: &str) -> (r: String)
    ensures
        r@ == skills_prompt_view(prompt@, skills_prompt@),
{
    let cs = chars_of(skills_prompt);
    if cs.len() == 0 {
        return prompt.to_owned();
    }
    let t = trim_exec(cs.as_slice());
    let mut r = String::new();
    push_chars(&mut r, t.as_slice());
    push_str(&mut r, "\n\nUser request: ");
    push_str(&mut r, prompt);
    r
}

} // verus!
