//! The ACP handler's decisions: which lines are requests, what each method
//! answers, the JSON-RPC framing of the answers, and the messages of a prompt
//! answered at once or streamed in pieces.
use vstd::prelude::*;
use crate::channels::acp::commands::{commands_view, parse_zed_commands, zed_scan, ZedCommand, ZedCommandView};
use crate::channels::acp::streaming::{commands_json, final_message, final_message_exec};
use crate::clock::{is_hyphenated_uuid, new_uuid_v4};
use crate::json::{array, array_exec, json_i64_exec, json_str, member, member_exec, object, object_exec, signed_decimal};
use crate::text::{
    lemma_join_append,    chars_of, decimal, join, lines, push_str, seqs_of, slice_chars, str_byte_len, string_of, trim, trim_exec, utf8_bytes,
};
use crate::channels::siyuan::types::str_json;
use crate::tui::subsystems::eq_str;

verus! {

/// A method of the protocol.
#[derive(Debug, Clone, Copy, PartialEq, Eq, Structural)]
pub enum AcpMethod {
    Initialize,
    TextAppend,
    TextComplete,
    Prompt,
    Shutdown,
    /// Any other name.
    Unknown,
}

/// The method named `m`.
pub open spec fn method_of(m: Seq<char>) -> AcpMethod {
    if m == "initialize"@ {
        AcpMethod::Initialize
    } else if m == "text/append"@ {
        AcpMethod::TextAppend
    } else if m == "text/complete"@ {
        AcpMethod::TextComplete
    } else if m == "prompt"@ {
        AcpMethod::Prompt
    } else if m == "shutdown"@ {
        AcpMethod::Shutdown
    } else {
        AcpMethod::Unknown
    }
}

/// The method named `m`.
pub fn parse_method(m: &str) -> (r: AcpMethod)
    ensures
        r == method_of(m@),
{
    if eq_str(m, "initialize") {
        AcpMethod::Initialize
    } else if eq_str(m, "text/append") {
        AcpMethod::TextAppend
    } else if eq_str(m, "text/complete") {
        AcpMethod::TextComplete
    } else if eq_str(m, "prompt") {
        AcpMethod::Prompt
    } else if eq_str(m, "shutdown") {
        AcpMethod::Shutdown
    } else {
        AcpMethod::Unknown
    }
}

/// A line of input holds a request unless it is blank or, trimmed, starts
/// with `#`.
pub open spec fn is_request_line(line: Seq<char>) -> bool {
    let t = trim(line);
    t.len() > 0 && t[0] != '#'
}

/// Whether a line of input holds a request.
pub fn is_request_line_exec(line: &str) -> (r: bool)
    ensures
        r == is_request_line(line@),
{
    let cs = chars_of(line);
    let t = trim_exec(cs.as_slice());
    t.len() > 0 && t[0] != '#'
}

/// `true` or `false` in JSON.
pub open spec fn json_bool(b: bool) -> Seq<char> {
    if b {
        "true"@
    } else {
        "false"@
    }
}

fn json_bool_exec(b: bool) -> (r: Vec<char>)
    ensures
        r@ == json_bool(b),
{
    if b {
        chars_of("true")
    } else {
        chars_of("false")
    }
}

/// The result of `initialize`: the protocol version, the server's name and
/// `version`, and its capabilities.
pub open spec fn initialize_json(version: Seq<char>) -> Seq<char> {
    object(
        seq![
            member(
                "capabilities"@,
                object(
                    seq![
                        member("memory"@, json_bool(true)),
                        member("streaming"@, json_bool(true)),
                        member("tools"@, json_bool(true)),
                    ],
                ),
            ),
            member("protocolVersion"@, json_str("2024-11-05"@)),
            member(
                "serverInfo"@,
                object(seq![member("name"@, json_str("ZeroClaw"@)), member("version"@, json_str(version))]),
            ),
        ],
    )
}

/// The result of `initialize` for a server of `version`.
pub fn initialize_result(version: &str) -> (r: String)
    ensures
        r@ == initialize_json(version@),
{
    let mut caps: Vec<Vec<char>> = Vec::new();
    caps.push(member_exec("memory", json_bool_exec(true)));
    caps.push(member_exec("streaming", json_bool_exec(true)));
    caps.push(member_exec("tools", json_bool_exec(true)));
    let mut info: Vec<Vec<char>> = Vec::new();
    info.push(member_exec("name", str_json("ZeroClaw")));
    info.push(member_exec("version", str_json(version)));
    let mut top: Vec<Vec<char>> = Vec::new();
    top.push(member_exec("capabilities", object_exec(&caps)));
    top.push(member_exec("protocolVersion", str_json("2024-11-05")));
    top.push(member_exec("serverInfo", object_exec(&info)));
    assert(seqs_of(caps@) =~= seq![
        member("memory"@, json_bool(true)),
        member("streaming"@, json_bool(true)),
        member("tools"@, json_bool(true)),
    ]);
    assert(seqs_of(info@) =~= seq![member("name"@, json_str("ZeroClaw"@)), member("version"@, json_str(version@))]);
    let ghost c = object(seqs_of(caps@));
    let ghost i = object(seqs_of(info@));
    assert(seqs_of(top@) =~= seq![
        member("capabilities"@, c),
        member("protocolVersion"@, json_str("2024-11-05"@)),
        member("serverInfo"@, i),
    ]);
    let o = object_exec(&top);
    string_of(o.as_slice())
}

/// A one-member JSON object.
pub open spec fn single(key: Seq<char>, value: Seq<char>) -> Seq<char> {
    object(seq![member(key, value)])
}

fn single_exec(key: &str, value: Vec<char>) -> (r: String)
    ensures
        r@ == single(key@, value@),
{
    let mut m: Vec<Vec<char>> = Vec::new();
    m.push(member_exec(key, value));
    assert(seqs_of(m@) =~= seq![member(key@, value@)]);
    let o = object_exec(&m);
    string_of(o.as_slice())
}

/// The result of `text/append`: accepted, with the pending text's length in
/// bytes.
pub open spec fn append_json(length: nat) -> Seq<char> {
    object(seq![member("accepted"@, json_bool(true)), member("length"@, decimal(length))])
}

/// The result of `shutdown`.
pub open spec fn shutdown_json() -> Seq<char> {
    single("shutdown"@, json_bool(true))
}

/// The result of `prompt`: streaming done, or the error that stopped it.
pub open spec fn prompt_ack_json(outcome: Result<(), Seq<char>>) -> Seq<char> {
    match outcome {
        Ok(()) => single("status"@, json_str("streaming"@)),
        Err(e) => object(seq![member("error"@, json_str(e)), member("status"@, json_str("error"@))]),
    }
}

/// The result of `prompt` once streaming has ended, or failed with a
/// message.
pub fn prompt_ack(outcome: Result<(), String>) -> (r: String)
    ensures
        r@ == prompt_ack_json(
            match outcome {
                Ok(()) => Ok(()),
                Err(e) => Err(e@),
            },
        ),
{
    match outcome {
        Ok(()) => single_exec("status", str_json("streaming")),
        Err(e) => {
            let mut m: Vec<Vec<char>> = Vec::new();
            m.push(member_exec("error", str_json(e.as_str())));
            m.push(member_exec("status", str_json("error")));
            assert(seqs_of(m@) =~= seq![member("error"@, json_str(e@)), member("status"@, json_str("error"@))]);
            let o = object_exec(&m);
            string_of(o.as_slice())
        },
    }
}

/// A JSON-RPC response carrying `result`, for the request whose id is
/// `id` (as JSON; `null` where it had none).
pub open spec fn result_response(id: Seq<char>, result: Seq<char>) -> Seq<char> {
    object(seq![member("jsonrpc"@, json_str("2.0"@)), member("id"@, id), member("result"@, result)])
}

/// A JSON-RPC error response with `code` and `message`.
pub open spec fn error_response(id: Seq<char>, code: int, message: Seq<char>) -> Seq<char> {
    object(
        seq![
            member("jsonrpc"@, json_str("2.0"@)),
            member("id"@, id),
            member("error"@, object(seq![member("code"@, signed_decimal(code)), member("message"@, json_str(message))])),
        ],
    )
}

/// The response carrying `result` to the request with id `id_json`.
pub fn rpc_result_response(id_json: &str, result: &str) -> (r: String)
    ensures
        r@ == result_response(id_json@, result@),
{
    let mut m: Vec<Vec<char>> = Vec::new();
    m.push(member_exec("jsonrpc", str_json("2.0")));
    m.push(member_exec("id", chars_of(id_json)));
    m.push(member_exec("result", chars_of(result)));
    assert(seqs_of(m@) =~= seq![member("jsonrpc"@, json_str("2.0"@)), member("id"@, id_json@), member("result"@, result@)]);
    let o = object_exec(&m);
    string_of(o.as_slice())
}

/// The error response with `code` and `message` to the request with id
/// `id_json`.
pub fn rpc_error_response(id_json: &str, code: i64, message: &str) -> (r: String)
    ensures
        r@ == error_response(id_json@, code as int, message@),
{
    let mut e: Vec<Vec<char>> = Vec::new();
    e.push(member_exec("code", json_i64_exec(code)));
    e.push(member_exec("message", str_json(message)));
    let mut m: Vec<Vec<char>> = Vec::new();
    m.push(member_exec("jsonrpc", str_json("2.0")));
    m.push(member_exec("id", chars_of(id_json)));
    m.push(member_exec("error", object_exec(&e)));
    assert(seqs_of(e@) =~= seq![member("code"@, signed_decimal(code as int)), member("message"@, json_str(message@))]);
    let ghost eo = object(seqs_of(e@));
    assert(seqs_of(m@) =~= seq![member("jsonrpc"@, json_str("2.0"@)), member("id"@, id_json@), member("error"@, eo)]);
    let o = object_exec(&m);
    string_of(o.as_slice())
}

/// The response to a line that is not a JSON-RPC request: no id, the parse
/// error code, and `Parse error: ` with the parser's message.
pub fn parse_error_response(error: &str) -> (r: String)
    ensures
        r@ == error_response("null"@, -32700, "Parse error: "@ + error@),
{
    let mut msg = String::new();
    push_str(&mut msg, "Parse error: ");
    push_str(&mut msg, error);
    rpc_error_response("null", crate::channels::acp::rpc::JsonRpcError::PARSE_ERROR_CODE, msg.as_str())
}

/// What the handler does next with a request.
#[derive(Debug, Clone, PartialEq, Eq)]
pub enum AcpStep {
    /// Write `response` as a line; stop reading after it where `shutdown`
    /// holds.
    Respond { response: String, shutdown: bool },
    /// Run the prompt, streaming its progress, then write the result
    /// response of `prompt_ack` with the outcome.
    RunPrompt,
}

/// The handler's state: the text appended so far, and its session's id.
pub struct AcpSession {
    pending_text: String,
    session_id: String,
}

impl AcpSession {
    /// The text appended so far.
    pub closed spec fn pending(&self) -> Seq<char> {
        self.pending_text@
    }

    /// The session's id.
    pub closed spec fn id(&self) -> Seq<char> {
        self.session_id@
    }

    /// A session with a fresh id and no pending text.
    pub fn new() -> (s: Self)
        ensures
            s.pending().len() == 0,
            is_hyphenated_uuid(s.id()),
    {
        AcpSession { pending_text: String::new(), session_id: new_uuid_v4() }
    }

    /// The session's id.
    pub fn session_id(&self) -> (r: &str)
        ensures
            r@ == self.id(),
    {
        self.session_id.as_str()
    }

    /// The text appended so far.
    pub fn pending_text(&self) -> (r: &str)
        ensures
            r@ == self.pending(),
    {
        self.pending_text.as_str()
    }

    /// Handles a request with id `id_json` (as JSON), method `method` and,
    /// where the parameters hold a string `text`, that string. `version` is
    /// the server's version.
    pub fn handle_request(&mut self, id_json: &str, method: &str, text: Option<&str>, version: &str) -> (r: AcpStep)
        ensures
            final(self).id() == old(self).id(),
            match method_of(method@) {
                AcpMethod::TextAppend => match text {
                    Some(t) => final(self).pending() == old(self).pending() + t@,
                    None => final(self).pending() == old(self).pending(),
                },
                _ => final(self).pending() == old(self).pending(),
            },
            match method_of(method@) {
                AcpMethod::Prompt => r is RunPrompt,
                m => r matches AcpStep::Respond { response, shutdown } && shutdown == (m == AcpMethod::Shutdown)
                    && response@ == match m {
                    AcpMethod::Initialize => result_response(id_json@, initialize_json(version@)),
                    AcpMethod::TextAppend => match text {
                        Some(t) => result_response(id_json@, append_json(utf8_bytes(old(self).pending() + t@))),
                        None => error_response(id_json@, -32603, "Missing 'text' parameter in text/append"@),
                    },
                    AcpMethod::TextComplete => result_response(id_json@, single("text"@, json_str(old(self).pending()))),
                    AcpMethod::Shutdown => result_response(id_json@, shutdown_json()),
                    _ => error_response(id_json@, -32603, "Unknown method: "@ + method@),
                },
            },
    {
        let internal = crate::channels::acp::rpc::JsonRpcError::INTERNAL_ERROR_CODE;
        match parse_method(method) {
            AcpMethod::Initialize => {
                let res = initialize_result(version);
                AcpStep::Respond { response: rpc_result_response(id_json, res.as_str()), shutdown: false }
            },
            AcpMethod::TextAppend => match text {
                Some(t) => {
                    push_str(&mut self.pending_text, t);
                    let n = str_byte_len(self.pending_text.as_str());
                    let mut m: Vec<Vec<char>> = Vec::new();
                    m.push(member_exec("accepted", json_bool_exec(true)));
                    m.push(member_exec("length", crate::json::json_u64_exec(n as u64)));
                    assert(seqs_of(m@) =~= seq![
                        member("accepted"@, json_bool(true)),
                        member("length"@, decimal(n as nat)),
                    ]);
                    let o = object_exec(&m);
                    let res = string_of(o.as_slice());
                    AcpStep::Respond { response: rpc_result_response(id_json, res.as_str()), shutdown: false }
                },
                None => AcpStep::Respond {
                    response: rpc_error_response(id_json, internal, "Missing 'text' parameter in text/append"),
                    shutdown: false,
                },
            },
            AcpMethod::TextComplete => {
                let res = single_exec("text", str_json(self.pending_text.as_str()));
                AcpStep::Respond { response: rpc_result_response(id_json, res.as_str()), shutdown: false }
            },
            AcpMethod::Prompt => AcpStep::RunPrompt,
            AcpMethod::Shutdown => {
                let res = single_exec("shutdown", json_bool_exec(true));
                AcpStep::Respond { response: rpc_result_response(id_json, res.as_str()), shutdown: true }
            },
            AcpMethod::Unknown => {
                let mut msg = String::new();
                push_str(&mut msg, "Unknown method: ");
                push_str(&mut msg, method);
                AcpStep::Respond { response: rpc_error_response(id_json, internal, msg.as_str()), shutdown: false }
            },
        }
    }
}

/// The number of characters in each piece of a pseudo-streamed answer.
pub const STREAM_CHUNK_SIZE: usize = 50;

/// `s` cut into pieces of `STREAM_CHUNK_SIZE` characters, the last one
/// possibly shorter.
pub open spec fn char_chunks(s: Seq<char>) -> Seq<Seq<char>>
    decreases s.len(),
{
    if s.len() == 0 {
        Seq::empty()
    } else if s.len() <= STREAM_CHUNK_SIZE {
        seq![s]
    } else {
        seq![s.take(STREAM_CHUNK_SIZE as int)] + char_chunks(s.skip(STREAM_CHUNK_SIZE as int))
    }
}

/// The text of an agent's answer without its Zed command lines.
pub open spec fn cleaned_response(text: Seq<char>) -> Seq<char> {
    join(zed_scan(lines(text)).0, seq!['\n'])
}

/// The Zed commands of an agent's answer, in order.
pub open spec fn response_commands(text: Seq<char>) -> Seq<ZedCommandView> {
    zed_scan(lines(text)).1
}

/// The progress notification carrying one piece of a pseudo-streamed
/// answer, marked where it is the last.
pub open spec fn delta_notification(request_id: Seq<char>, text: Seq<char>, is_last: bool) -> Seq<char> {
    object(
        seq![
            member("jsonrpc"@, json_str("2.0"@)),
            member("method"@, json_str("progress"@)),
            member(
                "params"@,
                object(
                    seq![
                        member("isLast"@, json_bool(is_last)),
                        member("requestId"@, json_str(request_id)),
                        member("text"@, json_str(text)),
                        member("type"@, json_str("text/delta"@)),
                    ],
                ),
            ),
        ],
    )
}

/// The messages of an answer streamed after the fact: its cleaned text in
/// pieces, each as a notification (the last marked), then the completion
/// message with the text and the commands.
pub open spec fn pseudo_stream(request_id: Seq<char>, answer: Seq<char>) -> Seq<Seq<char>> {
    let pieces = char_chunks(cleaned_response(answer));
    Seq::new(pieces.len(), |i: int| delta_notification(request_id, pieces[i], i + 1 == pieces.len())).push(
        final_message(request_id, cleaned_response(answer), response_commands(answer)),
    )
}

fn delta_notification_exec(request_id: &str, text: &str, is_last: bool) -> (r: String)
    ensures
        r@ == delta_notification(request_id@, text@, is_last),
{
    let mut params: Vec<Vec<char>> = Vec::new();
    params.push(member_exec("isLast", json_bool_exec(is_last)));
    params.push(member_exec("requestId", str_json(request_id)));
    params.push(member_exec("text", str_json(text)));
    params.push(member_exec("type", str_json("text/delta")));
    let mut top: Vec<Vec<char>> = Vec::new();
    top.push(member_exec("jsonrpc", str_json("2.0")));
    top.push(member_exec("method", str_json("progress")));
    top.push(member_exec("params", object_exec(&params)));
    assert(seqs_of(params@) =~= seq![
        member("isLast"@, json_bool(is_last)),
        member("requestId"@, json_str(request_id@)),
        member("text"@, json_str(text@)),
        member("type"@, json_str("text/delta"@)),
    ]);
    let ghost p = object(seqs_of(params@));
    assert(seqs_of(top@) =~= seq![
        member("jsonrpc"@, json_str("2.0"@)),
        member("method"@, json_str("progress"@)),
        member("params"@, p),
    ]);
    let o = object_exec(&top);
    string_of(o.as_slice())
}

/// `s` cut into pieces of `STREAM_CHUNK_SIZE` characters.
pub fn char_chunks_exec(s: &[char]) -> (r: Vec<Vec<char>>)
    ensures
        seqs_of(r@) == char_chunks(s@),
{
    let mut r: Vec<Vec<char>> = Vec::new();
    let mut i: usize = 0;
    assert(s@.skip(0) =~= s@);
    while i < s.len()
        invariant
            i <= s@.len(),
            char_chunks(s@) == seqs_of(r@) + char_chunks(s@.skip(i as int)),
        decreases s.len() - i,
    {
        let end: usize = if s.len() - i <= STREAM_CHUNK_SIZE { s.len() } else { i + STREAM_CHUNK_SIZE };
        let piece = slice_chars(s, i, end);
        proof {
            let rest = s@.skip(i as int);
            if rest.len() <= STREAM_CHUNK_SIZE {
                assert(piece@ =~= rest);
                assert(s@.skip(end as int) =~= Seq::<char>::empty());
            } else {
                assert(piece@ =~= rest.take(STREAM_CHUNK_SIZE as int));
                assert(rest.skip(STREAM_CHUNK_SIZE as int) =~= s@.skip(end as int));
            }
        }
        let ghost before = seqs_of(r@);
        r.push(piece);
        assert(seqs_of(r@) =~= before.push(piece@));
        assert(before + char_chunks(s@.skip(i as int)) =~= before.push(piece@) + char_chunks(s@.skip(end as int)));
        i = end;
    }
    assert(s@.skip(s@.len() as int) =~= Seq::<char>::empty());
    assert(seqs_of(r@) + Seq::<Seq<char>>::empty() =~= seqs_of(r@));
    r
}

/// The messages of the agent's `answer` streamed after the fact under
/// `request_id`.
pub fn pseudo_stream_messages(request_id: &str, answer: &str) -> (r: Vec<String>)
    ensures
        r@.map_values(|m: String| m@) == pseudo_stream(request_id@, answer@),
{
    let (cleaned, commands) = parse_zed_commands(answer);
    let cs = chars_of(cleaned.as_str());
    let pieces = char_chunks_exec(cs.as_slice());
    let ghost ps = seqs_of(pieces@);
    let ghost target = Seq::new(ps.len(), |i: int| delta_notification(request_id@, ps[i], i + 1 == ps.len()));
    let mut r: Vec<String> = Vec::new();
    let mut i: usize = 0;
    while i < pieces.len()
        invariant
            i <= pieces@.len(),
            ps == seqs_of(pieces@),
            target == Seq::new(ps.len(), |k: int| delta_notification(request_id@, ps[k], k + 1 == ps.len())),
            r@.map_values(|m: String| m@) == target.take(i as int),
        decreases pieces.len() - i,
    {
        let text = string_of(pieces[i].as_slice());
        let is_last = i + 1 == pieces.len();
        let n = delta_notification_exec(request_id, text.as_str(), is_last);
        let ghost before = r@.map_values(|m: String| m@);
        r.push(n);
        assert(r@.map_values(|m: String| m@) =~= before.push(n@));
        assert(target.take(i + 1) =~= target.take(i as int).push(target[i as int]));
        i += 1;
    }
    assert(target.take(pieces@.len() as int) =~= target);
    let last = final_message_exec(request_id, cleaned.as_str(), &commands);
    let ghost before = r@.map_values(|m: String| m@);
    r.push(last);
    assert(r@.map_values(|m: String| m@) =~= before.push(last@));
    r
}

/// The messages of the agent's `answer` streamed after the fact under a
/// fresh request id.
pub fn pseudo_stream_fresh(answer: &str) -> (r: Vec<String>)
    ensures
        exists|u: Seq<char>| is_hyphenated_uuid(u) && r@.map_values(|m: String| m@) == pseudo_stream(u, answer@),
{
    let id = new_uuid_v4();
    pseudo_stream_messages(id.as_str(), answer)
}

/// The result of a prompt answered at once: the cleaned answer, with its Zed
/// commands where there are some; or the agent's error.
pub open spec fn prompt_result_json(request_id: Seq<char>, outcome: Result<Seq<char>, Seq<char>>) -> Seq<char> {
    match outcome {
        Ok(answer) => {
            let cmds = response_commands(answer);
            object(
                seq![
                    member("requestId"@, json_str(request_id)),
                    member("response"@, json_str(cleaned_response(answer))),
                    member("status"@, json_str("complete"@)),
                ] + if cmds.len() > 0 {
                    seq![member("zedCommands"@, array(commands_json(cmds)))]
                } else {
                    Seq::empty()
                },
            )
        },
        Err(e) => object(
            seq![
                member("error"@, json_str(e)),
                member("requestId"@, json_str(request_id)),
                member("status"@, json_str("error"@)),
            ],
        ),
    }
}

/// The result of a prompt answered at once under `request_id`, from the
/// agent's answer or error.
pub fn prompt_result(request_id: &str, outcome: Result<String, String>) -> (r: String)
    ensures
        r@ == prompt_result_json(
            request_id@,
            match outcome {
                Ok(a) => Ok(a@),
                Err(e) => Err(e@),
            },
        ),
{
    match outcome {
        Ok(answer) => {
            let (cleaned, commands) = parse_zed_commands(answer.as_str());
            let ghost cv = commands_view(commands@);
            let mut m: Vec<Vec<char>> = Vec::new();
            m.push(member_exec("requestId", str_json(request_id)));
            m.push(member_exec("response", str_json(cleaned.as_str())));
            m.push(member_exec("status", str_json("complete")));
            let ghost head = seqs_of(m@);
            if commands.len() > 0 {
                let mut elems: Vec<Vec<char>> = Vec::new();
                let mut i: usize = 0;
                while i < commands.len()
                    invariant
                        0 <= i <= commands@.len(),
                        cv == commands_view(commands@),
                        seqs_of(elems@) == commands_json(cv.take(i as int)),
                    decreases commands.len() - i,
                {
                    let j = commands[i].to_json();
                    let ghost prev = seqs_of(elems@);
                    elems.push(j);
                    assert(seqs_of(elems@) =~= prev.push(j@));
                    assert(cv.take(i + 1) =~= cv.take(i as int).push(cv[i as int]));
                    assert(commands_json(cv.take(i + 1)) =~= commands_json(cv.take(i as int)).push(
                        crate::channels::acp::commands::command_json(cv[i as int]),
                    ));
                    i += 1;
                }
                assert(cv.take(commands@.len() as int) =~= cv);
                m.push(member_exec("zedCommands", array_exec(&elems)));
                assert(seqs_of(m@) =~= head + seq![member("zedCommands"@, array(commands_json(cv)))]);
            } else {
                assert(seqs_of(m@) =~= head + Seq::<Seq<char>>::empty());
            }
            assert(head =~= seq![
                member("requestId"@, json_str(request_id@)),
                member("response"@, json_str(cleaned@)),
                member("status"@, json_str("complete"@)),
            ]);
            let o = object_exec(&m);
            string_of(o.as_slice())
        },
        Err(e) => {
            let mut m: Vec<Vec<char>> = Vec::new();
            m.push(member_exec("error", str_json(e.as_str())));
            m.push(member_exec("requestId", str_json(request_id)));
            m.push(member_exec("status", str_json("error")));
            assert(seqs_of(m@) =~= seq![
                member("error"@, json_str(e@)),
                member("requestId"@, json_str(request_id@)),
                member("status"@, json_str("error"@)),
            ]);
            let o = object_exec(&m);
            string_of(o.as_slice())
        },
    }
}

/// The progress notification sent when streaming a prompt fails with `e`.
pub open spec fn error_notification(request_id: Seq<char>, e: Seq<char>) -> Seq<char> {
    object(
        seq![
            member("jsonrpc"@, json_str("2.0"@)),
            member("method"@, json_str("progress"@)),
            member(
                "params"@,
                object(
                    seq![
                        member("error"@, json_str(e)),
                        member("requestId"@, json_str(request_id)),
                        member("type"@, json_str("error"@)),
                    ],
                ),
            ),
        ],
    )
}

/// The notification that streaming the prompt `request_id` failed with `e`.
pub fn error_notification_exec(request_id: &str, e: &str) -> (r: String)
    ensures
        r@ == error_notification(request_id@, e@),
{
    let mut params: Vec<Vec<char>> = Vec::new();
    params.push(member_exec("error", str_json(e)));
    params.push(member_exec("requestId", str_json(request_id)));
    params.push(member_exec("type", str_json("error")));
    let mut top: Vec<Vec<char>> = Vec::new();
    top.push(member_exec("jsonrpc", str_json("2.0")));
    top.push(member_exec("method", str_json("progress")));
    top.push(member_exec("params", object_exec(&params)));
    assert(seqs_of(params@) =~= seq![
        member("error"@, json_str(e@)),
        member("requestId"@, json_str(request_id@)),
        member("type"@, json_str("error"@)),
    ]);
    let ghost p = object(seqs_of(params@));
    assert(seqs_of(top@) =~= seq![
        member("jsonrpc"@, json_str("2.0"@)),
        member("method"@, json_str("progress"@)),
        member("params"@, p),
    ]);
    let o = object_exec(&top);
    string_of(o.as_slice())
}

/// Pseudo-streaming loses nothing: the pieces, put back together, are the
/// text, and each holds one to `STREAM_CHUNK_SIZE` characters.
pub proof fn lemma_chunks_rebuild(s: Seq<char>)
    ensures
        join(char_chunks(s), Seq::empty()) == s,
        forall|i: int| 0 <= i < char_chunks(s).len() ==> 0 < (#[trigger] char_chunks(s)[i]).len() <= STREAM_CHUNK_SIZE,
    decreases s.len(),
{
    if s.len() > STREAM_CHUNK_SIZE {
        let rest = s.skip(STREAM_CHUNK_SIZE as int);
        lemma_chunks_rebuild(rest);
        let head = seq![s.take(STREAM_CHUNK_SIZE as int)];
        assert(char_chunks(rest).len() > 0);
        lemma_join_append(head, char_chunks(rest), Seq::empty());
        assert(s.take(STREAM_CHUNK_SIZE as int) + Seq::<char>::empty() + rest =~= s);
        let cs = char_chunks(s);
        assert forall|i: int| 0 <= i < cs.len() implies 0 < (#[trigger] cs[i]).len() <= STREAM_CHUNK_SIZE by {
            if i > 0 {
                assert(cs[i] == char_chunks(rest)[i - 1]);
            }
        }
    } else if s.len() > 0 {
        assert(join(seq![s], Seq::<char>::empty()) == s);
    } else {
        assert(join(char_chunks(s), Seq::<char>::empty()) =~= s);
    }
}

} // verus!
