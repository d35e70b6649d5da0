//! Server-sent events in OpenAI's `chat.completion.chunk` format, and the
//! conversion of the agent's stream chunks into them.
use vstd::prelude::*;
use crate::agent::streaming::AgentStreamChunk;
use crate::clock::{is_hyphenated_uuid, new_uuid_v4, unix_millis_now};
use crate::json::{array, array_exec, json_str, json_str_exec, json_u64_exec, member, member_exec, object, object_exec};
use crate::text::{chars_of, decimal, push_chars, push_str, seqs_of};

verus! {

/// A streamed response chunk.
#[derive(Debug)]
pub struct SSEChunk {
    pub id: String,
    /// Always `chat.completion.chunk`.
    pub object: &'static str,
    /// Unix seconds.
    pub created: u64,
    pub model: String,
    pub choices: Vec<DeltaChoice>,
}

/// One choice of a chunk.
#[derive(Debug)]
pub struct DeltaChoice {
    pub index: u32,
    pub delta: DeltaDelta,
    /// Why the answer ended, in the last chunk.
    pub finish_reason: Option<&'static str>,
}

/// What a chunk adds.
#[derive(Debug)]
pub struct DeltaDelta {
    pub content: Option<String>,
    pub tool_calls: Option<Vec<ToolCallDelta>>,
}

/// A tool call, streamed.
#[derive(Debug)]
pub struct ToolCallDelta {
    pub index: u32,
    pub id: String,
    /// Always `function`; written as `type`.
    pub tool_type: &'static str,
    pub function: ToolFunction,
}

/// The function a tool call invokes.
#[derive(Debug)]
pub struct ToolFunction {
    pub name: String,
    pub arguments: String,
}

/// A tool function as JSON.
pub open spec fn function_json(f: ToolFunction) -> Seq<char> {
    object(seq![member("name"@, json_str(f.name@)), member("arguments"@, json_str(f.arguments@))])
}

/// A tool call as JSON (`tool_type` written as `type`).
pub open spec fn tool_call_json(t: ToolCallDelta) -> Seq<char> {
    object(
        seq![
            member("index"@, decimal(t.index as nat)),
            member("id"@, json_str(t.id@)),
            member("type"@, json_str(t.tool_type@)),
            member("function"@, function_json(t.function)),
        ],
    )
}

/// Tool calls as a JSON array.
pub open spec fn tool_calls_json(v: Seq<ToolCallDelta>) -> Seq<char> {
    array(Seq::new(v.len(), |i: int| tool_call_json(v[i])))
}

/// A delta as JSON: the members that are present.
pub open spec fn delta_json(d: DeltaDelta) -> Seq<char> {
    object(
        match d.content {
            Some(c) => seq![member("content"@, json_str(c@))],
            None => Seq::empty(),
        } + match d.tool_calls {
            Some(v) => seq![member("tool_calls"@, tool_calls_json(v@))],
            None => Seq::empty(),
        },
    )
}

/// A choice as JSON (no `finish_reason` where there is none).
pub open spec fn choice_json(c: DeltaChoice) -> Seq<char> {
    object(
        seq![member("index"@, decimal(c.index as nat)), member("delta"@, delta_json(c.delta))] + match c.finish_reason {
            Some(f) => seq![member("finish_reason"@, json_str(f@))],
            None => Seq::empty(),
        },
    )
}

/// A chunk as JSON.
pub open spec fn chunk_json(c: SSEChunk) -> Seq<char> {
    object(
        seq![
            member("id"@, json_str(c.id@)),
            member("object"@, json_str(c.object@)),
            member("created"@, decimal(c.created as nat)),
            member("model"@, json_str(c.model@)),
            member("choices"@, array(Seq::new(c.choices@.len(), |i: int| choice_json(c.choices@[i])))),
        ],
    )
}

fn str_json(s: &str) -> (r: Vec<char>)
    ensures
        r@ == json_str(s@),
{
    let c = chars_of(s);
    json_str_exec(c.as_slice())
}

fn function_json_exec(f: &ToolFunction) -> (r: Vec<char>)
    ensures
        r@ == function_json(*f),
{
    let mut m: Vec<Vec<char>> = Vec::new();
    m.push(member_exec("name", str_json(f.name.as_str())));
    m.push(member_exec("arguments", str_json(f.arguments.as_str())));
    assert(seqs_of(m@) =~= seq![member("name"@, json_str(f.name@)), member("arguments"@, json_str(f.arguments@))]);
    object_exec(&m)
}

fn tool_call_json_exec(t: &ToolCallDelta) -> (r: Vec<char>)
    ensures
        r@ == tool_call_json(*t),
{
    let mut m: Vec<Vec<char>> = Vec::new();
    m.push(member_exec("index", json_u64_exec(t.index as u64)));
    m.push(member_exec("id", str_json(t.id.as_str())));
    m.push(member_exec("type", str_json(t.tool_type)));
    m.push(member_exec("function", function_json_exec(&t.function)));
    assert(seqs_of(m@) =~= seq![
        member("index"@, decimal(t.index as nat)),
        member("id"@, json_str(t.id@)),
        member("type"@, json_str(t.tool_type@)),
        member("function"@, function_json(t.function)),
    ]);
    object_exec(&m)
}

fn tool_calls_json_exec(v: &Vec<ToolCallDelta>) -> (r: Vec<char>)
    ensures
        r@ == tool_calls_json(v@),
{
    let ghost target = Seq::new(v@.len(), |i: int| tool_call_json(v@[i]));
    let mut elems: Vec<Vec<char>> = Vec::new();
    let mut i: usize = 0;
    while i < v.len()
        invariant
            i <= v@.len(),
            target == Seq::new(v@.len(), |k: int| tool_call_json(v@[k])),
            seqs_of(elems@) == target.take(i as int),
        decreases v.len() - i,
    {
        let ghost prev = elems@;
        elems.push(tool_call_json_exec(&v[i]));
        assert(seqs_of(elems@) =~= seqs_of(prev).push(tool_call_json(v@[i as int])));
        assert(target.take(i + 1) =~= target.take(i as int).push(target[i as int]));
        i += 1;
    }
    assert(target.take(v@.len() as int) =~= target);
    array_exec(&elems)
}

fn delta_json_exec(d: &DeltaDelta) -> (r: Vec<char>)
    ensures
        r@ == delta_json(*d),
{
    let mut m: Vec<Vec<char>> = Vec::new();
    match &d.content {
        Some(c) => {
            m.push(member_exec("content", str_json(c.as_str())));
        },
        None => {},
    }
    let ghost m1 = seqs_of(m@);
    match &d.tool_calls {
        Some(v) => {
            m.push(member_exec("tool_calls", tool_calls_json_exec(v)));
        },
        None => {},
    }
    assert(seqs_of(m@) =~= match d.content {
        Some(c) => seq![member("content"@, json_str(c@))],
        None => Seq::<Seq<char>>::empty(),
    } + match d.tool_calls {
        Some(v) => seq![member("tool_calls"@, tool_calls_json(v@))],
        None => Seq::<Seq<char>>::empty(),
    });
    object_exec(&m)
}

fn choice_json_exec(c: &DeltaChoice) -> (r: Vec<char>)
    ensures
        r@ == choice_json(*c),
{
    let mut m: Vec<Vec<char>> = Vec::new();
    m.push(member_exec("index", json_u64_exec(c.index as u64)));
    m.push(member_exec("delta", delta_json_exec(&c.delta)));
    match c.finish_reason {
        Some(f) => {
            m.push(member_exec("finish_reason", str_json(f)));
        },
        None => {},
    }
    assert(seqs_of(m@) =~= seq![member("index"@, decimal(c.index as nat)), member("delta"@, delta_json(c.delta))]
        + match c.finish_reason {
        Some(f) => seq![member("finish_reason"@, json_str(f@))],
        None => Seq::<Seq<char>>::empty(),
    });
    object_exec(&m)
}

fn chunk_json_exec(c: &SSEChunk) -> (r: Vec<char>)
    ensures
        r@ == chunk_json(*c),
{
    let ghost target = Seq::new(c.choices@.len(), |i: int| choice_json(c.choices@[i]));
    let mut elems: Vec<Vec<char>> = Vec::new();
    let mut i: usize = 0;
    while i < c.choices.len()
        invariant
            i <= c.choices@.len(),
            target == Seq::new(c.choices@.len(), |k: int| choice_json(c.choices@[k])),
            seqs_of(elems@) == target.take(i as int),
        decreases c.choices.len() - i,
    {
        let ghost prev = elems@;
        elems.push(choice_json_exec(&c.choices[i]));
        assert(seqs_of(elems@) =~= seqs_of(prev).push(choice_json(c.choices@[i as int])));
        assert(target.take(i + 1) =~= target.take(i as int).push(target[i as int]));
        i += 1;
    }
    assert(target.take(c.choices@.len() as int) =~= target);
    let mut m: Vec<Vec<char>> = Vec::new();
    m.push(member_exec("id", str_json(c.id.as_str())));
    m.push(member_exec("object", str_json(c.object)));
    m.push(member_exec("created", json_u64_exec(c.created)));
    m.push(member_exec("model", str_json(c.model.as_str())));
    m.push(member_exec("choices", array_exec(&elems)));
    assert(seqs_of(m@) =~= seq![
        member("id"@, json_str(c.id@)),
        member("object"@, json_str(c.object@)),
        member("created"@, decimal(c.created as nat)),
        member("model"@, json_str(c.model@)),
        member("choices"@, array(target)),
    ]);
    object_exec(&m)
}

/// A chunk as a server-sent event: `data: `, its JSON, a blank line.
pub fn format_sse_event(chunk: &SSEChunk) -> (r: String)
    ensures
        r@ == "data: "@ + chunk_json(*chunk) + "\n\n"@,
{
    let mut r = String::new();
    push_str(&mut r, "data: ");
    let j = chunk_json_exec(chunk);
    push_chars(&mut r, j.as_slice());
    push_str(&mut r, "\n\n");
    r
}

/// The single choice a converted chunk carries, by the agent's chunk.
pub open spec fn converted_choice(chunk: AgentStreamChunk, c: DeltaChoice) -> bool {
    &&& c.index == 0
    &&& match chunk {
        AgentStreamChunk::Text(text) => {
            &&& c.delta.content matches Some(s) && s@ == text@
            &&& c.delta.tool_calls is None
            &&& c.finish_reason is None
        },
        AgentStreamChunk::ToolStart { tool_id, tool_name, .. } => {
            &&& c.delta.content is None
            &&& c.delta.tool_calls matches Some(v) && v@.len() == 1 && v@[0].index == 0 && v@[0].id@ == tool_id@
                && v@[0].tool_type@ == "function"@ && v@[0].function.name@ == tool_name@
                && v@[0].function.arguments@.len() == 0
            &&& c.finish_reason is None
        },
        AgentStreamChunk::ToolResult { result, .. } => {
            &&& c.delta.content matches Some(s) && s@ == "\n\nTool result: "@ + result@ + "\n\n"@
            &&& c.delta.tool_calls is None
            &&& c.finish_reason is None
        },
        AgentStreamChunk::ToolEnd => {
            &&& c.delta.content is None
            &&& c.delta.tool_calls is None
            &&& c.finish_reason is None
        },
        AgentStreamChunk::Done => {
            &&& c.delta.content matches Some(s) && s@.len() == 0
            &&& c.delta.tool_calls is None
            &&& c.finish_reason matches Some(f) && f@ == "stop"@
        },
    }
}

/// Converts an agent's stream chunk to an OpenAI SSE chunk for `model`,
/// with a fresh id and the current time.
pub fn convert_chunk_to_sse(chunk: &AgentStreamChunk, model: &str) -> (r: SSEChunk)
    ensures
        is_hyphenated_uuid(r.id@),
        r.object@ == "chat.completion.chunk"@,
        r.model@ == model@,
        r.choices@.len() == 1,
        converted_choice(*chunk, r.choices@[0]),
{
    let id = new_uuid_v4();
    let now_ms = unix_millis_now();
    convert_chunk_to_sse_at(chunk, model, id, now_ms)
}

/// Converts an agent's stream chunk to an OpenAI SSE chunk for `model`,
/// with id `id`, made `now_ms` milliseconds after the Unix epoch: its
/// `created` field is that time in whole seconds.
pub fn convert_chunk_to_sse_at(chunk: &AgentStreamChunk, model: &str, id: String, now_ms: u64) -> (r: SSEChunk)
    ensures
        r.id@ == id@,
        r.created * 1000 <= now_ms < r.created * 1000 + 1000,
        r.object@ == "chat.completion.chunk"@,
        r.model@ == model@,
        r.choices@.len() == 1,
        converted_choice(*chunk, r.choices@[0]),
{
    let created = now_ms / 1000;
    let delta = match chunk {
        AgentStreamChunk::Text(text) => DeltaDelta { content: Some(text.clone()), tool_calls: None },
        AgentStreamChunk::ToolStart { tool_id, tool_name, .. } => {
            let mut calls: Vec<ToolCallDelta> = Vec::new();
            calls.push(ToolCallDelta {
                index: 0,
                id: tool_id.clone(),
                tool_type: "function",
                function: ToolFunction { name: tool_name.clone(), arguments: String::new() },
            });
            DeltaDelta { content: None, tool_calls: Some(calls) }
        },
        AgentStreamChunk::ToolResult { result, .. } => {
            let mut s = String::new();
            push_str(&mut s, "\n\nTool result: ");
            push_str(&mut s, result.as_str());
            push_str(&mut s, "\n\n");
            DeltaDelta { content: Some(s), tool_calls: None }
        },
        AgentStreamChunk::ToolEnd => DeltaDelta { content: None, tool_calls: None },
        AgentStreamChunk::Done => DeltaDelta { content: Some(String::new()), tool_calls: None },
    };
    let finish_reason: Option<&'static str> = match chunk {
        AgentStreamChunk::Done => Some("stop"),
        _ => None,
    };
    let mut choices: Vec<DeltaChoice> = Vec::new();
    choices.push(DeltaChoice { index: 0, delta, finish_reason });
    SSEChunk { id, object: "chat.completion.chunk", created, model: model.to_owned(), choices }
}

} // verus!
