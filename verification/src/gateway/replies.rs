//! What the dashboard endpoints answer: the acknowledgements of widget,
//! swarm and event posts, the events they broadcast, and the replies of the
//! TUI endpoints.
use vstd::prelude::*;
use crate::channels::siyuan::types::str_json;
use crate::json::{array, array_exec, json_str, member, member_exec, object, object_exec};
use crate::text::{chars_of, decimal, push_str, seqs_of, string_of};
use crate::channels::acp::handler::json_bool;
use crate::json::{json_i64_exec, signed_decimal};

verus! {

fn bool_json(b: bool) -> (r: Vec<char>)
    ensures
        r@ == json_bool(b),
{
    if b {
        chars_of("true")
    } else {
        chars_of("false")
    }
}

/// An optional string as JSON: the string, or `null`.
pub open spec fn opt_json(o: Option<Seq<char>>) -> Seq<char> {
    match o {
        Some(s) => json_str(s),
        None => "null"@,
    }
}

fn opt_json_exec(o: Option<&str>) -> (r: Vec<char>)
    ensures
        r@ == opt_json(
            match o {
                Some(s) => Some(s@),
                None => None,
            },
        ),
{
    match o {
        Some(s) => str_json(s),
        None => chars_of("null"),
    }
}

fn object_string(m: &Vec<Vec<char>>) -> (r: String)
    ensures
        r@ == object(seqs_of(m@)),
{
    let o = object_exec(m);
    string_of(o.as_slice())
}

/// The answer to a widget update: accepted and broadcast.
pub open spec fn widget_update_json(widget_id: Seq<char>) -> Seq<char> {
    object(
        seq![
            member("broadcasted"@, json_bool(true)),
            member("status"@, json_str("ok"@)),
            member("widget_id"@, json_str(widget_id)),
        ],
    )
}

/// The answer to a widget update.
pub fn widget_update_ack(widget_id: &str) -> (r: String)
    ensures
        r@ == widget_update_json(widget_id@),
{
    let mut m: Vec<Vec<char>> = Vec::new();
    m.push(member_exec("broadcasted", bool_json(true)));
    m.push(member_exec("status", str_json("ok")));
    m.push(member_exec("widget_id", str_json(widget_id)));
    assert(seqs_of(m@) =~= seq![
        member("broadcasted"@, json_bool(true)),
        member("status"@, json_str("ok"@)),
        member("widget_id"@, json_str(widget_id@)),
    ]);
    object_string(&m)
}

/// The answer to a widget query: no data is kept.
pub open spec fn widget_get_json(widget_id: Seq<char>) -> Seq<char> {
    object(seq![member("data"@, "null"@), member("widget_id"@, json_str(widget_id))])
}

/// The answer to a widget query.
pub fn widget_get_reply(widget_id: &str) -> (r: String)
    ensures
        r@ == widget_get_json(widget_id@),
{
    let mut m: Vec<Vec<char>> = Vec::new();
    m.push(member_exec("data", chars_of("null")));
    m.push(member_exec("widget_id", str_json(widget_id)));
    assert(seqs_of(m@) =~= seq![member("data"@, "null"@), member("widget_id"@, json_str(widget_id@))]);
    object_string(&m)
}

/// The answer to a post whose event was broadcast: `ok`, with `flag` true.
pub open spec fn flag_ack_json(flag: Seq<char>) -> Seq<char> {
    object(seq![member(flag, json_bool(true)), member("status"@, json_str("ok"@))])
}

/// The answer to a swarm message.
pub fn swarm_communicate_ack() -> (r: String)
    ensures
        r@ == flag_ack_json("event_sent"@),
{
    let mut m: Vec<Vec<char>> = Vec::new();
    m.push(member_exec("event_sent", bool_json(true)));
    m.push(member_exec("status", str_json("ok")));
    assert(seqs_of(m@) =~= seq![member("event_sent"@, json_bool(true)), member("status"@, json_str("ok"@))]);
    object_string(&m)
}

/// The answer to an agent action.
pub fn agent_action_ack() -> (r: String)
    ensures
        r@ == flag_ack_json("action_broadcasted"@),
{
    let mut m: Vec<Vec<char>> = Vec::new();
    m.push(member_exec("action_broadcasted", bool_json(true)));
    m.push(member_exec("status", str_json("ok")));
    assert(seqs_of(m@) =~= seq![member("action_broadcasted"@, json_bool(true)), member("status"@, json_str("ok"@))]);
    object_string(&m)
}

/// An event posted to the dashboard.
#[derive(Debug, Clone, PartialEq, Eq)]
pub struct EventPayload {
    /// The event's type, such as `log_entry`.
    pub event_type: String,
    /// Where it comes from.
    pub from: Option<String>,
    /// Where it goes.
    pub to: Option<String>,
    /// Its data, as JSON text.
    pub data: Option<String>,
}

/// The event broadcast for a payload posted at `timestamp` (Unix
/// milliseconds): absent fields as `null`.
pub open spec fn event_json(p: EventPayload, timestamp: i64) -> Seq<char> {
    object(
        seq![
            member(
                "data"@,
                match p.data {
                    Some(d) => d@,
                    None => "null"@,
                },
            ),
            member(
                "from"@,
                opt_json(
                    match p.from {
                        Some(f) => Some(f@),
                        None => None,
                    },
                ),
            ),
            member("timestamp"@, signed_decimal(timestamp as int)),
            member(
                "to"@,
                opt_json(
                    match p.to {
                        Some(t) => Some(t@),
                        None => None,
                    },
                ),
            ),
            member("type"@, json_str(p.event_type@)),
        ],
    )
}

impl EventPayload {
    /// The event to broadcast, stamped `timestamp`.
    pub fn event_at(&self, timestamp: i64) -> (r: String)
        ensures
            r@ == event_json(*self, timestamp),
    {
        let mut m: Vec<Vec<char>> = Vec::new();
        let data = match &self.data {
            Some(d) => chars_of(d.as_str()),
            None => chars_of("null"),
        };
        m.push(member_exec("data", data));
        let from = match &self.from {
            Some(f) => Some(f.as_str()),
            None => None,
        };
        m.push(member_exec("from", opt_json_exec(from)));
        m.push(member_exec("timestamp", json_i64_exec(timestamp)));
        let to = match &self.to {
            Some(t) => Some(t.as_str()),
            None => None,
        };
        m.push(member_exec("to", opt_json_exec(to)));
        m.push(member_exec("type", str_json(self.event_type.as_str())));
        assert(seqs_of(m@) =~= seq![
            member("data"@, match self.data { Some(d) => d@, None => "null"@ }),
            member("from"@, opt_json(match self.from { Some(f) => Some(f@), None => None })),
            member("timestamp"@, signed_decimal(timestamp as int)),
            member("to"@, opt_json(match self.to { Some(t) => Some(t@), None => None })),
            member("type"@, json_str(self.event_type@)),
        ]);
        object_string(&m)
    }

    /// The answer to the post of this event.
    pub fn ack(&self) -> (r: String)
        ensures
            r@ == object(
                seq![
                    member("broadcasted"@, json_bool(true)),
                    member("event_type"@, json_str(self.event_type@)),
                    member("status"@, json_str("ok"@)),
                ],
            ),
    {
        let mut m: Vec<Vec<char>> = Vec::new();
        m.push(member_exec("broadcasted", bool_json(true)));
        m.push(member_exec("event_type", str_json(self.event_type.as_str())));
        m.push(member_exec("status", str_json("ok")));
        assert(seqs_of(m@) =~= seq![
            member("broadcasted"@, json_bool(true)),
            member("event_type"@, json_str(self.event_type@)),
            member("status"@, json_str("ok"@)),
        ]);
        object_string(&m)
    }
}

/// The answer of the TUI chat endpoint: the response, or the error.
pub open spec fn chat_reply_json(response: Option<Seq<char>>, error: Option<Seq<char>>) -> Seq<char> {
    object(seq![member("error"@, opt_json(error)), member("response"@, opt_json(response))])
}

/// A chat message to the agent, read from the request: the session (the
/// `default` one where none is named) and the content, which must be a
/// non-empty string.
pub open spec fn chat_request(session_id: Option<Seq<char>>, content: Option<Seq<char>>) -> Result<
    (Seq<char>, Seq<char>),
    Seq<char>,
> {
    match content {
        Some(c) => if c.len() > 0 {
            Ok(
                (
                    match session_id {
                        Some(s) => s,
                        None => "default"@,
                    },
                    c,
                ),
            )
        } else {
            Err(chat_reply_json(None, Some("Missing or empty 'content' field"@)))
        },
        None => Err(chat_reply_json(None, Some("Missing or empty 'content' field"@))),
    }
}

/// Reads a TUI chat request: the session and the content, or the body of
/// the refusal (status 400).
pub fn read_chat_request(session_id: Option<&str>, content: Option<&str>) -> (r: Result<(String, String), String>)
    ensures
        match (
            r,
            chat_request(
                match session_id {
                    Some(s) => Some(s@),
                    None => None,
                },
                match content {
                    Some(c) => Some(c@),
                    None => None,
                },
            ),
        ) {
            (Ok((s, c)), Ok((es, ec))) => s@ == es && c@ == ec,
            (Err(e), Err(ee)) => e@ == ee,
            _ => false,
        },
{
    let refusal = {
        let mut m: Vec<Vec<char>> = Vec::new();
        m.push(member_exec("error", opt_json_exec(Some("Missing or empty 'content' field"))));
        m.push(member_exec("response", opt_json_exec(None)));
        assert(seqs_of(m@) =~= seq![
            member("error"@, opt_json(Some("Missing or empty 'content' field"@))),
            member("response"@, opt_json(None)),
        ]);
        object_string(&m)
    };
    match content {
        Some(c) => {
            if c.is_empty() {
                Err(refusal)
            } else {
                let s = match session_id {
                    Some(s) => s.to_owned(),
                    None => "default".to_owned(),
                };
                Ok((s, c.to_owned()))
            }
        },
        None => Err(refusal),
    }
}

/// The answer of the TUI chat endpoint once the agent answered (status 200)
/// or failed with `e` (status 500, `Processing error: ` and `e`).
pub fn chat_reply(outcome: Result<&str, &str>) -> (r: String)
    ensures
        r@ == match outcome {
            Ok(t) => chat_reply_json(Some(t@), None),
            Err(e) => chat_reply_json(None, Some("Processing error: "@ + e@)),
        },
{
    let mut m: Vec<Vec<char>> = Vec::new();
    match outcome {
        Ok(t) => {
            m.push(member_exec("error", opt_json_exec(None)));
            m.push(member_exec("response", opt_json_exec(Some(t))));
            assert(seqs_of(m@) =~= seq![member("error"@, opt_json(None)), member("response"@, opt_json(Some(t@)))]);
        },
        Err(e) => {
            let mut msg = String::new();
            push_str(&mut msg, "Processing error: ");
            push_str(&mut msg, e);
            m.push(member_exec("error", opt_json_exec(Some(msg.as_str()))));
            m.push(member_exec("response", opt_json_exec(None)));
            assert(seqs_of(m@) =~= seq![
                member("error"@, opt_json(Some("Processing error: "@ + e@))),
                member("response"@, opt_json(None)),
            ]);
        },
    }
    object_string(&m)
}

/// The memory keys under which a TUI chat exchange in `session_id` is saved:
/// the user's message, then the answer.
pub fn chat_memory_keys(session_id: &str) -> (r: (String, String))
    ensures
        r.0@ == "tui:"@ + session_id@ + ":user"@,
        r.1@ == "tui:"@ + session_id@ + ":assistant"@,
{
    let mut u = String::new();
    push_str(&mut u, "tui:");
    push_str(&mut u, session_id);
    push_str(&mut u, ":user");
    let mut a = String::new();
    push_str(&mut a, "tui:");
    push_str(&mut a, session_id);
    push_str(&mut a, ":assistant");
    (u, a)
}

/// A running hand shown as an agent: done at 100 once cancelled, else
/// running at 50, with the name of its workspace as its task.
pub open spec fn hand_agent_json(hand_id: Seq<char>, cancelled: bool, workspace: Option<Seq<char>>) -> Seq<char> {
    object(
        seq![
            member("current_task"@, opt_json(workspace)),
            member("id"@, json_str(hand_id)),
            member("model"@, json_str("hand"@)),
            member("name"@, json_str("Hand: "@ + hand_id)),
            member("progress"@, decimal(if cancelled { 100 } else { 50 })),
            member("status"@, json_str(if cancelled { "done"@ } else { "running"@ })),
        ],
    )
}

/// A hand, with whether it was cancelled and the name of its workspace.
#[derive(Debug, Clone, PartialEq, Eq)]
pub struct HandSummary {
    pub hand_id: String,
    pub cancelled: bool,
    pub workspace: Option<String>,
}

/// The workspace of a hand summary, by its characters.
pub open spec fn workspace_of(h: HandSummary) -> Option<Seq<char>> {
    match h.workspace {
        Some(w) => Some(w@),
        None => None,
    }
}

/// The JSON of a hand summary.
pub open spec fn summary_json(h: HandSummary) -> Seq<char> {
    hand_agent_json(h.hand_id@, h.cancelled, workspace_of(h))
}

fn hand_agent_exec(h: &HandSummary) -> (r: Vec<char>)
    ensures
        r@ == summary_json(*h),
{
    let mut name = String::new();
    push_str(&mut name, "Hand: ");
    push_str(&mut name, h.hand_id.as_str());
    let ws = match &h.workspace {
        Some(w) => Some(w.as_str()),
        None => None,
    };
    let mut m: Vec<Vec<char>> = Vec::new();
    m.push(member_exec("current_task", opt_json_exec(ws)));
    m.push(member_exec("id", str_json(h.hand_id.as_str())));
    m.push(member_exec("model", str_json("hand")));
    m.push(member_exec("name", str_json(name.as_str())));
    m.push(member_exec("progress", crate::json::json_u64_exec(if h.cancelled { 100 } else { 50 })));
    m.push(member_exec("status", str_json(if h.cancelled { "done" } else { "running" })));
    let r = object_exec(&m);
    let ghost ws_view = workspace_of(*h);
    assert(seqs_of(m@) =~= seq![
        member("current_task"@, opt_json(ws_view)),
        member("id"@, json_str(h.hand_id@)),
        member("model"@, json_str("hand"@)),
        member("name"@, json_str("Hand: "@ + h.hand_id@)),
        member("progress"@, decimal(if h.cancelled { 100 } else { 50 })),
        member("status"@, json_str(if h.cancelled { "done"@ } else { "running"@ })),
    ]);
    assert(r@ == hand_agent_json(h.hand_id@, h.cancelled, ws_view));
    r
}

/// The active agents of the TUI endpoint: the hands, in order.
pub fn active_agents_json(hands: &Vec<HandSummary>) -> (r: String)
    ensures
        r@ == array(hands@.map_values(|h: HandSummary| summary_json(h))),
{
    let ghost target = hands@.map_values(|h: HandSummary| summary_json(h));
    let mut elems: Vec<Vec<char>> = Vec::new();
    let mut i: usize = 0;
    while i < hands.len()
        invariant
            i <= hands@.len(),
            target == hands@.map_values(|h: HandSummary| summary_json(h)),
            seqs_of(elems@) == target.take(i as int),
        decreases hands.len() - i,
    {
        let j = hand_agent_exec(&hands[i]);
        let ghost prev = seqs_of(elems@);
        elems.push(j);
        assert(seqs_of(elems@) =~= prev.push(j@));
        assert(target.take(i + 1) =~= target.take(i as int).push(target[i as int]));
        i += 1;
    }
    assert(target.take(hands@.len() as int) =~= target);
    let a = array_exec(&elems);
    string_of(a.as_slice())
}

/// The memory status of the TUI endpoint: the backend's name and number of
/// memories, at `timestamp` (RFC 3339).
pub open spec fn memory_status_json(backend: Seq<char>, total: u64, timestamp: Seq<char>) -> Seq<char> {
    object(
        seq![
            member("backend"@, json_str(backend)),
            member("recent_operations"@, array(Seq::empty())),
            member("storage_bytes"@, decimal(0)),
            member("timestamp"@, json_str(timestamp)),
            member("total_memories"@, decimal(total as nat)),
        ],
    )
}

/// The memory status of the TUI endpoint.
pub fn memory_status_reply(backend: &str, total: u64, timestamp: &str) -> (r: String)
    ensures
        r@ == memory_status_json(backend@, total, timestamp@),
{
    let none: Vec<Vec<char>> = Vec::new();
    let mut m: Vec<Vec<char>> = Vec::new();
    m.push(member_exec("backend", str_json(backend)));
    m.push(member_exec("recent_operations", array_exec(&none)));
    m.push(member_exec("storage_bytes", crate::json::json_u64_exec(0)));
    m.push(member_exec("timestamp", str_json(timestamp)));
    m.push(member_exec("total_memories", crate::json::json_u64_exec(total)));
    assert(seqs_of(none@) =~= Seq::<Seq<char>>::empty());
    assert(seqs_of(m@) =~= seq![
        member("backend"@, json_str(backend@)),
        member("recent_operations"@, array(Seq::empty())),
        member("storage_bytes"@, decimal(0)),
        member("timestamp"@, json_str(timestamp@)),
        member("total_memories"@, decimal(total as nat)),
    ]);
    object_string(&m)
}

} // verus!
