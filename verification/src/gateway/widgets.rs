//! Swarm events that the dashboard's widgets and swarm monitor receive.
use vstd::prelude::*;
use crate::clock::utc_now_millis;
use crate::json::{json_i64_exec, json_str, json_str_exec, member, member_exec, object, object_exec, signed_decimal};
use crate::text::{chars_of, push_chars, seqs_of};

verus! {

/// Kinds of swarm event.
#[derive(Debug, Clone, Copy, PartialEq, Eq, Structural)]
pub enum SwarmEventType {
    /// Agent-to-agent communication.
    A2ACommunication,
    /// Widget data update.
    WidgetUpdate,
    /// Agent status change.
    AgentStatus,
    /// Task progress update.
    TaskProgress,
    /// Agent action, for the swarm monitor.
    AgentAction,
}

/// The snake_case name of an event kind.
pub open spec fn event_type_name(t: SwarmEventType) -> Seq<char> {
    match t {
        SwarmEventType::A2ACommunication => "a2a_communication"@,
        SwarmEventType::WidgetUpdate => "widget_update"@,
        SwarmEventType::AgentStatus => "agent_status"@,
        SwarmEventType::TaskProgress => "task_progress"@,
        SwarmEventType::AgentAction => "agent_action"@,
    }
}

impl SwarmEventType {
    /// The kind's snake_case name.
    pub fn as_str(&self) -> (r: &'static str)
        ensures
            r@ == event_type_name(*self),
    {
        match self {
            SwarmEventType::A2ACommunication => "a2a_communication",
            SwarmEventType::WidgetUpdate => "widget_update",
            SwarmEventType::AgentStatus => "agent_status",
            SwarmEventType::TaskProgress => "task_progress",
            SwarmEventType::AgentAction => "agent_action",
        }
    }
}

/// A swarm event; its data is JSON text.
#[derive(Debug, Clone)]
pub struct SwarmEvent {
    /// The kind's name.
    pub event_type: String,
    pub from: Option<String>,
    pub to: Option<String>,
    /// JSON text of the event's data.
    pub data: String,
    /// Unix milliseconds.
    pub timestamp: i64,
}

/// An optional string as JSON (`null` where absent).
pub open spec fn opt_json(s: Option<String>) -> Seq<char> {
    match s {
        Some(v) => json_str(v@),
        None => "null"@,
    }
}

/// An event as JSON: `type`, `from`, `to`, `data`, `timestamp`.
pub open spec fn swarm_event_json(e: SwarmEvent) -> Seq<char> {
    object(
        seq![
            member("type"@, json_str(e.event_type@)),
            member("from"@, opt_json(e.from)),
            member("to"@, opt_json(e.to)),
            member("data"@, e.data@),
            member("timestamp"@, signed_decimal(e.timestamp as int)),
        ],
    )
}

/// An object with the single string member `key`.
pub open spec fn single_member(key: Seq<char>, value: Seq<char>) -> Seq<char> {
    object(seq![member(key, json_str(value))])
}

fn str_json(s: &str) -> (r: Vec<char>)
    ensures
        r@ == json_str(s@),
{
    let c = chars_of(s);
    json_str_exec(c.as_slice())
}

fn single_member_exec(key: &str, value: &str) -> (r: String)
    ensures
        r@ == single_member(key@, value@),
{
    let mut m: Vec<Vec<char>> = Vec::new();
    m.push(member_exec(key, str_json(value)));
    assert(seqs_of(m@) =~= seq![member(key@, json_str(value@))]);
    let o = object_exec(&m);
    let mut r = String::new();
    push_chars(&mut r, o.as_slice());
    r
}

fn opt_json_exec(s: &Option<String>) -> (r: Vec<char>)
    ensures
        r@ == opt_json(*s),
{
    match s {
        Some(v) => str_json(v.as_str()),
        None => chars_of("null"),
    }
}

impl SwarmEvent {
    /// An agent-to-agent message, now.
    pub fn a2a(from: &str, to: &str, message: &str) -> (e: Self)
        ensures
            e.event_type@ == "a2a_communication"@,
            e.from matches Some(f) && f@ == from@,
            e.to matches Some(t) && t@ == to@,
            e.data@ == single_member("message"@, message@),
    {
        SwarmEvent {
            event_type: "a2a_communication".to_owned(),
            from: Some(from.to_owned()),
            to: Some(to.to_owned()),
            data: single_member_exec("message", message),
            timestamp: utc_now_millis(),
        }
    }

    /// New data for a widget, now.
    pub fn widget_update(widget_id: &str, data: String) -> (e: Self)
        ensures
            e.event_type@ == "widget_update"@,
            e.from matches Some(f) && f@ == widget_id@,
            e.to is None,
            e.data == data,
    {
        SwarmEvent {
            event_type: "widget_update".to_owned(),
            from: Some(widget_id.to_owned()),
            to: None,
            data,
            timestamp: utc_now_millis(),
        }
    }

    /// An agent's status, now.
    pub fn agent_status(agent_id: &str, status: &str) -> (e: Self)
        ensures
            e.event_type@ == "agent_status"@,
            e.from matches Some(f) && f@ == agent_id@,
            e.to is None,
            e.data@ == single_member("status"@, status@),
    {
        SwarmEvent {
            event_type: "agent_status".to_owned(),
            from: Some(agent_id.to_owned()),
            to: None,
            data: single_member_exec("status", status),
            timestamp: utc_now_millis(),
        }
    }

    /// An agent's action, for the swarm monitor, now.
    pub fn agent_action(from: &str, to: &str, action: &str) -> (e: Self)
        ensures
            e.event_type@ == "agent_action"@,
            e.from matches Some(f) && f@ == from@,
            e.to matches Some(t) && t@ == to@,
            e.data@ == single_member("action"@, action@),
    {
        SwarmEvent {
            event_type: "agent_action".to_owned(),
            from: Some(from.to_owned()),
            to: Some(to.to_owned()),
            data: single_member_exec("action", action),
            timestamp: utc_now_millis(),
        }
    }

    /// The event as JSON text.
    pub fn to_json(&self) -> (r: String)
        ensures
            r@ == swarm_event_json(*self),
    {
        let mut m: Vec<Vec<char>> = Vec::new();
        m.push(member_exec("type", str_json(self.event_type.as_str())));
        m.push(member_exec("from", opt_json_exec(&self.from)));
        m.push(member_exec("to", opt_json_exec(&self.to)));
        m.push(member_exec("data", chars_of(self.data.as_str())));
        m.push(member_exec("timestamp", json_i64_exec(self.timestamp)));
        assert(seqs_of(m@) =~= seq![
            member("type"@, json_str(self.event_type@)),
            member("from"@, opt_json(self.from)),
            member("to"@, opt_json(self.to)),
            member("data"@, self.data@),
            member("timestamp"@, signed_decimal(self.timestamp as int)),
        ]);
        let o = object_exec(&m);
        let mut r = String::new();
        push_chars(&mut r, o.as_slice());
        r
    }
}

/// A request to send an agent-to-agent message.
#[derive(Debug, Clone)]
pub struct A2APayload {
    pub from: String,
    pub to: String,
    pub message: String,
}

/// A request to report an agent's action.
#[derive(Debug, Clone)]
pub struct AgentActionPayload {
    pub from: String,
    pub to: String,
    pub action: String,
}

} // verus!
