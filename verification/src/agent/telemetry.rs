//! Telemetry events that the agent loop reports to the dashboard.
//!
//! Each function builds the JSON text of one event, stamped with the
//! current time; whoever holds the broadcast channel sends it.
use vstd::prelude::*;
use crate::clock::utc_now_millis;
use crate::json::{json_i64_exec, json_str, json_str_exec, json_u128_exec, json_u64_exec, member, member_exec, object, object_exec, signed_decimal};
use crate::text::{chars_of, decimal, push_str};

verus! {

/// The members an event always has, before and after the extra ones, in
/// key order: `action`, `details`, then the extras that sort between
/// `details` and `status`, `status`, `timestamp`, the extras that sort
/// between `timestamp` and `type`, and `type`.
pub open spec fn event_text(
    action: Seq<char>,
    details: Seq<char>,
    status: Seq<char>,
    timestamp: int,
    before_status: Seq<Seq<char>>,
    before_type: Seq<Seq<char>>,
) -> Seq<char> {
    object(
        seq![member("action"@, json_str(action)), member("details"@, json_str(details))] + before_status
            + seq![member("status"@, json_str(status)), member("timestamp"@, signed_decimal(timestamp))]
            + before_type + seq![member("type"@, json_str("telemetry"@))],
    )
}

/// The delegation event: the `agent` member sorts between `action` and
/// `details`.
pub open spec fn delegation_text(agent: Seq<char>, status: Seq<char>, timestamp: int) -> Seq<char> {
    object(
        seq![
            member("action"@, json_str("delegation"@)),
            member("agent"@, json_str(agent)),
            member("details"@, json_str("delegating to agent: "@ + agent)),
            member("status"@, json_str(status)),
            member("timestamp"@, signed_decimal(timestamp)),
            member("type"@, json_str("telemetry"@)),
        ],
    )
}

fn str_json(s: &str) -> (r: Vec<char>)
    ensures
        r@ == json_str(s@),
{
    let c = chars_of(s);
    json_str_exec(c.as_slice())
}

fn build_event(
    action: &str,
    details: &str,
    status: &str,
    timestamp: i64,
    before_status: Vec<Vec<char>>,
    before_type: Vec<Vec<char>>,
) -> (r: String)
    ensures
        r@ == event_text(
            action@,
            details@,
            status@,
            timestamp as int,
            crate::text::seqs_of(before_status@),
            crate::text::seqs_of(before_type@),
        ),
{
    let mut members: Vec<Vec<char>> = Vec::new();
    members.push(member_exec("action", str_json(action)));
    members.push(member_exec("details", str_json(details)));
    let mut i: usize = 0;
    while i < before_status.len()
        invariant
            i <= before_status@.len(),
            crate::text::seqs_of(members@) == seq![member("action"@, json_str(action@)), member("details"@, json_str(details@))]
                + crate::text::seqs_of(before_status@).take(i as int),
        decreases before_status.len() - i,
    {
        let ghost prev = members@;
        members.push(before_status[i].clone());
        assert(crate::text::seqs_of(members@) =~= crate::text::seqs_of(prev).push(before_status@[i as int]@));
        assert(crate::text::seqs_of(before_status@).take(i + 1) =~= crate::text::seqs_of(before_status@).take(i as int).push(before_status@[i as int]@));
        i += 1;
    }
    assert(crate::text::seqs_of(before_status@).take(before_status@.len() as int) =~= crate::text::seqs_of(before_status@));
    let ghost m1 = crate::text::seqs_of(members@);
    members.push(member_exec("status", str_json(status)));
    members.push(member_exec("timestamp", json_i64_exec(timestamp)));
    let ghost m2 = m1 + seq![member("status"@, json_str(status@)), member("timestamp"@, signed_decimal(timestamp as int))];
    assert(crate::text::seqs_of(members@) =~= m2);
    let mut j: usize = 0;
    while j < before_type.len()
        invariant
            j <= before_type@.len(),
            crate::text::seqs_of(members@) == m2 + crate::text::seqs_of(before_type@).take(j as int),
        decreases before_type.len() - j,
    {
        let ghost prev = members@;
        members.push(before_type[j].clone());
        assert(crate::text::seqs_of(members@) =~= crate::text::seqs_of(prev).push(before_type@[j as int]@));
        assert(crate::text::seqs_of(before_type@).take(j + 1) =~= crate::text::seqs_of(before_type@).take(j as int).push(before_type@[j as int]@));
        j += 1;
    }
    assert(crate::text::seqs_of(before_type@).take(before_type@.len() as int) =~= crate::text::seqs_of(before_type@));
    let ghost m3 = crate::text::seqs_of(members@);
    members.push(member_exec("type", str_json("telemetry")));
    assert(crate::text::seqs_of(members@) =~= m3.push(member("type"@, json_str("telemetry"@))));
    assert(crate::text::seqs_of(members@) =~= seq![member("action"@, json_str(action@)), member("details"@, json_str(details@))]
        + crate::text::seqs_of(before_status@) + seq![member("status"@, json_str(status@)), member("timestamp"@, signed_decimal(timestamp as int))]
        + crate::text::seqs_of(before_type@) + seq![member("type"@, json_str("telemetry"@))]);
    let obj = object_exec(&members);
    let mut r = String::new();
    crate::text::push_chars(&mut r, obj.as_slice());
    assert(r@ =~= event_text(
        action@,
        details@,
        status@,
        timestamp as int,
        crate::text::seqs_of(before_status@),
        crate::text::seqs_of(before_type@),
    ));
    r
}

/// The event of an action in `status`, with no extras, at the current time.
pub fn emit(action: &str, details: &str, status: &str) -> (r: String)
    ensures
        exists|t: i64| r@ == #[trigger] event_text(action@, details@, status@, t as int, seq![], seq![]),
{
    let t = utc_now_millis();
    let a: Vec<Vec<char>> = Vec::new();
    let b: Vec<Vec<char>> = Vec::new();
    assert(crate::text::seqs_of(a@) =~= Seq::<Seq<char>>::empty());
    assert(crate::text::seqs_of(b@) =~= Seq::<Seq<char>>::empty());
    build_event(action, details, status, t, a, b)
}

/// The "reasoning" event: the agent is thinking.
pub fn emit_reasoning(details: &str) -> (r: String)
    ensures
        exists|t: i64| r@ == #[trigger] event_text("reasoning"@, details@, "running"@, t as int, seq![], seq![]),
{
    emit("reasoning", details, "running")
}

/// The "success" event: the final response is ready.
pub fn emit_success(details: &str) -> (r: String)
    ensures
        exists|t: i64| r@ == #[trigger] event_text("success"@, details@, "completed"@, t as int, seq![], seq![]),
{
    emit("success", details, "completed")
}

/// The event of a tool starting, with the tool's name and the iteration.
pub fn emit_tool_start(tool_name: &str, iteration: usize) -> (r: String)
    ensures
        exists|t: i64| r@ == #[trigger] event_text(
            "tool_execution"@,
            "executing tool: "@ + tool_name@,
            "running"@,
            t as int,
            seq![member("iteration"@, decimal(iteration as nat))],
            seq![member("tool"@, json_str(tool_name@))],
        ),
{
    let mut details = String::new();
    push_str(&mut details, "executing tool: ");
    push_str(&mut details, tool_name);
    let mut a: Vec<Vec<char>> = Vec::new();
    a.push(member_exec("iteration", json_u64_exec(iteration as u64)));
    let mut b: Vec<Vec<char>> = Vec::new();
    b.push(member_exec("tool", str_json(tool_name)));
    assert(crate::text::seqs_of(a@) =~= seq![member("iteration"@, decimal(iteration as nat))]);
    assert(crate::text::seqs_of(b@) =~= seq![member("tool"@, json_str(tool_name@))]);
    let t = utc_now_millis();
    build_event("tool_execution", details.as_str(), "running", t, a, b)
}

/// How a tool run ended.
pub open spec fn outcome_word(success: bool) -> Seq<char> {
    if success { "completed"@ } else { "failed"@ }
}

/// The event of a tool finishing, with its name and duration.
pub fn emit_tool_done(tool_name: &str, success: bool, duration_ms: u128) -> (r: String)
    ensures
        exists|t: i64| r@ == #[trigger] event_text(
            "tool_execution"@,
            "tool "@ + tool_name@ + " "@ + outcome_word(success),
            outcome_word(success),
            t as int,
            seq![member("duration_ms"@, decimal(duration_ms as nat))],
            seq![member("tool"@, json_str(tool_name@))],
        ),
{
    let outcome = if success { "completed" } else { "failed" };
    let mut details = String::new();
    push_str(&mut details, "tool ");
    push_str(&mut details, tool_name);
    push_str(&mut details, " ");
    push_str(&mut details, outcome);
    let mut a: Vec<Vec<char>> = Vec::new();
    a.push(member_exec("duration_ms", json_u128_exec(duration_ms)));
    let mut b: Vec<Vec<char>> = Vec::new();
    b.push(member_exec("tool", str_json(tool_name)));
    assert(crate::text::seqs_of(a@) =~= seq![member("duration_ms"@, decimal(duration_ms as nat))]);
    assert(crate::text::seqs_of(b@) =~= seq![member("tool"@, json_str(tool_name@))]);
    let t = utc_now_millis();
    assert(outcome@ == outcome_word(success));
    assert(details@ =~= "tool "@ + tool_name@ + " "@ + outcome_word(success));
    build_event("tool_execution", details.as_str(), outcome, t, a, b)
}

/// The event of a delegation to another agent.
pub fn emit_delegation(agent_name: &str, status: &str) -> (r: String)
    ensures
        exists|t: i64| r@ == #[trigger] delegation_text(agent_name@, status@, t as int),
{
    let mut details = String::new();
    push_str(&mut details, "delegating to agent: ");
    push_str(&mut details, agent_name);
    let t = utc_now_millis();
    let mut members: Vec<Vec<char>> = Vec::new();
    members.push(member_exec("action", str_json("delegation")));
    members.push(member_exec("agent", str_json(agent_name)));
    members.push(member_exec("details", str_json(details.as_str())));
    members.push(member_exec("status", str_json(status)));
    members.push(member_exec("timestamp", json_i64_exec(t)));
    members.push(member_exec("type", str_json("telemetry")));
    let obj = object_exec(&members);
    let mut r = String::new();
    crate::text::push_chars(&mut r, obj.as_slice());
    assert(crate::text::seqs_of(members@) =~= seq![
        member("action"@, json_str("delegation"@)),
        member("agent"@, json_str(agent_name@)),
        member("details"@, json_str("delegating to agent: "@ + agent_name@)),
        member("status"@, json_str(status@)),
        member("timestamp"@, signed_decimal(t as int)),
        member("type"@, json_str("telemetry"@)),
    ]);
    assert(r@ =~= delegation_text(agent_name@, status@, t as int));
    r
}

} // verus!
