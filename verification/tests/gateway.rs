use zeroclaw::gateway::replies::{
    active_agents_json, agent_action_ack, chat_memory_keys, chat_reply, memory_status_reply, read_chat_request,
    swarm_communicate_ack, widget_get_reply, widget_update_ack, EventPayload, HandSummary,
};
use zeroclaw::gateway::client_ip::{client_address_text, client_key, forwarded_candidates, unbracketed};
use std::time::Duration;
use zeroclaw::channels::processing::ChannelMessage;
use zeroclaw::gateway::middleware::{GatewayRateLimiter, IdempotencyStore, SlidingWindowRateLimiter};
use zeroclaw::gateway::secrets::{constant_time_eq, hash_webhook_secret, verify_whatsapp_signature};
use zeroclaw::gateway::state::{
    linq_memory_key, nextcloud_talk_memory_key, normalize_max_keys, wati_memory_key, webhook_memory_key,
    whatsapp_memory_key,
};

#[test]
fn test_rate_limiter() {
    let mut limiter = SlidingWindowRateLimiter::new(2, Duration::from_secs(1), 100);
    assert!(limiter.allow("key1"));
    assert!(limiter.allow("key1"));
    assert!(!limiter.allow("key1"));
}

#[test]
fn rate_limiter_window_slides() {
    let mut l = SlidingWindowRateLimiter::with_window_ms(2, 1000, 100);
    assert!(l.allow_at("a", 0));
    assert!(l.allow_at("a", 10));
    assert!(!l.allow_at("a", 999));
    assert!(l.allow_at("b", 999));
    assert!(l.allow_at("a", 1000));
    assert!(!l.allow_at("a", 1009));
    assert!(l.allow_at("a", 1010));
}

#[test]
fn rate_limiter_zero_limit_allows_everything() {
    let mut l = SlidingWindowRateLimiter::with_window_ms(0, 1000, 1);
    for t in 0..50u64 {
        assert!(l.allow_at("k", t));
    }
}

#[test]
fn rate_limiter_evicts_oldest_key_when_full() {
    let mut l = SlidingWindowRateLimiter::with_window_ms(1, 1000, 2);
    assert!(l.allow_at("a", 0));
    assert!(l.allow_at("b", 5));
    assert!(l.allow_at("c", 10));
    // "a" was evicted, so it is allowed again inside its window
    assert!(l.allow_at("a", 20));
    // "c" is still tracked
    assert!(!l.allow_at("c", 30));
}

#[test]
fn gateway_rate_limiter_keeps_limits_apart() {
    let mut g = GatewayRateLimiter::new(1, 2, 10);
    assert!(g.allow_pair("ip"));
    assert!(!g.allow_pair("ip"));
    assert!(g.allow_webhook("ip"));
    assert!(g.allow_webhook("ip"));
    assert!(!g.allow_webhook("ip"));
}

#[test]
fn test_idempotency_store() {
    let mut store = IdempotencyStore::new(Duration::from_secs(1), 100);
    assert!(store.record_if_new("key1"));
    assert!(!store.record_if_new("key1"));
}

#[test]
fn idempotency_keys_expire_and_evict() {
    let mut s = IdempotencyStore::new(Duration::from_millis(100), 2);
    assert!(s.record_if_new_at("a", 0));
    assert!(!s.record_if_new_at("a", 99));
    assert!(s.record_if_new_at("a", 100));
    assert!(s.record_if_new_at("b", 110));
    assert!(s.record_if_new_at("c", 120));
    // "a" (seen earliest) gave way to "c"
    assert!(s.record_if_new_at("a", 130));
    assert!(!s.record_if_new_at("c", 131));
}

#[test]
fn test_normalize_max_keys() {
    assert_eq!(normalize_max_keys(0, 100), 100);
    assert_eq!(normalize_max_keys(50, 100), 50);
    assert_eq!(normalize_max_keys(0, 0), 1);
}

#[test]
fn test_hash_webhook_secret() {
    let secret = "test-secret";
    let hash1 = hash_webhook_secret(secret);
    let hash2 = hash_webhook_secret(secret);
    assert_eq!(hash1, hash2);
    assert_ne!(hash1, secret);
}

#[test]
fn hash_webhook_secret_known_value() {
    assert_eq!(
        hash_webhook_secret("abc"),
        "ba7816bf8f01cfea414140de5dae2223b00361a396177a9cb410ff61f20015ad"
    );
    assert_eq!(hash_webhook_secret("").len(), 64);
}

#[test]
fn whatsapp_signature_checks() {
    // HMAC-SHA256("key", "The quick brown fox jumps over the lazy dog")
    let sig = "f7bc83f430538424b13298e6aa6fb143ef4d59a14946175997479dbc2d1a3cd8";
    let body = b"The quick brown fox jumps over the lazy dog";
    assert!(verify_whatsapp_signature("key", body, &format!("sha256={}", sig)));
    assert!(verify_whatsapp_signature("key", body, sig));
    assert!(verify_whatsapp_signature("key", body, &sig.to_uppercase()));
    assert!(!verify_whatsapp_signature("other", body, sig));
    assert!(!verify_whatsapp_signature("key", body, "sha256=zz"));
    assert!(!verify_whatsapp_signature("key", body, "sha256=abc"));
}

#[test]
fn constant_time_eq_compares_contents() {
    assert!(constant_time_eq(b"abc", b"abc"));
    assert!(!constant_time_eq(b"abc", b"abd"));
    assert!(!constant_time_eq(b"abc", b"ab"));
    assert!(constant_time_eq(b"", b""));
}

fn msg() -> ChannelMessage {
    ChannelMessage {
        id: "test-id".to_string(),
        sender: "test-sender".to_string(),
        reply_target: "test-sender".to_string(),
        content: "test".to_string(),
        channel: "whatsapp".to_string(),
        thread_ts: None,
    }
}

#[test]
fn test_memory_keys() {
    let m = msg();
    let wa_key = whatsapp_memory_key(&m);
    assert!(wa_key.starts_with("whatsapp_test-sender_"));
    let linq_key = linq_memory_key(&m);
    assert!(linq_key.starts_with("linq_test-sender_"));
}

#[test]
fn memory_keys_exact() {
    let m = msg();
    assert_eq!(whatsapp_memory_key(&m), "whatsapp_test-sender_test-id");
    assert_eq!(wati_memory_key(&m), "wati_test-sender_test-id");
    assert_eq!(nextcloud_talk_memory_key(&m), "nextcloud_talk_test-sender_test-id");
    let k = webhook_memory_key();
    assert!(k.starts_with("webhook_msg_"));
    assert_eq!(k.len(), 48);
    assert_ne!(webhook_memory_key(), k);
}

use zeroclaw::agent::streaming::AgentStreamChunk;
use zeroclaw::agent::telemetry::{emit, emit_delegation, emit_reasoning, emit_success, emit_tool_done, emit_tool_start};
use zeroclaw::gateway::openai_sse::{
    convert_chunk_to_sse, format_sse_event, DeltaChoice, DeltaDelta, SSEChunk, ToolCallDelta, ToolFunction,
};
use zeroclaw::gateway::widgets::{SwarmEvent, SwarmEventType};

fn sample_chunk(content: Option<&str>, finish: Option<&'static str>) -> SSEChunk {
    SSEChunk {
        id: "test-id".to_string(),
        object: "chat.completion.chunk",
        created: 1234567890,
        model: "test-model".to_string(),
        choices: vec![DeltaChoice {
            index: 0,
            delta: DeltaDelta { content: content.map(|c| c.to_string()), tool_calls: None },
            finish_reason: finish,
        }],
    }
}

#[test]
fn test_sse_chunk_serialization() {
    let json = format_sse_event(&sample_chunk(Some("Hello"), None));
    assert!(json.contains("chat.completion.chunk"));
    assert!(json.contains("Hello"));
}

#[test]
fn test_sse_chunk_with_tool_calls() {
    let chunk = SSEChunk {
        id: "test-id".to_string(),
        object: "chat.completion.chunk",
        created: 1234567890,
        model: "test-model".to_string(),
        choices: vec![DeltaChoice {
            index: 0,
            delta: DeltaDelta {
                content: None,
                tool_calls: Some(vec![ToolCallDelta {
                    index: 0,
                    id: "call_123".to_string(),
                    tool_type: "function",
                    function: ToolFunction { name: "search".to_string(), arguments: "{}".to_string() },
                }]),
            },
            finish_reason: None,
        }],
    };
    let json = format_sse_event(&chunk);
    assert!(json.contains("tool_calls"));
    assert!(json.contains("search"));
    assert!(json.contains("\"type\":\"function\""));
}

#[test]
fn test_finish_reason_none_when_empty() {
    let json = format_sse_event(&sample_chunk(Some("test"), None));
    assert!(!json.contains("finish_reason"));
}

#[test]
fn test_finish_reason_included_when_set() {
    let json = format_sse_event(&sample_chunk(Some("test"), Some("stop")));
    assert!(json.contains("finish_reason"));
    assert!(json.contains("stop"));
}

#[test]
fn test_format_sse_event() {
    let formatted = format_sse_event(&sample_chunk(Some("Hello"), None));
    assert!(formatted.starts_with("data: "));
    assert!(formatted.ends_with("\n\n"));
    let json_str = formatted.strip_prefix("data: ").unwrap().trim();
    let parsed: serde_json::Value = serde_json::from_str(json_str).unwrap();
    assert_eq!(parsed["object"], "chat.completion.chunk");
    assert_eq!(parsed["choices"][0]["delta"]["content"], "Hello");
    assert_eq!(
        formatted,
        "data: {\"id\":\"test-id\",\"object\":\"chat.completion.chunk\",\"created\":1234567890,\"model\":\"test-model\",\"choices\":[{\"index\":0,\"delta\":{\"content\":\"Hello\"}}]}\n\n"
    );
}

#[test]
fn test_convert_text_chunk() {
    let chunk = AgentStreamChunk::Text("Hello, world!".to_string());
    let sse = convert_chunk_to_sse(&chunk, "test-model");
    assert_eq!(sse.object, "chat.completion.chunk");
    assert_eq!(sse.model, "test-model");
    assert_eq!(sse.choices.len(), 1);
    assert_eq!(sse.choices[0].index, 0);
    assert_eq!(sse.choices[0].delta.content, Some("Hello, world!".to_string()));
    assert!(sse.choices[0].delta.tool_calls.is_none());
    assert!(sse.choices[0].finish_reason.is_none());
}

#[test]
fn test_convert_tool_start_chunk() {
    let chunk = AgentStreamChunk::ToolStart {
        tool_id: "call_123".to_string(),
        tool_name: "search".to_string(),
        args: serde_json::from_str("{\"query\": \"test\"}").unwrap(),
    };
    let sse = convert_chunk_to_sse(&chunk, "test-model");
    assert_eq!(sse.object, "chat.completion.chunk");
    assert_eq!(sse.choices.len(), 1);
    assert!(sse.choices[0].delta.content.is_none());
    assert!(sse.choices[0].delta.tool_calls.is_some());
    let tool_calls = sse.choices[0].delta.tool_calls.as_ref().unwrap();
    assert_eq!(tool_calls.len(), 1);
    assert_eq!(tool_calls[0].id, "call_123");
    assert_eq!(tool_calls[0].tool_type, "function");
    assert_eq!(tool_calls[0].function.name, "search");
    assert_eq!(tool_calls[0].function.arguments, "");
}

#[test]
fn test_convert_tool_result_chunk() {
    let chunk = AgentStreamChunk::ToolResult { tool_id: "call_123".to_string(), result: "Found 5 results".to_string() };
    let sse = convert_chunk_to_sse(&chunk, "test-model");
    assert_eq!(sse.choices.len(), 1);
    let content = sse.choices[0].delta.content.as_ref().unwrap();
    assert!(content.contains("Tool result"));
    assert!(content.contains("Found 5 results"));
}

#[test]
fn test_convert_done_chunk() {
    let chunk = AgentStreamChunk::Done;
    let sse = convert_chunk_to_sse(&chunk, "test-model");
    assert_eq!(sse.choices.len(), 1);
    assert_eq!(sse.choices[0].delta.content, Some("".to_string()));
    assert_eq!(sse.choices[0].finish_reason, Some("stop"));
}

#[test]
fn test_tool_end_empty_chunk() {
    let chunk = AgentStreamChunk::ToolEnd;
    let sse = convert_chunk_to_sse(&chunk, "test-model");
    assert_eq!(sse.choices.len(), 1);
    assert!(sse.choices[0].delta.content.is_none());
    assert!(sse.choices[0].delta.tool_calls.is_none());
    assert!(sse.choices[0].finish_reason.is_none());
    assert_eq!(sse.id.len(), 36);
}

#[test]
fn telemetry_events_are_json_with_sorted_keys() {
    let e = emit_reasoning("thinking hard");
    let v: serde_json::Value = serde_json::from_str(&e).unwrap();
    assert_eq!(v["type"], "telemetry");
    assert_eq!(v["action"], "reasoning");
    assert_eq!(v["status"], "running");
    assert_eq!(v["details"], "thinking hard");
    assert!(v["timestamp"].is_i64());
    assert_eq!(serde_json::to_string(&v).unwrap(), e);
    let s: serde_json::Value = serde_json::from_str(&emit_success("done")).unwrap();
    assert_eq!(s["action"], "success");
    assert_eq!(s["status"], "completed");
    let t = emit_tool_start("shell", 3);
    let tv: serde_json::Value = serde_json::from_str(&t).unwrap();
    assert_eq!(tv["details"], "executing tool: shell");
    assert_eq!(tv["iteration"], 3);
    assert_eq!(tv["tool"], "shell");
    assert_eq!(serde_json::to_string(&tv).unwrap(), t);
    let d = emit_tool_done("shell", false, 42);
    let dv: serde_json::Value = serde_json::from_str(&d).unwrap();
    assert_eq!(dv["details"], "tool shell failed");
    assert_eq!(dv["status"], "failed");
    assert_eq!(dv["duration_ms"], 42);
    assert_eq!(serde_json::to_string(&dv).unwrap(), d);
    let g = emit_delegation("planner", "running");
    let gv: serde_json::Value = serde_json::from_str(&g).unwrap();
    assert_eq!(gv["agent"], "planner");
    assert_eq!(gv["details"], "delegating to agent: planner");
    assert_eq!(serde_json::to_string(&gv).unwrap(), g);
    let plain = emit("x\"y", "a\nb", "ok");
    let pv: serde_json::Value = serde_json::from_str(&plain).unwrap();
    assert_eq!(pv["action"], "x\"y");
    assert_eq!(pv["details"], "a\nb");
}

#[test]
fn swarm_events_serialise_in_field_order() {
    let e = SwarmEvent::a2a("alpha", "beta", "hi");
    let text = e.to_json();
    let v: serde_json::Value = serde_json::from_str(&text).unwrap();
    assert_eq!(v["type"], "a2a_communication");
    assert_eq!(v["from"], "alpha");
    assert_eq!(v["to"], "beta");
    assert_eq!(v["data"]["message"], "hi");
    assert!(text.starts_with("{\"type\":\"a2a_communication\",\"from\":\"alpha\",\"to\":\"beta\",\"data\":{\"message\":\"hi\"},\"timestamp\":"));
    let w = SwarmEvent::widget_update("w1", "[1,2]".to_string());
    let wv: serde_json::Value = serde_json::from_str(&w.to_json()).unwrap();
    assert!(wv["to"].is_null());
    assert_eq!(wv["data"][1], 2);
    assert_eq!(SwarmEvent::agent_status("a", "busy").data, "{\"status\":\"busy\"}");
    assert_eq!(SwarmEvent::agent_action("a", "b", "go").data, "{\"action\":\"go\"}");
    assert_eq!(SwarmEventType::TaskProgress.as_str(), "task_progress");
}

use zeroclaw::gateway::api::{sop_content, status_for_new_task, task_status_from_str, SopCreateBody, TaskStatus};
use zeroclaw::gateway::openai_compat::{
    convert_openai_messages, extract_content, models_response, ChatCompletionsMessage, ChatRole, ContentPart,
};

#[test]
fn task_status_names() {
    assert_eq!(task_status_from_str("Todo"), Some(TaskStatus::Todo));
    assert_eq!(task_status_from_str("InProgress"), Some(TaskStatus::InProgress));
    assert_eq!(task_status_from_str("Review"), Some(TaskStatus::Review));
    assert_eq!(task_status_from_str("Done"), Some(TaskStatus::Done));
    assert_eq!(task_status_from_str("done"), None);
    assert_eq!(status_for_new_task(&Some("bogus".to_string())), TaskStatus::Todo);
    assert_eq!(status_for_new_task(&Some("Review".to_string())), TaskStatus::Review);
    assert_eq!(status_for_new_task(&None), TaskStatus::Todo);
}

#[test]
fn sop_content_has_front_matter() {
    let b = SopCreateBody { name: "Deploy".into(), yaml: "steps: []".into() };
    assert_eq!(sop_content(&b), "---\nname: Deploy\n---\nsteps: []");
}

#[test]
fn content_parts_give_text_and_images() {
    let parts = vec![
        ContentPart::Text(Some("Hello ".into())),
        ContentPart::ImageUrl(Some("data:image/png;base64,AA".into())),
        ContentPart::Other,
        ContentPart::Text(None),
        ContentPart::Text(Some("world".into())),
    ];
    let (text, images) = extract_content(&parts, "[...]");
    assert_eq!(text, "Hello world");
    assert_eq!(images, vec!["data:image/png;base64,AA".to_string()]);
    let (fallback, none) = extract_content(&vec![ContentPart::ImageUrl(None)], "[{\"type\":\"image_url\"}]");
    assert_eq!(fallback, "[{\"type\":\"image_url\"}]");
    assert!(none.is_empty());
}

#[test]
fn roles_default_to_user() {
    let msg = |role: &str, content: &str| ChatCompletionsMessage {
        role: role.into(),
        content: content.into(),
        image_urls: vec![],
        name: None,
        tool_calls: None,
        tool_call_id: None,
        tool_id: None,
        refusal: None,
    };
    let out = convert_openai_messages(&vec![msg("system", "s"), msg("assistant", "a"), msg("tool", "t"), msg("user", "u")]);
    assert_eq!(out[0], (ChatRole::System, "s".to_string()));
    assert_eq!(out[1], (ChatRole::Assistant, "a".to_string()));
    assert_eq!(out[2], (ChatRole::User, "t".to_string()));
    assert_eq!(out[3], (ChatRole::User, "u".to_string()));
}

#[test]
fn models_list_json() {
    let r = models_response("gpt-x", true, 7);
    assert_eq!(
        r.to_json(),
        "{\"object\":\"list\",\"data\":[{\"id\":\"gpt-x\",\"object\":\"model\",\"created\":7,\"owned_by\":\"zeroclaw\"},{\"id\":\"zeroclaw-auto-router\",\"object\":\"model\",\"created\":7,\"owned_by\":\"zeroclaw\"}]}"
    );
    assert_eq!(models_response("m", false, 1).data.len(), 1);
}

#[test]
fn client_address_texts() {
    assert_eq!(client_address_text("  \"10.0.0.1\" "), Some("10.0.0.1".to_string()));
    assert_eq!(client_address_text(" \" 1.2.3.4 \" "), Some("1.2.3.4".to_string()));
    assert_eq!(client_address_text("  \"\"  "), None);
    assert_eq!(client_address_text(""), None);
    assert_eq!(unbracketed("[::1]"), "::1");
    assert_eq!(unbracketed("[[x]]"), "x");
    assert_eq!(unbracketed("::1"), "::1");
    assert_eq!(
        forwarded_candidates("1.1.1.1, 2.2.2.2"),
        vec!["1.1.1.1".to_string(), " 2.2.2.2".to_string()]
    );
    assert_eq!(forwarded_candidates(""), vec!["".to_string()]);
    assert_eq!(client_key(true, Some("9.9.9.9"), Some("1.1.1.1")), "9.9.9.9");
    assert_eq!(client_key(false, Some("9.9.9.9"), Some("1.1.1.1")), "1.1.1.1");
    assert_eq!(client_key(true, None, Some("1.1.1.1")), "1.1.1.1");
    assert_eq!(client_key(true, None, None), "unknown");
}

#[test]
fn dashboard_acks() {
    assert_eq!(widget_update_ack("w1"), "{\"broadcasted\":true,\"status\":\"ok\",\"widget_id\":\"w1\"}");
    assert_eq!(widget_get_reply("w1"), "{\"data\":null,\"widget_id\":\"w1\"}");
    assert_eq!(swarm_communicate_ack(), "{\"event_sent\":true,\"status\":\"ok\"}");
    assert_eq!(agent_action_ack(), "{\"action_broadcasted\":true,\"status\":\"ok\"}");
}

#[test]
fn dashboard_events() {
    let p = EventPayload {
        event_type: "log_entry".to_string(),
        from: Some("a".to_string()),
        to: None,
        data: Some("{\"x\":1}".to_string()),
    };
    assert_eq!(
        p.event_at(1700000000000),
        "{\"data\":{\"x\":1},\"from\":\"a\",\"timestamp\":1700000000000,\"to\":null,\"type\":\"log_entry\"}"
    );
    assert_eq!(p.ack(), "{\"broadcasted\":true,\"event_type\":\"log_entry\",\"status\":\"ok\"}");
    let q = EventPayload { event_type: "t".to_string(), from: None, to: None, data: None };
    assert_eq!(q.event_at(-5), "{\"data\":null,\"from\":null,\"timestamp\":-5,\"to\":null,\"type\":\"t\"}");
}

#[test]
fn tui_chat_requests_and_replies() {
    let refusal = "{\"error\":\"Missing or empty 'content' field\",\"response\":null}".to_string();
    assert_eq!(read_chat_request(None, Some("hi")), Ok(("default".to_string(), "hi".to_string())));
    assert_eq!(read_chat_request(Some("s1"), Some("hi")), Ok(("s1".to_string(), "hi".to_string())));
    assert_eq!(read_chat_request(Some("s1"), Some("")), Err(refusal.clone()));
    assert_eq!(read_chat_request(Some("s1"), None), Err(refusal));
    assert_eq!(chat_reply(Ok("yo")), "{\"error\":null,\"response\":\"yo\"}");
    assert_eq!(chat_reply(Err("down")), "{\"error\":\"Processing error: down\",\"response\":null}");
    assert_eq!(chat_memory_keys("s1"), ("tui:s1:user".to_string(), "tui:s1:assistant".to_string()));
}

#[test]
fn tui_agents_and_memory() {
    let hands = vec![
        HandSummary { hand_id: "h1".to_string(), cancelled: false, workspace: Some("proj".to_string()) },
        HandSummary { hand_id: "h2".to_string(), cancelled: true, workspace: None },
    ];
    assert_eq!(
        active_agents_json(&hands),
        "[{\"current_task\":\"proj\",\"id\":\"h1\",\"model\":\"hand\",\"name\":\"Hand: h1\",\"progress\":50,\"status\":\"running\"},{\"current_task\":null,\"id\":\"h2\",\"model\":\"hand\",\"name\":\"Hand: h2\",\"progress\":100,\"status\":\"done\"}]"
    );
    assert_eq!(active_agents_json(&vec![]), "[]");
    assert_eq!(
        memory_status_reply("sqlite", 7, "2024-01-01T00:00:00+00:00"),
        "{\"backend\":\"sqlite\",\"recent_operations\":[],\"storage_bytes\":0,\"timestamp\":\"2024-01-01T00:00:00+00:00\",\"total_memories\":7}"
    );
}
