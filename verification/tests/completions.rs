use zeroclaw::gateway::completions::{
    bearer_token_exec, classification_query, completion_id, completion_response, completion_response_at,
    image_mime_types, provider_error_body, provider_error_stream, request_has_images, resolve_model,
    routes_by_classifier, screen_request, should_stream, skill_query, streamed_reply, streamed_reply_at,
    word_chunks, CompletionRefusal,
};
use zeroclaw::gateway::openai_compat::{convert_openai_messages, ChatCompletionsMessage};

fn msg(role: &str, content: &str, images: &[&str]) -> ChatCompletionsMessage {
    ChatCompletionsMessage {
        role: role.to_string(),
        content: content.to_string(),
        image_urls: images.iter().map(|s| s.to_string()).collect(),
        name: None,
        tool_calls: None,
        tool_call_id: None,
        tool_id: None,
        refusal: None,
    }
}

#[test]
fn word_chunks_groups_five_words() {
    let pieces = word_chunks("one two  three\tfour\nfive six seven");
    assert_eq!(pieces, vec!["one two three four five".to_string(), "six seven".to_string()]);
    assert!(word_chunks("   ").is_empty());
    assert!(word_chunks("").is_empty());
    assert_eq!(word_chunks("a b c d e"), vec!["a b c d e".to_string()]);
}

#[test]
fn streamed_reply_pieces_then_stop_then_done() {
    let body = streamed_reply_at("id1", 5, "m", "hello world");
    let expected = [
        "data: {\"id\":\"id1\",\"object\":\"chat.completion.chunk\",\"created\":5,\"model\":\"m\",",
        "\"choices\":[{\"index\":0,\"delta\":{\"content\":\"hello world\"}}]}\n\n",
        "data: {\"id\":\"id1\",\"object\":\"chat.completion.chunk\",\"created\":5,\"model\":\"m\",",
        "\"choices\":[{\"index\":0,\"delta\":{},\"finish_reason\":\"stop\"}]}\n\n",
        "data: [DONE]\n\n",
    ]
    .join("");
    assert_eq!(body, expected);
}

#[test]
fn streamed_reply_empty_answer_only_stops() {
    let body = streamed_reply_at("x", 0, "m", "");
    assert!(body.starts_with("data: {\"id\":\"x\""));
    assert!(body.contains("\"finish_reason\":\"stop\""));
    assert_eq!(body.matches("data: ").count(), 2);
}

#[test]
fn streamed_reply_error_is_one_chunk() {
    let body = streamed_reply_at("id1", 5, "m", "an error occurred");
    let expected = [
        "data: {\"id\":\"id1\",\"object\":\"chat.completion.chunk\",\"created\":5,\"model\":\"m\",",
        "\"choices\":[{\"index\":0,\"delta\":{\"content\":\"an error occurred\"}}]}\n\n",
        "\ndata: [DONE]\n\n",
    ]
    .join("");
    assert_eq!(body, expected);
}

#[test]
fn streamed_reply_fresh_id() {
    let body = streamed_reply("m", "hi");
    assert!(body.starts_with("data: {\"id\":\"chatcmpl-"));
    assert!(body.ends_with("data: [DONE]\n\n"));
}

#[test]
fn screening_order() {
    assert_eq!(screen_request(false, true, false, 10_000_000), Some(CompletionRefusal::RateLimited));
    assert_eq!(screen_request(true, true, false, 10_000_000), Some(CompletionRefusal::InvalidApiKey));
    assert_eq!(screen_request(true, true, true, 524_289), Some(CompletionRefusal::PayloadTooLarge));
    assert_eq!(screen_request(true, false, false, 524_289), Some(CompletionRefusal::PayloadTooLarge));
    assert_eq!(screen_request(true, false, false, 524_288), None);
    assert_eq!(screen_request(true, true, true, 0), None);
}

#[test]
fn refusal_bodies_and_statuses() {
    assert_eq!(CompletionRefusal::RateLimited.status(), 429);
    assert_eq!(CompletionRefusal::InvalidApiKey.status(), 401);
    assert_eq!(CompletionRefusal::PayloadTooLarge.status(), 413);
    assert_eq!(
        CompletionRefusal::RateLimited.body_json(),
        "{\"error\":{\"code\":\"rate_limit_exceeded\",\"message\":\"Rate limit exceeded. Please retry later.\",\"type\":\"rate_limit_error\"}}"
    );
    assert_eq!(
        CompletionRefusal::InvalidApiKey.body_json(),
        "{\"error\":{\"code\":\"invalid_api_key\",\"message\":\"Invalid API key. Pair first via POST /pair\",\"type\":\"invalid_request_error\"}}"
    );
    assert_eq!(CompletionRefusal::PayloadTooLarge.body_json(), "{\"error\":\"Payload too large\"}");
}

#[test]
fn refusal_bodies_match_serde_json() {
    let v: serde_json::Value = serde_json::from_str(&CompletionRefusal::RateLimited.body_json()).unwrap();
    let mut inner = serde_json::Map::new();
    inner.insert("message".to_string(), serde_json::Value::from("Rate limit exceeded. Please retry later."));
    inner.insert("type".to_string(), serde_json::Value::from("rate_limit_error"));
    inner.insert("code".to_string(), serde_json::Value::from("rate_limit_exceeded"));
    let mut outer = serde_json::Map::new();
    outer.insert("error".to_string(), serde_json::Value::Object(inner));
    let expected = serde_json::Value::Object(outer);
    assert_eq!(v, expected);
    assert_eq!(serde_json::to_string(&expected).unwrap(), CompletionRefusal::RateLimited.body_json());
}

#[test]
fn bearer_tokens() {
    assert_eq!(bearer_token_exec("Bearer abc"), "abc");
    assert_eq!(bearer_token_exec("Bearer "), "");
    assert_eq!(bearer_token_exec("Basic abc"), "");
    assert_eq!(bearer_token_exec(""), "");
    assert_eq!(bearer_token_exec("bearer abc"), "");
}

#[test]
fn model_resolution() {
    assert_eq!(resolve_model(Some("auto"), "gpt", None), "gpt");
    assert_eq!(resolve_model(Some("zeroclaw-auto-router"), "gpt", Some("fast")), "fast");
    assert_eq!(resolve_model(Some("zeroclaw-auto-router"), "gpt", None), "gpt");
    assert_eq!(resolve_model(None, "gpt", Some("fast")), "gpt");
    assert_eq!(resolve_model(Some("mistral"), "gpt", Some("fast")), "mistral");
    assert!(routes_by_classifier(Some("zeroclaw-auto-router"), "gpt"));
    assert!(!routes_by_classifier(Some("auto"), "gpt"));
    assert!(routes_by_classifier(None, "zeroclaw-auto-router"));
    assert!(!routes_by_classifier(None, "gpt"));
}

#[test]
fn streaming_choice() {
    assert!(!should_stream(Some(2), Some(true)));
    assert!(should_stream(Some(0), Some(true)));
    assert!(should_stream(None, Some(true)));
    assert!(!should_stream(None, Some(false)));
    assert!(!should_stream(None, None));
}

#[test]
fn queries_take_the_last_user_message() {
    let ms = vec![
        msg("system", "be nice", &[]),
        msg("user", "first", &[]),
        msg("assistant", "ok", &[]),
        msg("user", "second", &[]),
        msg("tool", "result", &[]),
    ];
    assert_eq!(classification_query(&ms), "second");
    // roles other than system and assistant count as the user's
    let conv = convert_openai_messages(&ms);
    assert_eq!(skill_query(&conv), "result");
    assert_eq!(classification_query(&vec![msg("system", "x", &[])]), "");
}

#[test]
fn image_detection() {
    let ms = vec![
        msg("user", "look", &["data:image/png;base64,AAAA", "https://example.com/cat.jpg"]),
        msg("user", "and", &["data:image/jpeg;base64,BBBB"]),
    ];
    assert!(request_has_images(&ms));
    assert_eq!(
        image_mime_types(&ms),
        vec!["image/png;base64".to_string(), "image/jpeg;base64".to_string()]
    );
    let plain = vec![msg("user", "hi", &[])];
    assert!(!request_has_images(&plain));
    assert!(image_mime_types(&plain).is_empty());
    let odd = vec![msg("user", "x", &["data:", "data:a:b:c,d"])];
    assert_eq!(image_mime_types(&odd), vec!["".to_string(), "a".to_string()]);
}

#[test]
fn provider_errors() {
    assert_eq!(
        provider_error_body("boom"),
        "{\"error\":{\"message\":\"Provider error: boom\",\"type\":\"provider_error\"}}"
    );
    assert_eq!(
        provider_error_stream("boom"),
        "data: {\"error\":{\"message\":\"Provider error: boom\",\"type\":\"provider_error\"}}\n\ndata: [DONE]\n\n"
    );
}

#[test]
fn completion_without_tools() {
    let r = completion_response_at("chatcmpl-1", 7, "gpt", Some("hi".to_string()), vec![], Some(12), None);
    assert_eq!(r.id, "chatcmpl-1");
    assert_eq!(r.object, "chat.completion");
    assert_eq!(r.created, 7);
    assert_eq!(r.model, "gpt");
    assert_eq!(r.choices.len(), 1);
    assert_eq!(r.choices[0].index, 0);
    assert_eq!(r.choices[0].message.role, "assistant");
    assert_eq!(r.choices[0].message.content, "hi");
    assert!(r.choices[0].message.tool_calls.is_none());
    assert_eq!(r.choices[0].finish_reason, "stop");
    assert_eq!(r.usage.prompt_tokens, 12);
    assert_eq!(r.usage.completion_tokens, 0);
    assert_eq!(r.usage.total_tokens, 0);
}

#[test]
fn completion_with_tools() {
    let call: serde_json::Value = serde_json::from_str("{\"id\":\"c1\",\"type\":\"function\"}").unwrap();
    let r = completion_response_at("id", 1, "m", None, vec![call.clone()], Some(5_000_000_000), Some(3));
    assert_eq!(r.choices[0].message.content, "");
    assert_eq!(r.choices[0].message.tool_calls, Some(vec![call]));
    assert_eq!(r.choices[0].finish_reason, "tool_calls");
    assert_eq!(r.usage.prompt_tokens, 5_000_000_000u64 as u32);
    assert_eq!(r.usage.completion_tokens, 3);
}

#[test]
fn fresh_completion_ids() {
    let id = completion_id();
    assert!(id.starts_with("chatcmpl-"));
    assert_eq!(id.len(), "chatcmpl-".len() + 36);
    let r = completion_response("m", Some("x".to_string()), vec![], None, None);
    assert!(r.id.starts_with("chatcmpl-"));
    assert_ne!(r.id, completion_id());
}
