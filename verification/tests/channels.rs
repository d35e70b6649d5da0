use zeroclaw::channels::cli_feedback::{
    agent_response_line, llm_request_line, llm_response_line, thinking_line, tool_done_line, tool_start_line,
    turn_complete_line, Colorize,
};
use zeroclaw::channels::processing::{
    conversation_history_key, conversation_memory_key, interruption_scope_key, ChannelMessage,
};

#[test]
fn test_colorize_cyan() {
    let colored = "test".cyan();
    assert!(colored.contains("\x1b[36m"));
    assert!(colored.contains("\x1b[0m"));
    assert!(colored.ends_with("\x1b[0m"));
}

#[test]
fn test_colorize_yellow() {
    let colored = "test".yellow();
    assert!(colored.contains("\x1b[33m"));
}

#[test]
fn test_colorize_green() {
    let colored = "test".green();
    assert!(colored.contains("\x1b[32m"));
}

#[test]
fn test_colorize_red() {
    let colored = "test".red();
    assert!(colored.contains("\x1b[31m"));
}

#[test]
fn test_colorize_bold() {
    let colored = "test".bold();
    assert!(colored.contains("\x1b[1m"));
}

#[test]
fn feedback_lines_exact() {
    assert_eq!(thinking_line(), "\x1b[36m🤔 Thinking...\x1b[0m");
    assert_eq!(tool_start_line("shell"), "\x1b[33m[⚙️ Tool: shell] Executing...\x1b[0m");
    assert_eq!(tool_done_line("shell", 104, true), "[⚙️ Tool: shell] \x1b[32m✓ Done (104ms)\x1b[0m");
    assert_eq!(tool_done_line("shell", 23, false), "[⚙️ Tool: shell] \x1b[31m❌ Failed (23ms)\x1b[0m");
    assert_eq!(agent_response_line("hi"), "\x1b[1m\x1b[37mhi\x1b[0m\x1b[0m");
    assert_eq!(
        llm_request_line("openrouter", "model-a", 3),
        "\x1b[36m> LLM Request (provider=openrouter, model=model-a, messages=3)\x1b[0m"
    );
    assert_eq!(
        llm_response_line("p", "m", 1234, true),
        "\x1b[36m< LLM Response (provider=p, model=m, success=true, duration_ms=1234)\x1b[0m"
    );
    assert_eq!(turn_complete_line(), "\x1b[36m< Complete\x1b[0m");
}

fn message(thread: Option<&str>) -> ChannelMessage {
    ChannelMessage {
        id: "m1".to_string(),
        sender: "alice".to_string(),
        reply_target: "room".to_string(),
        content: "hello".to_string(),
        channel: "telegram".to_string(),
        thread_ts: thread.map(|t| t.to_string()),
    }
}

#[test]
fn conversation_keys_with_and_without_thread() {
    assert_eq!(conversation_memory_key(&message(None)), "telegram_alice_m1");
    assert_eq!(conversation_memory_key(&message(Some("t9"))), "telegram_t9_alice_m1");
    assert_eq!(conversation_history_key(&message(None)), "telegram_alice");
    assert_eq!(conversation_history_key(&message(Some("t9"))), "telegram_t9_alice");
    assert_eq!(interruption_scope_key(&message(Some("t9"))), "telegram_room_alice");
}
