use zeroclaw::tui::dirty::DirtyFlags;
use zeroclaw::tui::swarm_view::{swarm_panel_lines, StyledText};
use zeroclaw::tui::memory_view::memory_panel_lines;
use zeroclaw::tui::log_view::{log_entry_lines, logs_panel_lines};
use zeroclaw::tui::chat_view::{chat_message_lines, chat_panel_lines, chat_title};
use zeroclaw::tui::wrapping::clock_time_exec;
use zeroclaw::tui::screen_view::{
    agent_selector_items, chat_area_lines, header_tabs, hidden_panel, input_title, panel_placeholder, status_text,
    terminal_too_small, TOO_SMALL_MESSAGE,
};
use zeroclaw::tui::subsystems::LogLine;
use zeroclaw::tui::subsystems::MemoryOperation;
use zeroclaw::tui::events::{help_step, AppEvent, EventFollowUp, HelpKey};
use zeroclaw::tui::panels::{bytes_to_human, ChatPanelState, LogsPanelState, MemoryPanelState, SwarmPanelState};
use zeroclaw::tui::state::{AppState, InputMode, MessageRole, PanelType};
use zeroclaw::tui::subsystems::{AgentStatus, LogLevel, MemoryOpType, PaletteColor};

#[test]
fn test_dirty_flags_initial_state() {
    let dirty = DirtyFlags::new();
    assert!(!dirty.is_any_dirty());
    assert!(!dirty.is_swarm_dirty());
    assert!(!dirty.is_cost_dirty());
    assert!(!dirty.is_memory_dirty());
    assert!(!dirty.is_logs_dirty());
}

#[test]
fn test_mark_single_panel() {
    let mut dirty = DirtyFlags::new();
    dirty.mark_swarm();
    assert!(dirty.is_any_dirty());
    assert!(dirty.is_swarm_dirty());
    assert!(!dirty.is_cost_dirty());
}

#[test]
fn test_mark_all_panels() {
    let mut dirty = DirtyFlags::new();
    dirty.mark_all();
    assert!(dirty.is_swarm_dirty());
    assert!(dirty.is_cost_dirty());
    assert!(dirty.is_memory_dirty());
    assert!(dirty.is_logs_dirty());
    assert!(dirty.is_any_dirty());
}

#[test]
fn test_clear_single_panel() {
    let mut dirty = DirtyFlags::new();
    dirty.mark_swarm();
    dirty.mark_cost();
    dirty.clear_swarm();
    assert!(!dirty.is_swarm_dirty());
    assert!(dirty.is_cost_dirty());
    assert!(dirty.is_any_dirty());
}

#[test]
fn clearing_the_last_dirty_panel_clears_any() {
    let mut dirty = DirtyFlags::new();
    dirty.mark_swarm();
    dirty.clear_swarm();
    assert!(!dirty.is_any_dirty());
    dirty.mark_logs();
    dirty.mark_memory();
    dirty.clear_logs();
    assert!(dirty.is_any_dirty());
    dirty.clear_memory();
    assert!(!dirty.is_any_dirty());
}

#[test]
fn test_clear_all_panels() {
    let mut dirty = DirtyFlags::new();
    dirty.mark_all();
    dirty.clear_all();
    assert!(!dirty.is_any_dirty());
    assert!(!dirty.is_swarm_dirty());
    assert!(!dirty.is_cost_dirty());
}

#[test]
fn test_default() {
    let dirty = DirtyFlags::default();
    assert!(!dirty.is_any_dirty());
}

#[test]
fn test_chat_panel_state_default() {
    let state = ChatPanelState::default();
    assert_eq!(state.scroll_offset, 0);
    assert!(state.show_timestamps);
    assert!(state.show_model);
}

#[test]
fn test_logs_panel_state_default() {
    let state = LogsPanelState::default();
    assert!(!state.visible);
    assert_eq!(state.log_level, LogLevel::Info);
    assert_eq!(state.max_lines, 200);
    assert_eq!(state.scroll_offset, 0);
}

#[test]
fn test_memory_panel_state_default() {
    let state = MemoryPanelState::default();
    assert!(!state.visible);
    assert_eq!(state.total_memories, 0);
    assert_eq!(state.storage_bytes, 0);
}

#[test]
fn test_swarm_panel_state_default() {
    let state = SwarmPanelState::default();
    assert!(!state.visible);
    assert_eq!(state.refresh_interval_secs, 1);
}

#[test]
fn test_log_level_parsing() {
    assert_eq!(LogLevel::from_str("ERROR"), Some(LogLevel::Error));
    assert_eq!(LogLevel::from_str("warn"), Some(LogLevel::Warn));
    assert_eq!(LogLevel::from_str("invalid"), None);
}

#[test]
fn log_level_parsing_accepts_warning_in_any_case() {
    assert_eq!(LogLevel::from_str("Warning"), Some(LogLevel::Warn));
    assert_eq!(LogLevel::from_str("trace"), Some(LogLevel::Trace));
    assert_eq!(LogLevel::from_str("Debug"), Some(LogLevel::Debug));
    assert_eq!(LogLevel::from_str(" info"), None);
    assert_eq!(LogLevel::Info.as_str(), "INFO");
}

#[test]
fn test_log_level_ordering() {
    assert!(LogLevel::Error < LogLevel::Warn);
    assert!(LogLevel::Warn < LogLevel::Info);
    assert!(LogLevel::Info < LogLevel::Debug);
    assert!(LogLevel::Debug < LogLevel::Trace);
}

#[test]
fn log_level_rank_follows_order() {
    let all = [LogLevel::Error, LogLevel::Warn, LogLevel::Info, LogLevel::Debug, LogLevel::Trace];
    for a in all {
        for b in all {
            assert_eq!(a < b, a.rank() < b.rank());
        }
    }
}

#[test]
fn test_log_level_colors() {
    assert_eq!(LogLevel::Error.color(), PaletteColor::Red);
    assert_eq!(LogLevel::Warn.color(), PaletteColor::Yellow);
    assert_eq!(LogLevel::Info.color(), PaletteColor::Cyan);
    assert_eq!(LogLevel::Debug.color(), PaletteColor::DarkGray);
    assert_eq!(LogLevel::Trace.color(), PaletteColor::Gray);
}

#[test]
fn test_memory_op_type_colors() {
    assert_eq!(MemoryOpType::Store.color(), PaletteColor::Green);
    assert_eq!(MemoryOpType::Recall.color(), PaletteColor::Cyan);
    assert_eq!(MemoryOpType::Search.color(), PaletteColor::Yellow);
    assert_eq!(MemoryOpType::Delete.color(), PaletteColor::Red);
    assert_eq!(MemoryOpType::Clear.color(), PaletteColor::Magenta);
}

#[test]
fn test_memory_operation_types() {
    let store_op = MemoryOpType::Store;
    let recall_op = MemoryOpType::Recall;
    assert_ne!(store_op, recall_op);
    assert_eq!(store_op.as_str(), "STORE");
    assert_eq!(MemoryOpType::Clear.as_str(), "CLEAR");
    assert_eq!(AgentStatus::default(), AgentStatus::Idle);
}

#[test]
fn test_bytes_to_human() {
    assert_eq!(bytes_to_human(0), "0 B");
    assert_eq!(bytes_to_human(1024), "1.00 KB");
    assert_eq!(bytes_to_human(1024 * 1024), "1.00 MB");
    assert_eq!(bytes_to_human(1024 * 1024 * 1024), "1.00 GB");
}

fn float_formatting(bytes: u64) -> String {
    const KB: u64 = 1024;
    const MB: u64 = KB * 1024;
    const GB: u64 = MB * 1024;
    const TB: u64 = GB * 1024;
    if bytes >= TB {
        format!("{:.2} TB", bytes as f64 / TB as f64)
    } else if bytes >= GB {
        format!("{:.2} GB", bytes as f64 / GB as f64)
    } else if bytes >= MB {
        format!("{:.2} MB", bytes as f64 / MB as f64)
    } else if bytes >= KB {
        format!("{:.2} KB", bytes as f64 / KB as f64)
    } else {
        format!("{} B", bytes)
    }
}

#[test]
fn bytes_to_human_matches_float_formatting() {
    let mut samples: Vec<u64> = vec![
        1, 1023, 1025, 1152, 1536, 2047, 1_048_575, 1_049_000, 5_242_880 + 5_243, 1_073_741_823,
        1_099_511_627_775, 1_099_511_627_776, 1_125_899_906_842_624, 9_007_199_254_740_993,
        18_014_398_509_481_985, u64::MAX, u64::MAX - 2047, 1u64 << 63,
    ];
    let mut x: u64 = 0x9E37_79B9_7F4A_7C15;
    for _ in 0..20000 {
        x ^= x << 13;
        x ^= x >> 7;
        x ^= x << 17;
        samples.push(x >> (x % 64));
        samples.push(x % 5_000_000);
    }
    for k in 0..4000u64 {
        samples.push(1024 + k * 128);
    }
    for b in samples {
        assert_eq!(bytes_to_human(b), float_formatting(b), "bytes = {}", b);
    }
}

#[test]
fn app_state_default() {
    let app = AppState::default();
    assert_eq!(app.active_session, 0);
    assert_eq!(app.sessions.len(), 1);
    assert_eq!(app.input_mode, InputMode::Normal);
    assert!(app.input_buffer.is_empty());
    assert!(!app.should_quit);
    assert_eq!(app.sessions[0].name, "Session 1");
    assert!(app.sessions[0].messages.is_empty());
    assert!(app.panels.swarm && app.panels.cost && app.panels.memory && app.panels.logs);
    assert_eq!(app.selected_agent_index, 0);
    assert_eq!(app.selected_agent(), "coder");
}

#[test]
fn test_default_agent_selection() {
    let app = AppState::default();
    assert_eq!(app.selected_agent(), "coder");
    assert_eq!(app.selected_agent_index, 0);
}

#[test]
fn test_available_agents_list() {
    let app = AppState::default();
    assert!(app.available_agents.contains(&"coder".to_string()));
    assert!(app.available_agents.contains(&"planner".to_string()));
    assert!(app.available_agents.contains(&"vision".to_string()));
    assert!(app.available_agents.contains(&"fast".to_string()));
}

#[test]
fn test_chat_input_typing() {
    let mut app = AppState::default();
    let chars = ['H', 'e', 'l', 'l', 'o'];
    for c in chars {
        app.input_buffer.push(c);
    }
    assert_eq!(app.input_buffer, "Hello");
}

#[test]
fn test_chat_input_and_send() {
    let mut app = AppState::default();
    app.input_buffer = "Hello".to_string();
    app.add_user_message(app.input_buffer.clone());
    app.input_buffer.clear();
    assert!(app.input_buffer.is_empty());
    let session = app.current_session().unwrap();
    assert_eq!(session.messages.len(), 1);
    assert_eq!(session.messages[0].role, MessageRole::User);
    assert_eq!(session.messages[0].content, "Hello");
}

#[test]
fn test_multiple_chat_messages() {
    let mut app = AppState::default();
    app.add_user_message("Hello".to_string());
    app.add_assistant_message("Hi there!".to_string(), Some("gpt-4".to_string()));
    app.add_user_message("How are you?".to_string());
    app.add_assistant_message("I'm doing well!".to_string(), Some("gpt-4".to_string()));
    let session = app.current_session().unwrap();
    assert_eq!(session.messages.len(), 4);
    assert_eq!(session.messages[0].role, MessageRole::User);
    assert_eq!(session.messages[1].role, MessageRole::Assistant);
    assert_eq!(session.messages[2].role, MessageRole::User);
    assert_eq!(session.messages[3].role, MessageRole::Assistant);
}

#[test]
fn test_backspace_removes_character() {
    let mut app = AppState::default();
    app.input_buffer = "Hello".to_string();
    app.input_buffer.pop();
    assert_eq!(app.input_buffer, "Hell");
}

#[test]
fn test_backspace_on_empty_buffer() {
    let mut app = AppState::default();
    assert!(app.input_buffer.is_empty());
    app.input_buffer.pop();
    assert!(app.input_buffer.is_empty());
}

#[test]
fn test_agent_assignment_cycle_forward() {
    let mut app = AppState::default();
    assert_eq!(app.selected_agent(), "coder");
    assert_eq!(app.selected_agent_index, 0);
    app.next_agent();
    assert_eq!(app.selected_agent(), "planner");
    assert_eq!(app.selected_agent_index, 1);
}

#[test]
fn test_agent_assignment_cycle_backward() {
    let mut app = AppState::default();
    assert_eq!(app.selected_agent(), "coder");
    app.next_agent();
    app.next_agent();
    assert_eq!(app.selected_agent(), "vision");
    app.prev_agent();
    assert_eq!(app.selected_agent(), "planner");
}

#[test]
fn test_agent_assignment_wraps() {
    let mut app = AppState::default();
    let last_index = app.available_agents.len() - 1;
    app.set_selected_agent(last_index);
    let last_agent = app.selected_agent().clone();
    app.next_agent();
    assert_eq!(app.selected_agent(), "coder");
    assert_eq!(app.selected_agent_index, 0);
    app.prev_agent();
    assert_eq!(app.selected_agent(), last_agent);
}

#[test]
fn test_agent_direct_selection() {
    let mut app = AppState::default();
    app.set_selected_agent(2);
    assert_eq!(app.selected_agent_index, 2);
    assert_eq!(app.selected_agent(), "vision");
}

#[test]
fn test_input_mode_transitions() {
    let mut app = AppState::default();
    assert_eq!(app.input_mode, InputMode::Normal);
    app.input_mode = InputMode::Insert;
    assert_eq!(app.input_mode, InputMode::Insert);
    app.input_mode = InputMode::Normal;
    assert_eq!(app.input_mode, InputMode::Normal);
}

#[test]
fn sessions_open_switch_and_close() {
    let mut app = AppState::default();
    app.add_user_message("first".to_string());
    app.new_session();
    assert_eq!(app.sessions.len(), 2);
    assert_eq!(app.active_session, 1);
    assert_eq!(app.sessions[1].name, "Session 2");
    app.next_session();
    assert_eq!(app.active_session, 0);
    app.prev_session();
    assert_eq!(app.active_session, 1);
    app.close_session();
    assert_eq!(app.sessions.len(), 1);
    assert_eq!(app.active_session, 0);
    assert_eq!(app.current_session().unwrap().messages.len(), 1);
    app.close_session();
    assert_eq!(app.sessions.len(), 1);
    assert!(app.current_session().unwrap().messages.is_empty());
}

#[test]
fn scrolling_stays_within_the_chat() {
    let mut app = AppState::default();
    app.scroll_up();
    assert_eq!(app.chat_scroll, 0);
    app.add_user_message("a".to_string());
    app.add_user_message("b".to_string());
    app.scroll_up();
    app.scroll_up();
    app.scroll_up();
    assert_eq!(app.chat_scroll, 2);
    app.scroll_down();
    assert_eq!(app.chat_scroll, 1);
    app.scroll_down();
    app.scroll_down();
    assert_eq!(app.chat_scroll, 0);
}

#[test]
fn commands_answer_and_act() {
    let mut app = AppState::default();
    assert_eq!(
        app.execute_command("help"),
        Some(("ZeroClaw TUI help: press '?' to see key bindings.".to_string(), true))
    );
    assert_eq!(app.execute_command("  NEW  "), Some(("New session created.".to_string(), true)));
    assert_eq!(app.sessions.len(), 2);
    app.add_user_message("x".to_string());
    assert_eq!(app.execute_command("clear"), Some(("Session cleared.".to_string(), true)));
    assert!(app.current_session().unwrap().messages.is_empty());
    assert_eq!(app.execute_command("test"), None);
    assert_eq!(app.execute_command(" bogus cmd"), Some(("Unknown command:  bogus cmd".to_string(), false)));
    assert!(!app.should_quit);
    assert_eq!(app.execute_command("quit now"), Some(("Quitting...".to_string(), true)));
    assert!(app.should_quit);
}

use std::time::Duration;
use zeroclaw::tui::cache::RequestCache;
use zeroclaw::tui::pool::{ClientSource, ConnectionPoolConfig, PoolCounts};

#[test]
fn test_cache_miss_returns_none() {
    let mut cache = RequestCache::new(Duration::from_secs(5));
    assert!(cache.try_get_or_mark_pending("test").is_none());
}

#[test]
fn test_cache_hit_returns_data() {
    let mut cache = RequestCache::new(Duration::from_secs(5));
    let data: serde_json::Value = serde_json::from_str("{\"test\": true}").unwrap();
    cache.try_get_or_mark_pending("test");
    cache.put_and_ready("test", data.clone());
    let cached = cache.try_get_or_mark_pending("test");
    assert_eq!(cached, Some(data));
}

#[test]
fn test_cache_pending_blocks_concurrent() {
    let mut cache = RequestCache::new(Duration::from_secs(5));
    cache.try_get_or_mark_pending("test");
    assert!(cache.try_get_or_mark_pending("test").is_none());
    cache.put_and_ready("test", serde_json::from_str("{\"data\": 1}").unwrap());
    assert!(cache.try_get_or_mark_pending("test").is_some());
}

#[test]
fn test_cache_ttl_expiration() {
    let mut cache = RequestCache::new(Duration::from_millis(100));
    let data: serde_json::Value = serde_json::from_str("{\"test\": true}").unwrap();
    assert!(cache.try_get_or_mark_pending_at("test", 0).is_none());
    cache.put_and_ready("test", data.clone());
    assert!(cache.try_get_or_mark_pending_at("test", 50).is_some());
    assert!(cache.try_get_or_mark_pending_at("test", 200).is_none());
    assert!(cache.try_get_or_mark_pending_at("test", 250).is_none());
}

#[test]
fn test_mark_failed_clears_pending() {
    let mut cache = RequestCache::new(Duration::from_secs(5));
    cache.try_get_or_mark_pending("test");
    cache.mark_failed("test");
    let cached = cache.try_get_or_mark_pending("test");
    assert!(cached.is_none());
}

#[test]
fn pool_hands_out_pooled_then_temporary_clients() {
    let config = ConnectionPoolConfig::default();
    assert_eq!(config.max_connections, 10);
    assert_eq!(config.idle_timeout, Duration::from_secs(30));
    assert_eq!(config.base_url, "http://127.0.0.1:42617");
    let mut pool = PoolCounts::new(2);
    assert_eq!(pool.acquire(), ClientSource::CreatePooled);
    assert_eq!(pool.acquire(), ClientSource::CreatePooled);
    assert_eq!(pool.acquire(), ClientSource::CreateTemporary);
    let s = pool.stats();
    assert_eq!((s.available, s.in_use, s.total_created, s.max_connections), (0, 2, 2, 2));
}

#[test]
fn event_quit_and_modes() {
    let mut app = AppState::default();
    assert_eq!(app.handle_event(AppEvent::ToggleInputMode, false), EventFollowUp::Nothing);
    assert_eq!(app.input_mode, InputMode::Insert);
    app.handle_event(AppEvent::ToggleInputMode, false);
    assert_eq!(app.input_mode, InputMode::Normal);
    app.input_mode = InputMode::Command;
    app.handle_event(AppEvent::ToggleInputMode, false);
    assert_eq!(app.input_mode, InputMode::Normal);
    app.handle_event(AppEvent::Quit, false);
    assert!(app.should_quit);
}

#[test]
fn event_typing() {
    let mut app = AppState::default();
    app.handle_event(AppEvent::CharInput('h'), false);
    app.handle_event(AppEvent::CharInput('é'), false);
    assert_eq!(app.input_buffer, "hé");
    app.handle_event(AppEvent::Backspace, false);
    assert_eq!(app.input_buffer, "h");
    app.handle_event(AppEvent::Backspace, false);
    app.handle_event(AppEvent::Backspace, false);
    assert_eq!(app.input_buffer, "");
}

#[test]
fn event_send_in_demo_mode_echoes() {
    let mut app = AppState::default();
    app.input_buffer = "hello".to_string();
    let out = app.handle_event(AppEvent::SendMessage, true);
    assert_eq!(out, EventFollowUp::Nothing);
    assert_eq!(app.input_buffer, "");
    let msgs = &app.current_session().unwrap().messages;
    assert_eq!(msgs.len(), 2);
    assert_eq!(msgs[0].role, MessageRole::User);
    assert_eq!(msgs[0].content, "hello");
    assert_eq!(msgs[1].role, MessageRole::Assistant);
    assert_eq!(msgs[1].content, "[Demo Mode] Received via 'coder': hello");
    assert_eq!(msgs[1].model_used.as_deref(), Some("demo-coder"));
}

#[test]
fn event_send_asks_for_the_agent() {
    let mut app = AppState::default();
    app.handle_event(AppEvent::NextAgent, false);
    app.input_buffer = "plan it".to_string();
    let session_id = app.current_session().unwrap().id.clone();
    let out = app.handle_event(AppEvent::SendMessage, false);
    assert_eq!(
        out,
        EventFollowUp::SendToAgent {
            session_id,
            message: "plan it".to_string(),
            agent: "planner".to_string()
        }
    );
    assert_eq!(app.input_buffer, "");
    assert_eq!(app.current_session().unwrap().messages.len(), 1);
    app.receive_agent_reply(Err("timeout".to_string()));
    app.receive_agent_reply(Ok("done".to_string()));
    let msgs = &app.current_session().unwrap().messages;
    assert_eq!(msgs[1].content, "[Error] timeout");
    assert_eq!(msgs[2].content, "done");
    assert_eq!(msgs[2].model_used, None);
}

#[test]
fn event_send_with_empty_input_does_nothing() {
    let mut app = AppState::default();
    assert_eq!(app.handle_event(AppEvent::SendMessage, false), EventFollowUp::Nothing);
    assert!(app.current_session().unwrap().messages.is_empty());
}

#[test]
fn event_spawn_and_diagnostics() {
    let mut app = AppState::default();
    assert_eq!(app.handle_event(AppEvent::SpawnAgent, false), EventFollowUp::Nothing);
    assert_eq!(app.active_agents.len(), 1);
    assert_eq!(app.active_agents[0].name, "New Agent");
    assert_eq!(app.active_agents[0].model, "gpt-4-turbo");
    assert_eq!(app.active_agents[0].progress, 0);
    assert_eq!(app.active_agents[0].status, AgentStatus::Running);
    let msgs = &app.current_session().unwrap().messages;
    assert_eq!(msgs[0].content, "[Info] Spawning new subagent...");
    assert_eq!(msgs[0].model_used.as_deref(), Some("system"));
    assert_eq!(app.handle_event(AppEvent::RunTest, false), EventFollowUp::RunDiagnostic);
    assert_eq!(app.handle_event(AppEvent::Help, false), EventFollowUp::Nothing);
}

#[test]
fn event_panels_sessions_agents() {
    let mut app = AppState::default();
    app.handle_event(AppEvent::ToggleCostPanel, false);
    assert!(!app.is_panel_visible(PanelType::Cost));
    app.handle_event(AppEvent::NewSession, false);
    assert_eq!(app.sessions.len(), 2);
    assert_eq!(app.active_session, 1);
    app.handle_event(AppEvent::NextSession, false);
    assert_eq!(app.active_session, 0);
    app.handle_event(AppEvent::PrevSession, false);
    assert_eq!(app.active_session, 1);
    app.handle_event(AppEvent::CloseSession, false);
    assert_eq!(app.sessions.len(), 1);
    app.handle_event(AppEvent::SelectAgent(7), false);
    assert_eq!(app.selected_agent(), "vision");
    app.handle_event(AppEvent::PrevAgent, false);
    assert_eq!(app.selected_agent(), "planner");
}

#[test]
fn command_results_are_recorded() {
    let mut app = AppState::default();
    app.input_buffer = "help".to_string();
    let (out, clear) = app.execute_command("help").unwrap();
    app.record_command(out, clear);
    let msgs = &app.current_session().unwrap().messages;
    assert_eq!(msgs.len(), 2);
    assert_eq!(msgs[0].content, ":help");
    assert_eq!(msgs[0].model_used.as_deref(), Some("cmd"));
    assert_eq!(msgs[1].content, "ZeroClaw TUI help: press '?' to see key bindings.");
    assert_eq!(msgs[1].model_used.as_deref(), Some("system"));
    assert_eq!(app.input_buffer, "");

    let mut app = AppState::default();
    app.input_buffer = "x".to_string();
    app.record_command(":x".to_string(), true);
    assert_eq!(app.current_session().unwrap().messages.len(), 1);
    assert_eq!(app.input_buffer, "");
}

#[test]
fn test_app_state_creation() {
    let state = AppState::new_demo();
    assert_eq!(state.input_mode, InputMode::Normal);
    assert!(!state.should_quit);
    assert_eq!(state.active_session, 0);
    assert!(state.panels.swarm);
    assert!(state.panels.cost);
    assert!(state.panels.memory);
    assert!(state.panels.logs);
}

#[test]
fn test_panel_toggling() {
    let mut state = AppState::new_demo();

    // Toggle swarm off
    state.toggle_panel(PanelType::Swarm);
    assert!(!state.panels.swarm);

    // Toggle swarm back on
    state.toggle_panel(PanelType::Swarm);
    assert!(state.panels.swarm);
}

#[test]
fn demo_panels_hold_the_demo_data() {
    let state = AppState::new_demo();
    assert_eq!(state.chat_panel.messages.len(), 2);
    assert_eq!(state.chat_panel.messages[0].id, "1");
    assert_eq!(state.chat_panel.messages[0].role, MessageRole::User);
    assert_eq!(state.chat_panel.messages[0].token_count, Some(150));
    assert_eq!(state.chat_panel.messages[1].model_used.as_deref(), Some("gpt-4"));
    assert!(state.chat_panel.messages[1].content.starts_with("I'll analyze the performance metrics."));
    assert_eq!(state.chat_panel.messages[1].timestamp - state.chat_panel.messages[0].timestamp, 60_000);
    assert_eq!(state.swarm_panel.agents.len(), 2);
    assert_eq!(state.swarm_panel.agents[0].progress, 75);
    assert_eq!(state.swarm_panel.tasks_completed, 12);
    assert_eq!(state.memory_panel.backend, "Qdrant");
    assert_eq!(state.memory_panel.total_memories, 1247);
    assert_eq!(state.memory_panel.storage_bytes, 5_242_880);
    assert_eq!(state.memory_panel.recent_operations[2].op_type, MemoryOpType::Delete);
    assert_eq!(state.log_panel.log_lines.len(), 3);
    assert_eq!(state.log_panel.log_lines[2].level, LogLevel::Warn);
    assert_eq!(state.log_panel.log_level_filter, "INFO");
    let plain = AppState::default();
    assert!(plain.chat_panel.messages.is_empty());
    assert!(plain.swarm_panel.agents.is_empty());
}

#[test]
fn demo_tick_advances_running_agents() {
    let mut state = AppState::new_demo();
    for _ in 0..5 {
        state.swarm_panel.advance_demo();
    }
    assert_eq!(state.swarm_panel.agents[0].progress, 100);
    assert_eq!(state.swarm_panel.agents[0].status, AgentStatus::Done);
    assert_eq!(state.swarm_panel.agents[1].progress, 0);
    assert_eq!(state.swarm_panel.agents[1].status, AgentStatus::Idle);
    assert_eq!(state.swarm_panel.tasks_completed, 17);
    state.swarm_panel.advance_demo();
    assert_eq!(state.swarm_panel.agents[0].progress, 100);
}

#[test]
fn test_event_handling_quit() {
    let mut app = AppState::default();
    app.handle_event(AppEvent::Quit, true);
    assert!(app.should_quit);
}

#[test]
fn test_event_handling_new_session() {
    let mut app = AppState::default();
    app.handle_event(AppEvent::NewSession, true);
    assert_eq!(app.sessions.len(), 2);
}

#[test]
fn test_event_handling_toggle_mode() {
    let mut app = AppState::default();
    assert_eq!(app.input_mode, InputMode::Normal);
    app.handle_event(AppEvent::ToggleInputMode, true);
    assert_eq!(app.input_mode, InputMode::Insert);
    app.handle_event(AppEvent::ToggleInputMode, true);
    assert_eq!(app.input_mode, InputMode::Normal);
}

#[test]
fn test_session_navigation() {
    let mut app = AppState::default();

    // Create additional sessions
    app.new_session();
    app.new_session();

    assert_eq!(app.sessions.len(), 3);
    assert_eq!(app.active_session, 2);

    // Navigate to next session (wraps to 0)
    app.next_session();
    assert_eq!(app.active_session, 0);

    // Navigate to previous session (wraps to 2)
    app.prev_session();
    assert_eq!(app.active_session, 2);
}

#[test]
fn test_panel_visibility_changes() {
    let mut app = AppState::default();

    // All panels should be visible by default
    assert!(app.panels.swarm);
    assert!(app.panels.cost);
    assert!(app.panels.memory);
    assert!(app.panels.logs);

    // Toggle swarm panel off
    app.toggle_panel(PanelType::Swarm);
    assert!(!app.panels.swarm);

    // Toggle swarm panel back on
    app.toggle_panel(PanelType::Swarm);
    assert!(app.panels.swarm);
}

#[test]
fn test_full_conversation_flow() {
    let mut app = AppState::default();

    // User enters insert mode and types
    app.input_mode = InputMode::Insert;
    app.input_buffer = "What is 2+2?".to_string();

    // User sends message
    app.add_user_message(app.input_buffer.clone());
    app.input_buffer.clear();
    app.input_mode = InputMode::Normal;

    // System responds
    app.add_assistant_message("2+2 equals 4.".to_string(), Some("gpt-4".to_string()));

    // Verify conversation state
    let session = app.current_session().unwrap();
    assert_eq!(session.messages.len(), 2);
    assert_eq!(session.messages[0].content, "What is 2+2?");
    assert_eq!(session.messages[1].content, "2+2 equals 4.");
}

#[test]
fn test_session_switch_preserves_messages() {
    let mut app = AppState::default();

    // Add messages to first session
    app.add_user_message("Session 1 message".to_string());

    // Create new session
    app.new_session();

    // Add messages to second session
    app.add_user_message("Session 2 message".to_string());

    // Switch back to first session
    app.active_session = 0;

    // Verify first session still has its message
    let session = app.current_session().unwrap();
    assert_eq!(session.messages.len(), 1);
    assert_eq!(session.messages[0].content, "Session 1 message");
}

#[test]
fn test_agent_switch_between_messages() {
    let mut app = AppState::default();

    // Send message with "coder" agent
    app.add_user_message("Code this".to_string());
    let agent1 = app.selected_agent();

    // Switch to "planner" agent
    app.next_agent();
    app.add_user_message("Plan this".to_string());
    let agent2 = app.selected_agent();

    assert_ne!(agent1, agent2);
}

#[test]
fn test_error_recovery() {
    let mut app = AppState::default();

    // User sends message
    app.add_user_message("Test message".to_string());

    // System returns error
    app.add_assistant_message("[Error] Connection timeout".to_string(), Some("system".to_string()));

    // User sends another message (should work normally)
    app.add_user_message("Retry".to_string());
    app.add_assistant_message("Success response".to_string(), None);

    let session = app.current_session().unwrap();
    assert_eq!(session.messages.len(), 4);

    // Verify error message is in history
    assert!(session.messages[1].content.contains("[Error]"));
}

#[test]
fn test_command_execution() {
    let mut app = AppState::default();

    // Execute new command (without colon - execute_command handles parsing)
    let (output, should_clear) = app.execute_command("new").unwrap();
    assert!(output.contains("created") || output.contains("New"),
            "New command should return success message, got: {}", output);
    assert!(should_clear, "New command should clear input");

    // Execute help command
    let (output, _) = app.execute_command("help").unwrap();
    assert!(!output.is_empty(), "Help command should return output");

    // Execute unknown command
    let (output, _) = app.execute_command("unknown").unwrap();
    assert!(output.contains("Unknown"), "Unknown command should return error");
}

#[test]
fn test_quit_command() {
    let mut app = AppState::default();

    // Execute quit command
    let (output, _) = app.execute_command("quit").unwrap();

    assert!(app.should_quit, "App should be set to quit");
    assert!(output.contains("Quitting"), "Quit command should return quitting message");
}

#[test]
fn test_clear_command() {
    let mut app = AppState::default();

    // Add messages
    app.add_user_message("Test".to_string());
    app.add_assistant_message("Response".to_string(), None);

    assert_eq!(app.current_session().unwrap().messages.len(), 2);

    // Execute clear command (without colon - execute_command handles the parsing)
    let (output, _) = app.execute_command("clear").unwrap();

    assert!(output.contains("cleared") || output.contains("Cleared"),
            "Clear command should return success message, got: {}", output);
    assert_eq!(app.current_session().unwrap().messages.len(), 0,
               "Session should be cleared");
}

#[test]
fn test_scroll_management() {
    let mut app = AppState::default();

    // Add multiple messages
    for i in 0..10 {
        app.add_user_message(format!("Message {}", i));
    }

    // Scroll up
    app.scroll_up();
    assert_eq!(app.chat_scroll, 1);

    // Scroll down
    app.scroll_down();
    assert_eq!(app.chat_scroll, 0);

    // Scroll past limit should not panic
    for _ in 0..100 {
        app.scroll_down();
    }
    assert_eq!(app.chat_scroll, 0);
}

#[test]
fn test_panel_toggle_persistence() {
    let mut app = AppState::default();

    // Toggle multiple panels
    app.toggle_panel(PanelType::Swarm);
    app.toggle_panel(PanelType::Cost);
    app.toggle_panel(PanelType::Memory);

    assert!(!app.panels.swarm);
    assert!(!app.panels.cost);
    assert!(!app.panels.memory);
    assert!(app.panels.logs); // Still visible

    // Toggle back
    app.toggle_panel(PanelType::Swarm);
    assert!(app.panels.swarm);
}

fn sl(text: &str, color: Option<PaletteColor>, bold: bool, italic: bool) -> StyledText {
    StyledText { text: text.to_string(), color, bold, italic }
}

#[test]
fn swarm_panel_text_for_demo_agents() {
    let state = AppState::new_demo();
    let lines = swarm_panel_lines(&state.swarm_panel.agents, Some(3));
    let expected = vec![
        sl("Active Agents: 2", Some(PaletteColor::Cyan), true, false),
        sl("", None, false, false),
        sl("● Data Analyzer (gpt-4)", Some(PaletteColor::Yellow), true, false),
        sl("  [█████████░░░] 75%", Some(PaletteColor::Yellow), false, false),
        sl("  Task: Performance analysis", Some(PaletteColor::Gray), false, false),
        sl("  Role: executor", Some(PaletteColor::DarkGray), false, true),
        sl("", None, false, false),
        sl("○ Code Inspector (inspector-3)", Some(PaletteColor::DarkGray), true, false),
        sl("  [░░░░░░░░░░░░] 0%", Some(PaletteColor::DarkGray), false, false),
        sl("  Role: inspector", Some(PaletteColor::DarkGray), false, true),
        sl("", None, false, false),
        sl("Last update: 3s ago", Some(PaletteColor::DarkGray), false, true),
    ];
    assert_eq!(lines, expected);
}

#[test]
fn swarm_panel_text_without_agents() {
    let lines = swarm_panel_lines(&vec![], None);
    assert_eq!(lines.len(), 5);
    assert_eq!(lines[0], sl("No active agents.", Some(PaletteColor::DarkGray), false, true));
    assert_eq!(lines[4], sl("Press Ctrl+A to spawn a test agent.", Some(PaletteColor::DarkGray), false, true));
    let mut state = AppState::new_demo();
    for _ in 0..5 {
        state.swarm_panel.advance_demo();
    }
    let lines = swarm_panel_lines(&state.swarm_panel.agents, Some(-2));
    assert_eq!(lines[2], sl("✓ Data Analyzer (gpt-4)", Some(PaletteColor::Green), true, false));
    assert_eq!(lines[3].text, "  [████████████] 100%");
    assert_eq!(lines.last().unwrap().text, "Last update: -2s ago");
}

#[test]
fn memory_panel_text() {
    let mut state = MemoryPanelState::default();
    state.backend = "Qdrant".to_string();
    state.total_memories = 1247;
    state.storage_bytes = 5_242_880;
    let lines = memory_panel_lines(&state);
    assert_eq!(lines.len(), 6);
    assert_eq!(lines[0], vec![sl("Backend: Qdrant", Some(PaletteColor::Cyan), true, false)]);
    assert_eq!(lines[2], vec![sl("Total Memories: 1247", Some(PaletteColor::Green), false, false)]);
    assert_eq!(lines[3], vec![sl("Storage Size: 5.00 MB", Some(PaletteColor::Yellow), false, false)]);
    assert_eq!(lines[5], vec![sl("No recent operations.", Some(PaletteColor::DarkGray), false, true)]);

    for i in 0..12 {
        state.recent_operations.push(MemoryOperation {
            op_type: if i % 2 == 0 { MemoryOpType::Store } else { MemoryOpType::Delete },
            key: if i == 11 { None } else { Some(format!("k{}", i)) },
            success: i != 10,
            timestamp: i,
        });
    }
    let lines = memory_panel_lines(&state);
    assert_eq!(lines.len(), 5 + 2 + 10);
    assert_eq!(lines[5], vec![sl("Recent Operations:", Some(PaletteColor::Cyan), true, false)]);
    assert_eq!(
        lines[7],
        vec![
            sl("✓", Some(PaletteColor::Green), false, false),
            sl(" ", None, false, false),
            sl("DELETE", Some(PaletteColor::Red), true, false),
            sl(" ", None, false, false),
            sl("(none)", Some(PaletteColor::White), false, true),
        ]
    );
    assert_eq!(lines[8][0], sl("✗", Some(PaletteColor::Red), false, false));
    assert_eq!(lines[8][4].text, "k10");
    assert_eq!(lines[16][4].text, "k2");
}

#[test]
fn clock_times() {
    assert_eq!(clock_time_exec(947638923004, true), "01:02:03.004");
    assert_eq!(clock_time_exec(947638923004, false), "01:02:03");
    assert_eq!(clock_time_exec(0, true), "00:00:00.000");
    assert_eq!(clock_time_exec(-1, true), "23:59:59.999");
    assert_eq!(clock_time_exec(-86_400_000, false), "00:00:00");
    assert_eq!(clock_time_exec(i64::MIN, true), "16:47:04.192");
}

fn log(level: LogLevel, message: &str, module: Option<&str>, timestamp: i64) -> LogLine {
    LogLine { level, message: message.to_string(), module: module.map(|m| m.to_string()), timestamp }
}

#[test]
fn log_entry_text() {
    let e = log(LogLevel::Warn, "ignored", Some("provider::openai"), 947638923004);
    let lines = log_entry_lines(&e, &vec!["first part".to_string(), "second".to_string()]);
    assert_eq!(
        lines,
        vec![
            sl("[01:02:03.004]", Some(PaletteColor::DarkGray), false, true),
            sl(" WARN ", Some(PaletteColor::Yellow), true, false),
            sl("provider::openai: ", Some(PaletteColor::Cyan), false, true),
            sl("  first part", Some(PaletteColor::White), false, false),
            sl("  second", Some(PaletteColor::White), false, false),
            sl("", None, false, false),
        ]
    );
}

#[test]
fn logs_panel_text() {
    let mut state = LogsPanelState::default();
    let empty = logs_panel_lines(&state, 40);
    assert_eq!(empty.len(), 3);
    assert_eq!(empty[0], sl("No logs to display.", Some(PaletteColor::DarkGray), false, true));
    state.log_lines.push(log(LogLevel::Debug, "hidden", None, 0));
    assert_eq!(logs_panel_lines(&state, 40).len(), 3);
    state.log_lines.push(log(LogLevel::Error, "boom", None, 1000));
    state.log_lines.push(log(LogLevel::Info, "hello world", Some("m"), 2000));
    let lines = logs_panel_lines(&state, 40);
    assert_eq!(lines.len(), 4 + 5);
    assert_eq!(lines[0].text, "[00:00:01.000]");
    assert_eq!(lines[1], sl(" ERROR ", Some(PaletteColor::Red), true, false));
    assert_eq!(lines[2].text, "  boom");
    assert_eq!(lines[6].text, "m: ");
    assert_eq!(lines[7].text, "  hello world");
    // wrapped at five columns, the last message takes two lines
    let narrow = logs_panel_lines(&state, 5);
    assert_eq!(narrow[7].text, "  hello");
    assert_eq!(narrow[8].text, "  world");
    // scrolled past the newest entry
    state.scroll_offset = 1;
    let lines = logs_panel_lines(&state, 40);
    assert_eq!(lines.len(), 4);
    state.scroll_offset = 5;
    assert!(logs_panel_lines(&state, 40).is_empty());
}

#[test]
fn chat_panel_text() {
    let mut app = AppState::default();
    let state = ChatPanelState::default();
    let lines = chat_panel_lines(&app.current_session().unwrap().messages, &state, 40);
    assert_eq!(lines.len(), 4);
    assert_eq!(lines[3], sl("Press '?' for help.", Some(PaletteColor::DarkGray), false, true));
    assert_eq!(chat_title(0), " Chat ");
    app.add_user_message("hello world".to_string());
    app.add_assistant_message("hi".to_string(), Some("gpt-4".to_string()));
    let msgs = app.current_session().unwrap().messages.clone();
    assert_eq!(chat_title(msgs.len()), " Chat (2) ");
    let lines = chat_panel_lines(&msgs, &state, 40);
    assert_eq!(lines[0], sl("You: ", Some(PaletteColor::Green), true, false));
    assert_eq!(lines[1], sl("hello world", Some(PaletteColor::White), false, false));
    assert!(lines[2].text.starts_with("  ["));
    assert_eq!(lines[2].text.len(), "  [00:00:00]".len());
    assert_eq!(lines[3], sl("", None, false, false));
    assert_eq!(lines[4], sl("AI: ", Some(PaletteColor::Cyan), true, false));
    assert_eq!(lines[5], sl("  [via gpt-4]", Some(PaletteColor::DarkGray), false, true));
    assert_eq!(lines.len(), 4 + 5);
    let hidden = ChatPanelState { scroll_offset: 1, show_timestamps: false, show_model: false };
    let lines = chat_panel_lines(&msgs, &hidden, 5);
    assert_eq!(
        lines,
        vec![
            sl("You: ", Some(PaletteColor::Green), true, false),
            sl("hello", Some(PaletteColor::White), false, false),
            sl("world", Some(PaletteColor::White), false, false),
            sl("", None, false, false),
        ]
    );
    let mut sys = msgs[0].clone();
    sys.role = MessageRole::System;
    let lines = chat_message_lines(&sys, &vec!["x".to_string()], &hidden);
    assert_eq!(lines[0], sl("System: ", Some(PaletteColor::Yellow), false, true));
    assert_eq!(lines[1], sl("x", Some(PaletteColor::Yellow), false, false));
}

#[test]
fn terminal_size_limits() {
    assert!(terminal_too_small(59, 15));
    assert!(terminal_too_small(60, 14));
    assert!(!terminal_too_small(60, 15));
    assert!(!terminal_too_small(120, 40));
    assert!(TOO_SMALL_MESSAGE.contains("60x15"));
}

#[test]
fn header_tabs_mark_active_session() {
    let mut app = AppState::default();
    app.new_session();
    let tabs = header_tabs(&app);
    assert_eq!(
        tabs,
        vec![
            sl("Session 1", Some(PaletteColor::Gray), false, false),
            sl("Session 2", Some(PaletteColor::Cyan), true, false),
        ]
    );
}

#[test]
fn agent_selector_marks_selected_agent() {
    let mut app = AppState::default();
    app.next_agent();
    let items = agent_selector_items(&app);
    assert_eq!(items.len(), 5);
    assert_eq!(items[0], sl("  coder", Some(PaletteColor::Gray), false, false));
    assert_eq!(items[1], sl("► planner", Some(PaletteColor::Cyan), true, false));
    assert_eq!(items[4], sl("  siyuan-master", Some(PaletteColor::Gray), false, false));
}

#[test]
fn input_titles_per_mode() {
    assert_eq!(input_title(InputMode::Normal), (">  Normal Mode".to_string(), PaletteColor::Cyan));
    assert_eq!(
        input_title(InputMode::Insert),
        (">  Insert Mode (Type Message)".to_string(), PaletteColor::Green)
    );
    assert_eq!(input_title(InputMode::Command), (":  Command Mode".to_string(), PaletteColor::Yellow));
}

#[test]
fn status_bar_text() {
    let mut app = AppState::default();
    assert_eq!(
        status_text(&app, "openrouter", None),
        "Session: Session 1 | Provider: openrouter | Mode: Normal | Agents: 0/5"
    );
    assert_eq!(status_text(&app, "openrouter", Some("no key")), "no key");
    app.should_quit = true;
    assert_eq!(status_text(&app, "openrouter", Some("no key")), "Quitting...");
}

#[test]
fn chat_area_shows_wrapped_messages() {
    let mut app = AppState::default();
    app.add_user_message("hello world".to_string());
    app.add_assistant_message("ok".to_string(), None);
    let lines = chat_area_lines(&app, 5);
    assert_eq!(
        lines,
        vec![
            sl("User: ", Some(PaletteColor::Cyan), true, false),
            sl("hello", Some(PaletteColor::White), false, false),
            sl("world", Some(PaletteColor::White), false, false),
            sl("", None, false, false),
            sl("Assistant: ", Some(PaletteColor::Green), true, false),
            sl("ok", Some(PaletteColor::White), false, false),
            sl("", None, false, false),
        ]
    );
    app.chat_scroll = 1;
    let lines = chat_area_lines(&app, 5);
    assert_eq!(lines.len(), 3);
    assert_eq!(lines[0], sl("Assistant: ", Some(PaletteColor::Green), true, false));
}

#[test]
fn hidden_panel_placeholders() {
    let (lines, title) = panel_placeholder(2);
    assert_eq!(title, " Memory ");
    assert_eq!(
        lines,
        vec![
            sl("Memory Panel", Some(PaletteColor::White), false, false),
            sl("", Some(PaletteColor::White), false, false),
            sl("(Press 'm' to toggle)", Some(PaletteColor::White), false, false),
        ]
    );
    assert_eq!(panel_placeholder(0).1, " Swarm ");
    assert_eq!(panel_placeholder(3).0[2].text, "(Press 'l' to toggle)");
}

#[test]
fn hidden_panel_titles() {
    let (text, title) = hidden_panel(0);
    assert_eq!(title, " Swarm (press 's' to toggle) ");
    assert_eq!(text, sl("Panel hidden. Press toggle key to show.", Some(PaletteColor::DarkGray), false, true));
    assert_eq!(hidden_panel(1).1, " Cost (press 'c' to toggle) ");
    assert_eq!(hidden_panel(3).1, " Logs (press 'l' to toggle) ");
}

#[test]
fn test_session_isolation() {
    let mut app = AppState::default();
    assert_eq!(app.active_session, 0);
    app.add_user_message("Session 0 message".to_string());
    assert_eq!(app.sessions[0].messages.len(), 1);
    app.new_session();
    assert_eq!(app.sessions.len(), 2);
    assert_eq!(app.active_session, 1);
    app.add_user_message("Session 1 message".to_string());
    assert_eq!(app.sessions[1].messages.len(), 1);
    assert_eq!(app.sessions[0].messages.len(), 1);
    assert_eq!(app.sessions[1].messages.len(), 1);
    assert_ne!(app.sessions[0].messages[0].content, app.sessions[1].messages[0].content);
}

#[test]
fn test_command_execution_quit() {
    let mut app = AppState::default();
    assert!(!app.should_quit);
    let (output, should_clear) = app.execute_command("quit").unwrap();
    assert!(app.should_quit);
    assert!(output.contains("Quitting"));
    assert!(should_clear);
}

#[test]
fn test_command_execution_help() {
    let mut app = AppState::default();
    let (output, should_clear) = app.execute_command("help").unwrap();
    assert!(output.contains("ZeroClaw TUI"));
    assert!(should_clear);
}

#[test]
fn test_command_execution_new_session() {
    let mut app = AppState::default();
    let initial_count = app.sessions.len();
    app.execute_command("new");
    assert_eq!(app.sessions.len(), initial_count + 1);
}

#[test]
fn test_command_execution_clear() {
    let mut app = AppState::default();
    app.add_user_message("Test".to_string());
    assert_eq!(app.sessions[app.active_session].messages.len(), 1);
    app.execute_command("clear");
    assert_eq!(app.sessions[app.active_session].messages.len(), 0);
}

#[test]
fn test_unknown_command() {
    let mut app = AppState::default();
    let (output, should_clear) = app.execute_command("unknown_command").unwrap();
    assert!(output.contains("Unknown command"));
    assert!(!should_clear);
}

#[test]
fn help_screen_keys() {
    assert_eq!(help_step(false, InputMode::Normal, HelpKey::Question), (true, false));
    assert_eq!(help_step(true, InputMode::Normal, HelpKey::Question), (false, false));
    assert_eq!(help_step(true, InputMode::Normal, HelpKey::Other), (true, false));
    assert_eq!(help_step(true, InputMode::Insert, HelpKey::Close), (false, false));
    assert_eq!(help_step(false, InputMode::Insert, HelpKey::Question), (false, true));
    assert_eq!(help_step(false, InputMode::Normal, HelpKey::Close), (false, true));
}

#[test]
fn leaving_command_mode_runs_the_command() {
    let mut app = AppState::default();
    app.input_mode = InputMode::Command;
    app.input_buffer = "new".to_string();
    assert!(app.leave_command_mode());
    assert_eq!(app.sessions.len(), 2);
    assert_eq!(app.active_session, 1);
    let msgs = &app.current_session().unwrap().messages;
    assert_eq!(msgs.len(), 2);
    assert_eq!(msgs[0].content, ":new");
    assert_eq!(msgs[1].content, "New session created.");
    assert_eq!(app.input_buffer, "");

    app.input_buffer = "bogus".to_string();
    assert!(app.leave_command_mode());
    let msgs = &app.current_session().unwrap().messages;
    assert_eq!(msgs[3].content, "Unknown command: bogus");
    assert_eq!(app.input_buffer, "bogus");

    app.input_buffer = "test".to_string();
    let before = app.current_session().unwrap().messages.len();
    assert!(!app.leave_command_mode());
    assert_eq!(app.current_session().unwrap().messages.len(), before);

    app.input_mode = InputMode::Insert;
    app.input_buffer = "quit".to_string();
    assert!(app.leave_command_mode());
    assert!(!app.should_quit);
}

#[test]
fn current_session_can_be_changed_in_place() {
    let mut app = AppState::default();
    app.new_session();
    app.current_session_mut().unwrap().name = "Renamed".to_string();
    assert_eq!(app.sessions[1].name, "Renamed");
    assert_eq!(app.sessions[0].name, "Session 1");
    app.active_session = 5;
    assert!(app.current_session_mut().is_none());
}
