use zeroclaw::channels::acp::commands::{parse_zed_command, parse_zed_commands, NotifyLevel, ZedCommand};
use zeroclaw::channels::acp::handler::{
    error_notification_exec, initialize_result, is_request_line_exec, parse_error_response, parse_method, prompt_ack,
    prompt_result, pseudo_stream_fresh, pseudo_stream_messages, AcpMethod, AcpSession, AcpStep,
};
use zeroclaw::channels::acp::streaming::{StreamChunk, StreamProcessor, ZedCommandBuffer};

#[test]
fn test_parse_zed_open_file() {
    let cmd = parse_zed_command("[[ZED:open:Cargo.toml]]").unwrap();
    match cmd {
        ZedCommand::OpenFile { path, line, column } => {
            assert_eq!(path, "Cargo.toml");
            assert_eq!(line, None);
            assert_eq!(column, None);
        }
        _ => panic!("Expected OpenFile command"),
    }
}

#[test]
fn test_parse_zed_open_file_with_line() {
    let cmd = parse_zed_command("[[ZED:open:src/main.rs:42]]").unwrap();
    match cmd {
        ZedCommand::OpenFile { path, line, column } => {
            assert_eq!(path, "src/main.rs");
            assert_eq!(line, Some(42));
            assert_eq!(column, None);
        }
        _ => panic!("Expected OpenFile command"),
    }
}

#[test]
fn test_parse_zed_scroll() {
    let cmd = parse_zed_command("[[ZED:scroll:100]]").unwrap();
    match cmd {
        ZedCommand::ScrollTo { line, column } => {
            assert_eq!(line, 100);
            assert_eq!(column, None);
        }
        _ => panic!("Expected ScrollTo command"),
    }
}

#[test]
fn test_parse_zed_commands_from_response() {
    let response = "I'll open the file for you.\n\
        [[ZED:open:src/main.rs:42]]\n\
        The bug is on line 42.";
    let (cleaned, commands) = parse_zed_commands(response);
    assert!(!cleaned.contains("[[ZED:"));
    assert!(!cleaned.contains("[["));
    assert_eq!(commands.len(), 1);
    match &commands[0] {
        ZedCommand::OpenFile { path, line, .. } => {
            assert_eq!(path, "src/main.rs");
            assert_eq!(*line, Some(42));
        }
        _ => panic!("Expected OpenFile command"),
    }
}

#[test]
fn test_parse_zed_multiple_commands() {
    let response = "Checking the file...\n\
        [[ZED:open:Cargo.toml]]\n\
        [[ZED:scroll:10]]\n\
        [[ZED:highlight:5:15]]\n\
        Done!";
    let (cleaned, commands) = parse_zed_commands(response);
    assert_eq!(commands.len(), 3);
    assert!(cleaned.contains("Checking the file"));
    assert!(cleaned.contains("Done!"));
}

#[test]
fn test_parse_zed_notify_info() {
    let cmd = parse_zed_command("[[ZED:info:This is a message]]").unwrap();
    match cmd {
        ZedCommand::Notify { message, level } => {
            assert_eq!(message, "This is a message");
            assert_eq!(level, Some(NotifyLevel::Info));
        }
        _ => panic!("Expected Notify command"),
    }
}

#[test]
fn test_parse_zed_notify_warning() {
    let cmd = parse_zed_command("[[ZED:warn:Warning message]]").unwrap();
    match cmd {
        ZedCommand::Notify { message, level } => {
            assert_eq!(message, "Warning message");
            assert_eq!(level, Some(NotifyLevel::Warning));
        }
        _ => panic!("Expected Notify command"),
    }
}

#[test]
fn test_parse_zed_notify_error() {
    let cmd = parse_zed_command("[[ZED:error:Error occurred]]").unwrap();
    match cmd {
        ZedCommand::Notify { message, level } => {
            assert_eq!(message, "Error occurred");
            assert_eq!(level, Some(NotifyLevel::Error));
        }
        _ => panic!("Expected Notify command"),
    }
}

#[test]
fn test_parse_zed_highlight() {
    let cmd = parse_zed_command("[[ZED:highlight:10:20]]").unwrap();
    match cmd {
        ZedCommand::Highlight { start, end } => {
            assert_eq!(start.line, 10);
            assert_eq!(end.line, 20);
        }
        _ => panic!("Expected Highlight command"),
    }
}

#[test]
fn test_parse_zed_invalid_command() {
    assert!(parse_zed_command("Some regular text").is_none());
    assert!(parse_zed_command("[[ZED:open:test.txt").is_none());
    assert!(parse_zed_command("[[NOTZED:open:test.txt]]").is_none());
}

#[test]
fn test_parse_zed_open_file_with_column() {
    let cmd = parse_zed_command("[[ZED:open:src/main.rs:42:10]]").unwrap();
    match cmd {
        ZedCommand::OpenFile { path, line, column } => {
            assert_eq!(path, "src/main.rs");
            assert_eq!(line, Some(42));
            assert_eq!(column, Some(10));
        }
        _ => panic!("Expected OpenFile command"),
    }
}

#[test]
fn test_parse_zed_scroll_with_column() {
    let cmd = parse_zed_command("[[ZED:scroll:100:5]]").unwrap();
    match cmd {
        ZedCommand::ScrollTo { line, column } => {
            assert_eq!(line, 100);
            assert_eq!(column, Some(5));
        }
        _ => panic!("Expected ScrollTo command"),
    }
}

#[test]
fn zed_command_json_exact() {
    let cmd = ZedCommand::open_file_at_line("src/main.rs".to_string(), 42);
    let json: String = cmd.to_json().into_iter().collect();
    assert!(json.contains("\"type\":\"openFile\""));
    assert!(json.contains("\"path\":\"src/main.rs\""));
    assert!(json.contains("\"line\":42"));
    let parsed: serde_json::Value = serde_json::from_str(&json).unwrap();
    assert_eq!(parsed["line"], 42);
}

#[test]
fn parse_rejects_bad_numbers_and_unknown_actions() {
    assert!(parse_zed_command("[[ZED:scroll:abc]]").is_none());
    assert!(parse_zed_command("[[ZED:jump:10]]").is_none());
    assert!(parse_zed_command("[[ZED:highlight:10]]").is_none());
}

#[test]
fn test_buffer_no_command() {
    let mut buffer = ZedCommandBuffer::new();
    let output = buffer.process_chunk("Hello world");
    assert_eq!(output, "Hello world");
    assert!(buffer.commands().is_empty());
}

#[test]
fn test_buffer_complete_command() {
    let mut buffer = ZedCommandBuffer::new();
    let output = buffer.process_chunk("Check this [[ZED:open:test.txt:42]] file");
    assert_eq!(output, "Check this  file");
    assert_eq!(buffer.commands().len(), 1);
    match &buffer.commands()[0] {
        ZedCommand::OpenFile { path, line, .. } => {
            assert_eq!(path, "test.txt");
            assert_eq!(*line, Some(42));
        }
        _ => panic!("Expected OpenFile command"),
    }
}

#[test]
fn test_buffer_command_split_across_chunks() {
    let mut buffer = ZedCommandBuffer::new();
    let output1 = buffer.process_chunk("Text [[ZED:op");
    assert_eq!(output1, "Text ");
    assert!(buffer.commands().is_empty());
    let output2 = buffer.process_chunk("en:test.txt]] more");
    assert_eq!(output2, " more");
    assert_eq!(buffer.commands().len(), 1);
}

#[test]
fn test_buffer_false_positive() {
    let mut buffer = ZedCommandBuffer::new();
    let output = buffer.process_chunk("Text with [[brackets]] but not command");
    assert_eq!(output, "Text with [[brackets]] but not command");
    assert!(buffer.commands().is_empty());
}

#[test]
fn test_buffer_triple_bracket() {
    let mut buffer = ZedCommandBuffer::new();
    let output = buffer.process_chunk("Text with [[[triple]] brackets");
    assert!(!output.is_empty());
}

#[test]
fn test_buffer_ends_at_double_bracket() {
    let mut buffer = ZedCommandBuffer::new();
    let output1 = buffer.process_chunk("Text [[");
    assert_eq!(output1, "Text ");
    let output2 = buffer.process_chunk("ZED:open:test.txt]] done");
    assert!(output2.contains("done"));
    assert_eq!(buffer.commands().len(), 1);
}

#[test]
fn test_buffer_ends_mid_command() {
    let mut buffer = ZedCommandBuffer::new();
    let output1 = buffer.process_chunk("Text [[ZED:op");
    assert_eq!(output1, "Text ");
    assert!(buffer.commands().is_empty());
    let output2 = buffer.process_chunk("en:test.txt");
    assert!(output2.is_empty());
    assert!(buffer.commands().is_empty());
    let output3 = buffer.process_chunk("]] done");
    assert!(output3.contains("done"));
    assert_eq!(buffer.commands().len(), 1);
}

#[test]
fn test_buffer_overflow_protection() {
    let mut buffer = ZedCommandBuffer::new();
    let long_text = "[[".repeat(200);
    let output = buffer.process_chunk(&long_text);
    assert!(!output.is_empty());
    assert!(buffer.commands().is_empty());
}

#[test]
fn test_buffer_multiple_commands_in_stream() {
    let mut buffer = ZedCommandBuffer::new();
    let output = buffer.process_chunk("Check [[ZED:open:file1.txt]] and [[ZED:open:file2.txt:10]] done");
    assert_eq!(output, "Check  and  done");
    assert_eq!(buffer.commands().len(), 2);
}

#[test]
fn test_buffer_finalize() {
    let mut buffer = ZedCommandBuffer::new();
    buffer.process_chunk("Text [[ZED:open:test.txt]] more");
    let (full_text, commands) = buffer.finalize();
    assert_eq!(full_text, "Text  more");
    assert_eq!(commands.len(), 1);
}

#[test]
fn buffer_result_independent_of_chunking() {
    let text = "a [[ZED:scroll:7]] b [[x]] c [[ZED:info:hi]] d";
    let mut whole = ZedCommandBuffer::new();
    let mut out_whole = whole.process_chunk(text);
    let (rest, cmds_whole) = whole.finalize();
    out_whole.push_str(&rest);
    for split in 0..text.len() {
        if !text.is_char_boundary(split) {
            continue;
        }
        let mut b = ZedCommandBuffer::new();
        let mut out = b.process_chunk(&text[..split]);
        out.push_str(&b.process_chunk(&text[split..]));
        let (rest, cmds) = b.finalize();
        out.push_str(&rest);
        assert_eq!(out, out_whole);
        assert_eq!(cmds.len(), cmds_whole.len());
    }
}

#[test]
fn test_stream_processor_new() {
    let processor = StreamProcessor::new("test-id".to_string());
    assert!(!processor.is_complete());
    assert!(processor.buffer().commands().is_empty());
}

#[test]
fn test_stream_processor_process_chunk() {
    let mut processor = StreamProcessor::new("test-id".to_string());
    let chunk = StreamChunk { delta: "Hello world".to_string(), is_final: false, token_count: 2 };
    let json_msg = processor.process_chunk(&chunk);
    assert!(json_msg.is_some());
    let msg = json_msg.unwrap();
    assert!(msg.contains("\"method\":\"progress\""));
    assert!(msg.contains("Hello world"));
}

#[test]
fn test_stream_processor_final_chunk() {
    let mut processor = StreamProcessor::new("test-id".to_string());
    let chunk = StreamChunk { delta: String::new(), is_final: true, token_count: 0 };
    let json_msg = processor.process_chunk(&chunk);
    assert!(json_msg.is_none());
    assert!(processor.is_complete());
}

#[test]
fn test_stream_processor_command_extraction() {
    let mut processor = StreamProcessor::new("test-id".to_string());
    let chunk = StreamChunk { delta: "Check [[ZED:open:test.txt:42]]".to_string(), is_final: false, token_count: 5 };
    let json_msg = processor.process_chunk(&chunk);
    assert!(json_msg.is_some());
    let (text, commands) = processor.finalize();
    assert!(!text.contains("[[ZED:"));
    assert_eq!(commands.len(), 1);
}

#[test]
fn test_stream_processor_build_final_message() {
    let mut processor = StreamProcessor::new("test-123".to_string());
    let chunk = StreamChunk { delta: "Hello [[ZED:open:test.txt]] world".to_string(), is_final: false, token_count: 5 };
    processor.process_chunk(&chunk);
    let final_msg = processor.build_final_message();
    assert!(final_msg.contains("\"requestId\":\"test-123\""));
    assert!(final_msg.contains("\"status\":\"complete\""));
    assert!(final_msg.contains("\"response\""));
    assert!(final_msg.contains("\"zedCommands\""));
    let parsed: serde_json::Value = serde_json::from_str(&final_msg).unwrap();
    assert_eq!(parsed["response"], "Hello  world");
}

use zeroclaw::channels::acp::rpc::{build_prompt_with_skills, build_prompt_with_zed_instructions, JsonRpcError};

#[test]
fn test_build_prompt_with_zed_instructions() {
    let prompt = "Hello, world!";
    let enriched = build_prompt_with_zed_instructions(prompt);
    assert!(enriched.contains("Zed Editor ACP mode"));
    assert!(enriched.contains("[[ZED:open:"));
    assert!(enriched.contains(prompt));
    assert!(enriched.ends_with("use these commands.\n\nHello, world!"));
    assert!(enriched.starts_with("You are running in Zed Editor ACP mode."));
}

#[test]
fn test_json_rpc_error_codes() {
    assert_eq!(JsonRpcError::PARSE_ERROR_CODE, -32700);
    assert_eq!(JsonRpcError::INVALID_REQUEST_CODE, -32600);
    assert_eq!(JsonRpcError::METHOD_NOT_FOUND_CODE, -32601);
    assert_eq!(JsonRpcError::INVALID_PARAMS_CODE, -32602);
    assert_eq!(JsonRpcError::INTERNAL_ERROR_CODE, -32603);
}

#[test]
fn test_json_rpc_error_creation() {
    let error = JsonRpcError::new(100, "Test error");
    assert_eq!(error.code, 100);
    assert_eq!(error.message, "Test error");
    assert!(error.data.is_none());
}

#[test]
fn test_json_rpc_error_standard_errors() {
    let parse_error = JsonRpcError::parse_error();
    assert_eq!(parse_error.code, -32700);
    assert_eq!(parse_error.message, "Parse error");
    let invalid_req = JsonRpcError::invalid_request();
    assert_eq!(invalid_req.code, -32600);
    let method_not_found = JsonRpcError::method_not_found();
    assert_eq!(method_not_found.code, -32601);
    let invalid_params = JsonRpcError::invalid_params();
    assert_eq!(invalid_params.code, -32602);
    let internal = JsonRpcError::internal_error();
    assert_eq!(internal.code, -32603);
    let custom = JsonRpcError::internal_error_with_message("Custom error");
    assert_eq!(custom.code, -32603);
    assert_eq!(custom.message, "Custom error");
}

#[test]
fn acp_methods_and_lines() {
    assert_eq!(parse_method("initialize"), AcpMethod::Initialize);
    assert_eq!(parse_method("text/append"), AcpMethod::TextAppend);
    assert_eq!(parse_method("text/complete"), AcpMethod::TextComplete);
    assert_eq!(parse_method("prompt"), AcpMethod::Prompt);
    assert_eq!(parse_method("shutdown"), AcpMethod::Shutdown);
    assert_eq!(parse_method("text/delta"), AcpMethod::Unknown);
    assert!(is_request_line_exec("{\"method\":\"x\"}"));
    assert!(!is_request_line_exec("   "));
    assert!(!is_request_line_exec(""));
    assert!(!is_request_line_exec("  # comment"));
}

#[test]
fn acp_initialize_result() {
    let r = initialize_result("1.2.3");
    assert_eq!(
        r,
        "{\"capabilities\":{\"memory\":true,\"streaming\":true,\"tools\":true},\"protocolVersion\":\"2024-11-05\",\"serverInfo\":{\"name\":\"ZeroClaw\",\"version\":\"1.2.3\"}}"
    );
}

#[test]
fn acp_text_append_and_complete() {
    let mut s = AcpSession::new();
    assert_eq!(s.session_id().len(), 36);
    let step = s.handle_request("1", "text/append", Some("héllo"), "0.1.0");
    assert_eq!(
        step,
        AcpStep::Respond {
            response: "{\"jsonrpc\":\"2.0\",\"id\":1,\"result\":{\"accepted\":true,\"length\":6}}".to_string(),
            shutdown: false
        }
    );
    s.handle_request("2", "text/append", Some(" x"), "0.1.0");
    assert_eq!(s.pending_text(), "héllo x");
    let step = s.handle_request("\"c\"", "text/complete", None, "0.1.0");
    assert_eq!(
        step,
        AcpStep::Respond {
            response: "{\"jsonrpc\":\"2.0\",\"id\":\"c\",\"result\":{\"text\":\"héllo x\"}}".to_string(),
            shutdown: false
        }
    );
}

#[test]
fn acp_errors_and_shutdown() {
    let mut s = AcpSession::new();
    let step = s.handle_request("3", "text/append", None, "0.1.0");
    assert_eq!(
        step,
        AcpStep::Respond {
            response: "{\"jsonrpc\":\"2.0\",\"id\":3,\"error\":{\"code\":-32603,\"message\":\"Missing 'text' parameter in text/append\"}}".to_string(),
            shutdown: false
        }
    );
    assert_eq!(s.pending_text(), "");
    let step = s.handle_request("null", "nope", None, "0.1.0");
    assert_eq!(
        step,
        AcpStep::Respond {
            response: "{\"jsonrpc\":\"2.0\",\"id\":null,\"error\":{\"code\":-32603,\"message\":\"Unknown method: nope\"}}".to_string(),
            shutdown: false
        }
    );
    assert_eq!(s.handle_request("4", "prompt", None, "0.1.0"), AcpStep::RunPrompt);
    let step = s.handle_request("5", "shutdown", None, "0.1.0");
    assert_eq!(
        step,
        AcpStep::Respond {
            response: "{\"jsonrpc\":\"2.0\",\"id\":5,\"result\":{\"shutdown\":true}}".to_string(),
            shutdown: true
        }
    );
    assert_eq!(
        parse_error_response("EOF while parsing"),
        "{\"jsonrpc\":\"2.0\",\"id\":null,\"error\":{\"code\":-32700,\"message\":\"Parse error: EOF while parsing\"}}"
    );
}

#[test]
fn acp_prompt_acks() {
    assert_eq!(prompt_ack(Ok(())), "{\"status\":\"streaming\"}");
    assert_eq!(prompt_ack(Err("Streaming failed".to_string())), "{\"error\":\"Streaming failed\",\"status\":\"error\"}");
}

#[test]
fn acp_pseudo_stream() {
    let msgs = pseudo_stream_messages("r", "hi\n[[ZED:scroll:10]]");
    assert_eq!(msgs.len(), 2);
    assert_eq!(
        msgs[0],
        "{\"jsonrpc\":\"2.0\",\"method\":\"progress\",\"params\":{\"isLast\":true,\"requestId\":\"r\",\"text\":\"hi\",\"type\":\"text/delta\"}}"
    );
    assert_eq!(
        msgs[1],
        "{\"requestId\":\"r\",\"response\":\"hi\",\"status\":\"complete\",\"zedCommands\":[{\"line\":10,\"type\":\"scrollTo\"}]}"
    );
    let long = "a".repeat(120);
    let msgs = pseudo_stream_messages("r", &long);
    assert_eq!(msgs.len(), 4);
    assert!(msgs[0].contains(&format!("\"text\":\"{}\"", "a".repeat(50))));
    assert!(msgs[0].contains("\"isLast\":false"));
    assert!(msgs[2].contains(&format!("\"text\":\"{}\"", "a".repeat(20))));
    assert!(msgs[2].contains("\"isLast\":true"));
    assert!(msgs[3].contains("\"zedCommands\":[]"));
    let msgs = pseudo_stream_messages("r", "");
    assert_eq!(msgs, vec!["{\"requestId\":\"r\",\"response\":\"\",\"status\":\"complete\",\"zedCommands\":[]}".to_string()]);
    let fresh = pseudo_stream_fresh("ok");
    assert_eq!(fresh.len(), 2);
}

#[test]
fn acp_prompt_results() {
    assert_eq!(
        prompt_result("r", Ok("hi".to_string())),
        "{\"requestId\":\"r\",\"response\":\"hi\",\"status\":\"complete\"}"
    );
    assert_eq!(
        prompt_result("r", Ok("see\n[[ZED:open:a.rs]]".to_string())),
        "{\"requestId\":\"r\",\"response\":\"see\",\"status\":\"complete\",\"zedCommands\":[{\"path\":\"a.rs\",\"type\":\"openFile\"}]}"
    );
    assert_eq!(
        prompt_result("r", Err("bad".to_string())),
        "{\"error\":\"bad\",\"requestId\":\"r\",\"status\":\"error\"}"
    );
    assert_eq!(
        error_notification_exec("r", "oops"),
        "{\"jsonrpc\":\"2.0\",\"method\":\"progress\",\"params\":{\"error\":\"oops\",\"requestId\":\"r\",\"type\":\"error\"}}"
    );
}

#[test]
fn prompt_with_skills_instructions() {
    assert_eq!(build_prompt_with_skills("do it", ""), "do it");
    assert_eq!(
        build_prompt_with_skills("do it", "  ## Skill: lint\nrun clippy \n"),
        "## Skill: lint\nrun clippy\n\nUser request: do it"
    );
}

#[test]
fn lone_bracket_text_passes_at_once() {
    let mut b = ZedCommandBuffer::new();
    assert_eq!(b.process_chunk("a [b] c"), "a [b] c");
    assert!(b.commands().is_empty());
    assert_eq!(b.process_chunk("x ["), "x ");
    assert_eq!(b.process_chunk("[ZED:scroll:3]] y"), " y");
    assert_eq!(b.commands().len(), 1);
    let (text, cmds) = b.finalize_ref();
    assert_eq!(text, "a [b] cx  y");
    assert_eq!(cmds.len(), 1);
    let (text, cmds) = b.finalize_ref();
    assert_eq!(text, "");
    assert!(cmds.is_empty());
}

#[test]
fn held_back_text_is_returned_once() {
    let mut b = ZedCommandBuffer::new();
    assert_eq!(b.process_chunk("hi [[ZED:op"), "hi ");
    let (text, _) = b.finalize_ref();
    assert_eq!(text, "hi [[ZED:op");
    let (text, _) = b.finalize_ref();
    assert_eq!(text, "");
}

#[test]
fn formatted_commands_read_back() {
    let c = parse_zed_command(&format!("[[ZED:scroll:{}]]", u32::MAX)).unwrap();
    assert!(matches!(c, ZedCommand::ScrollTo { line: u32::MAX, column: None }));
    let c = parse_zed_command(&format!("[[ZED:highlight:{}:{}]]", 0, 4_000_000_000u32)).unwrap();
    assert!(matches!(c, ZedCommand::Highlight { start, end } if start.line == 0 && end.line == 4_000_000_000));
    let c = parse_zed_command("[[ZED:open:src/lib.rs]]").unwrap();
    assert!(matches!(c, ZedCommand::OpenFile { ref path, line: None, column: None } if path == "src/lib.rs"));
    assert!(parse_zed_command("  [[ZED:scroll:7]] \n").is_some());
}
