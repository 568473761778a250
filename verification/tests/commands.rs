use blockcell::slash_commands::{
    ClearCommand, ClearOutcome, CommandResult, CommandSource, CompactCommand, ExitCommand,
    HandleStep, LearnCommand, QuitCommand, SlashCommandHandler, SlashCommandKind, timeout_result,
};

fn no_outcome() -> ClearOutcome {
    ClearOutcome {
        memory_cleared: None,
        history: Ok(false),
        memory_file_path: "/w/sessions/cli_test-chat/memory.md".to_string(),
        memory_file: None,
        tool_results_path: "/w/sessions/cli_test-chat/tool-results".to_string(),
        tool_results: None,
    }
}

#[test]
fn test_clear_command() {
    let source = CommandSource {
        channel: "cli".to_string(),
        chat_id: "test-chat".to_string(),
        sender_id: Some("test-user".to_string()),
    };
    let key = ClearCommand::session_key(&source);
    assert_eq!(key, "cli:test-chat");
    let result = ClearCommand::report(&key, &no_outcome());
    assert!(matches!(result, CommandResult::Handled(_)));
}

#[test]
fn clear_report_lists_each_step() {
    let outcome = ClearOutcome {
        memory_cleared: Some(true),
        history: Err("denied".to_string()),
        memory_file_path: "/m.md".to_string(),
        memory_file: Some(Ok(())),
        tool_results_path: "/t".to_string(),
        tool_results: Some(Err("busy".to_string())),
    };
    match ClearCommand::report("ws:1", &outcome) {
        CommandResult::Handled(resp) => {
            assert!(resp.is_markdown);
            assert_eq!(
                resp.content,
                "📋 会话清除结果:\n- ✅ 会话内存状态已清除\n- ⚠️ 会话历史文件删除失败 (session: ws:1): denied\n- ✅ Session Memory 文件已删除\n- ⚠️ 工具结果目录删除失败 (session: ws:1, path: /t): busy\n"
            );
        }
        other => panic!("unexpected {:?}", other),
    }
    match ClearCommand::report("cli:x", &no_outcome()) {
        CommandResult::Handled(resp) => assert_eq!(
            resp.content,
            "📋 会话清除结果:\n- ℹ️ 无内存清除回调（可能是 Gateway 模式）\n- ℹ️ 无会话历史文件（可能从未对话过）\n"
        ),
        other => panic!("unexpected {:?}", other),
    }
}

#[test]
fn test_compact_command_name() {
    let cmd = CompactCommand;
    assert_eq!(cmd.name(), "compact");
}

#[test]
fn test_compact_command_description() {
    let cmd = CompactCommand;
    assert!(!cmd.description().is_empty());
}

#[test]
fn test_compact_command_execute() {
    let cmd = CompactCommand;
    match cmd.execute("") {
        CommandResult::ForwardToRuntime { transformed_content, original_command } => {
            assert_eq!(transformed_content, "__COMPACT_REQUEST__");
            assert_eq!(original_command, "/compact");
        }
        _ => panic!("Expected ForwardToRuntime result"),
    }
}

#[test]
fn test_compact_command_with_args() {
    let cmd = CompactCommand;
    match cmd.execute("some args") {
        CommandResult::ForwardToRuntime { .. } => {}
        _ => panic!("Expected ForwardToRuntime result"),
    }
}

#[test]
fn test_learn_command_empty() {
    let cmd = LearnCommand;
    let result = cmd.execute("");
    assert!(matches!(result, CommandResult::Handled(_)));
    if let CommandResult::Handled(response) = result {
        assert!(response.content.contains("Usage"));
    }
}

#[test]
fn test_learn_command_with_description() {
    let cmd = LearnCommand;
    let result = cmd.execute("data analysis skill");
    assert!(matches!(result, CommandResult::ForwardToRuntime { .. }));
    if let CommandResult::ForwardToRuntime { transformed_content, original_command } = result {
        assert!(transformed_content.contains("data analysis skill"));
        assert!(transformed_content.contains("Please learn"));
        assert_eq!(original_command, "/learn data analysis skill");
    }
}

#[test]
fn learn_trims_and_forwards_exact_text() {
    match LearnCommand.execute("  weather  ") {
        CommandResult::ForwardToRuntime { transformed_content, original_command } => {
            assert_eq!(
                transformed_content,
                "Please learn the following skill: weather\n\nIf this skill is already learned (has a record in list_skills query=learned), just tell me it's done.\nOtherwise, start learning this skill and report progress."
            );
            assert_eq!(original_command, "/learn weather");
        }
        other => panic!("unexpected {:?}", other),
    }
    assert!(matches!(LearnCommand.execute("   "), CommandResult::Handled(_)));
    assert!(LearnCommand.accepts_args());
    assert_eq!(LearnCommand.timeout_secs(), 120);
}

#[test]
fn test_quit_command_cli() {
    let cmd = QuitCommand;
    let result = cmd.execute("");
    assert!(matches!(result, CommandResult::ExitRequested));
}

#[test]
fn test_quit_command_channel_restriction() {
    let mut handler = SlashCommandHandler::new();
    handler.register(SlashCommandKind::Quit(QuitCommand));
    let source = CommandSource::websocket("test-chat".to_string());
    match handler.step("/quit", &source.channel) {
        HandleStep::Respond(CommandResult::Handled(response)) => {
            assert!(response.content.contains("仅"));
        }
        _ => panic!("Expected Handled response for channel restriction"),
    }
}

#[test]
fn test_exit_command_alias() {
    let cmd = ExitCommand;
    let result = cmd.execute("");
    assert!(matches!(result, CommandResult::ExitRequested));
}

#[test]
fn handler_routes_input() {
    let mut handler = SlashCommandHandler::new();
    handler.register(SlashCommandKind::Clear(ClearCommand));
    handler.register(SlashCommandKind::Learn(LearnCommand));
    handler.register(SlashCommandKind::Quit(QuitCommand));
    handler.register(SlashCommandKind::Exit(ExitCommand));
    assert!(matches!(handler.step("hello", "cli"), HandleStep::NotACommand));
    match handler.step("  /learn  data skill ", "ws") {
        HandleStep::Run { command, name, args } => {
            assert_eq!(command, SlashCommandKind::Learn(LearnCommand));
            assert_eq!(name, "learn");
            assert_eq!(args, " data skill");
        }
        other => panic!("unexpected {:?}", other),
    }
    match handler.step("/exit", "cli") {
        HandleStep::Run { command, args, .. } => {
            assert_eq!(command, SlashCommandKind::Exit(ExitCommand));
            assert_eq!(args, "");
        }
        other => panic!("unexpected {:?}", other),
    }
    match handler.step("/exit now", "telegram") {
        HandleStep::Respond(CommandResult::Handled(resp)) => {
            assert_eq!(resp.content, "命令 /exit 仅在 cli 模式可用");
            assert!(!resp.is_markdown);
        }
        other => panic!("unexpected {:?}", other),
    }
    match handler.step("/nope", "cli") {
        HandleStep::Respond(CommandResult::Handled(resp)) => {
            assert_eq!(resp.content, "未知命令: /nope。输入 /help 查看可用命令。");
        }
        other => panic!("unexpected {:?}", other),
    }
    match timeout_result("learn", 120) {
        CommandResult::Error(m) => assert_eq!(m, "命令 /learn 执行超时 (120秒)"),
        other => panic!("unexpected {:?}", other),
    }
    assert_eq!(SlashCommandKind::Clear(ClearCommand).timeout_secs(), 10);
    assert_eq!(CommandSource::cli("c".to_string()).channel, "cli");
}
