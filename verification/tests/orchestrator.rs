use std::collections::HashMap;

use qchat::agent::{Agent, Agents};
use qchat::compaction::CompactStrategy;
use qchat::errors::{ApiError, ChatError, RecvError, RecvErrorKind, RequestMetadata};
use qchat::message::{
    ArgValue, AssistantMessage, HistoryEntry, ScalarValue, ToolResultStatus, ToolUse, UserMessage,
    UserMessageContent,
};
use qchat::session::{
    ChatSession, ChatState, HandleInputOutcome, ModelSelection, ToolOutcome, does_input_reference_file,
};
use qchat::stream::ResponseEvent;
use qchat::tools::Tool;

fn s(x: &str) -> String {
    x.to_string()
}

fn fresh_agents() -> Agents {
    Agents { active: Some(Agent::new()), trust_all_tools: false }
}

fn new_session(agents: Agents, interactive: bool) -> ChatSession {
    ChatSession::new(
        s("test-conversation"),
        agents,
        None,
        None,
        false,
        None,
        s("CLAUDE_SONNET_4_20250514_V1_0"),
        vec![s("fs_write")],
        interactive,
        false,
    )
}

fn metadata(message_id: &str) -> RequestMetadata {
    RequestMetadata {
        request_id: None,
        message_id: s(message_id),
        model_id: None,
        response_size: 0,
        user_prompt_length: 0,
        request_start_timestamp_ms: 0,
        stream_end_timestamp_ms: 0,
    }
}

fn fs_write_tool_use(id: &str, path: &str, text: &str) -> ToolUse {
    ToolUse {
        id: s(id),
        name: s("fs_write"),
        args: vec![
            (s("command"), ArgValue::Scalar(ScalarValue::Str(s("create")))),
            (s("path"), ArgValue::Scalar(ScalarValue::Str(s(path)))),
            (s("file_text"), ArgValue::Scalar(ScalarValue::Str(s(text)))),
        ],
    }
}

fn end_stream_event(text: &str, message_id: &str) -> Result<ResponseEvent, RecvError> {
    Ok(ResponseEvent::EndStream {
        message: AssistantMessage {
            message_id: Some(s(message_id)),
            content: s(text),
            tool_uses: vec![],
        },
        request_metadata: metadata(message_id),
    })
}

/// Applies one fs_write tool to the mock file system and reports the
/// outcome, the way the surrounding program would run the real capability.
fn run_fs_write(tool: &Tool, files: &mut HashMap<String, String>) -> ToolOutcome {
    match tool {
        Tool::External { name, args } => {
            assert_eq!(name, "fs_write");
            let mut path = None;
            let mut text = None;
            for (key, value) in args {
                if let ArgValue::Scalar(ScalarValue::Str(v)) = value {
                    if key == "path" {
                        path = Some(v.clone());
                    } else if key == "file_text" {
                        text = Some(v.clone());
                    }
                }
            }
            files.insert(path.unwrap(), text.unwrap());
            ToolOutcome::Success(s("file written"))
        },
        _ => panic!("expected an external tool"),
    }
}

#[test]
fn create_file_scenario_runs_to_prompt() {
    // The user asks for a file, the model requests one fs_write, the user
    // answers "y", and the orchestrator ends back at the prompt with the
    // file written.
    let mut files: HashMap<String, String> = HashMap::new();
    let mut session = new_session(fresh_agents(), true);

    let state = session.take_state();
    assert!(matches!(state, ChatState::PromptUser { .. }));
    let r = session.prompt_user(false, Some(s("create a file")));
    session.next(r);

    let state = session.take_state();
    let input = match state {
        ChatState::HandleInput { input } => input,
        other => panic!("expected input handling, got {:?}", other),
    };
    let outcome = session.handle_input(input).unwrap();
    let state = match outcome {
        HandleInputOutcome::Continue(state) => state,
        other => panic!("expected a direct successor, got {:?}", other),
    };
    session.next(Ok(state));

    let state = session.take_state();
    assert!(matches!(state, ChatState::HandleResponseStream(_)));
    let events = vec![
        Ok(ResponseEvent::AssistantText(s("Sure, I'll create a file for you"))),
        Ok(ResponseEvent::ToolUseStart { name: s("fs_write") }),
        Ok(ResponseEvent::ToolUse(fs_write_tool_use("1", "/f.txt", "hi"))),
        end_stream_event("Sure, I'll create a file for you", "m1"),
    ];
    let r = session.handle_response(events);
    session.next(r);

    let state = session.take_state();
    let tool_uses = match state {
        ChatState::ValidateTools { tool_uses } => tool_uses,
        other => panic!("expected validation, got {:?}", other),
    };
    let r = session.validate_tools(tool_uses);
    session.next(r);

    let state = session.take_state();
    assert!(matches!(state, ChatState::ExecuteTools));
    let r = session.tool_use_permission_step().unwrap();
    let state = r.expect("an untrusted tool must pause for confirmation");
    assert!(matches!(state, ChatState::PromptUser { .. }));
    session.next(Ok(state));

    let state = session.take_state();
    assert!(matches!(state, ChatState::PromptUser { .. }));
    let r = session.prompt_user(false, Some(s("y")));
    session.next(r);

    let state = session.take_state();
    let input = match state {
        ChatState::HandleInput { input } => input,
        other => panic!("expected input handling, got {:?}", other),
    };
    let outcome = session.handle_input(input).unwrap();
    let state = match outcome {
        HandleInputOutcome::Continue(state) => state,
        other => panic!("expected a direct successor, got {:?}", other),
    };
    assert!(matches!(state, ChatState::ExecuteTools));
    session.next(Ok(state));

    let _ = session.take_state();
    let ready = session.tool_use_permission_step().unwrap();
    assert!(ready.is_none(), "the accepted tool must not pause again");
    let mut outcomes = Vec::new();
    for tool in &session.tool_uses {
        outcomes.push(run_fs_write(&tool.tool, &mut files));
    }
    let r = session.tool_use_execute(outcomes);
    session.next(r);

    let state = session.take_state();
    assert!(matches!(state, ChatState::HandleResponseStream(_)));
    let r = session.handle_response(vec![end_stream_event("Hope that looks good to you!", "m2")]);
    session.next(r);

    let state = session.take_state();
    assert!(matches!(
        state,
        ChatState::PromptUser { skip_printing_tools: false }
    ));
    assert_eq!(files.get("/f.txt").map(String::as_str), Some("hi"));
}

#[test]
fn tool_results_preserve_request_order_even_when_one_errors() {
    // Tool-use ids [a, b, c] come back as results [a, b, c] even though b
    // errors.
    let mut session = new_session(fresh_agents(), true);
    let uses = vec![
        fs_write_tool_use("a", "/a.txt", "1"),
        fs_write_tool_use("b", "/b.txt", "2"),
        fs_write_tool_use("c", "/c.txt", "3"),
    ];
    let r = session.validate_tools(uses).unwrap();
    assert!(matches!(r, ChatState::ExecuteTools));
    let outcomes = vec![
        ToolOutcome::Success(s("ok")),
        ToolOutcome::Failure(s("disk full")),
        ToolOutcome::Success(s("ok")),
    ];
    let state = session.tool_use_execute(outcomes).unwrap();
    let snap = match state {
        ChatState::HandleResponseStream(snap) => snap,
        other => panic!("expected a follow-up request, got {:?}", other),
    };
    let last = snap.history.last().expect("the batch must be in the history");
    let results = match last {
        HistoryEntry::User(UserMessage { content: UserMessageContent::ToolUseResults(rs) }) => rs,
        other => panic!("expected a tool-result batch, got {:?}", other),
    };
    let ids: Vec<&str> = results.iter().map(|r| r.tool_use_id.as_str()).collect();
    assert_eq!(ids, vec!["a", "b", "c"]);
    assert_eq!(results[0].status, ToolResultStatus::Success);
    assert_eq!(results[1].status, ToolResultStatus::Error);
    assert_eq!(results[2].status, ToolResultStatus::Success);
    assert!(results[1].content.contains("disk full"));
}

#[test]
fn cancellation_during_execute_tools_lands_at_prompt() {
    // Cancellation with tools [x, y] pending produces one synthetic
    // interrupted batch and goes to the prompt, never back to a tool state.
    let mut session = new_session(fresh_agents(), true);
    let uses = vec![
        fs_write_tool_use("x", "/x.txt", "1"),
        fs_write_tool_use("y", "/y.txt", "2"),
    ];
    let r = session.validate_tools(uses).unwrap();
    session.next(Ok(r));
    let _ = session.take_state();
    let tools = session.tool_uses.clone();
    session.next(Err(ChatError::Interrupted { tool_uses: Some(tools) }));
    let state = session.take_state();
    assert!(matches!(
        state,
        ChatState::PromptUser { skip_printing_tools: false }
    ));
    assert!(session.pending_tool_index.is_none());
    let n = session.conversation.history.len();
    assert!(n >= 2);
    match &session.conversation.history[n - 2] {
        HistoryEntry::User(UserMessage { content: UserMessageContent::ToolUseResults(rs) }) => {
            assert_eq!(rs.len(), 2);
            assert_eq!(rs[0].tool_use_id, "x");
            assert_eq!(rs[1].tool_use_id, "y");
            assert_eq!(rs[0].status, ToolResultStatus::Error);
            assert_eq!(rs[0].content, "The user interrupted the tool execution.");
        },
        other => panic!("expected the interrupted batch, got {:?}", other),
    }
    match &session.conversation.history[n - 1] {
        HistoryEntry::Assistant(a) => {
            assert_eq!(a.content, "Tool uses were interrupted, waiting for the next user prompt");
        },
        other => panic!("expected the closing assistant message, got {:?}", other),
    }
}

#[test]
fn overflow_on_short_history_enables_truncation_directly() {
    // A context-window overflow on a one-message history enables truncation
    // at once, skipping the exclude-recent step, and the summarization
    // request can be retried.
    let mut session = new_session(fresh_agents(), true);
    session.conversation.history.push(HistoryEntry::User(UserMessage {
        content: UserMessageContent::Prompt(s("only message")),
    }));
    session.next(Err(ChatError::SendMessage(ApiError::ContextWindowOverflow)));
    let state = session.take_state();
    let strategy = match state {
        ChatState::CompactHistory { prompt, show_summary, strategy } => {
            assert!(prompt.is_none());
            assert!(!show_summary);
            strategy
        },
        other => panic!("expected compaction, got {:?}", other),
    };
    assert!(strategy.truncate_large_messages);
    assert_eq!(strategy.messages_to_exclude, 0);
    assert_eq!(strategy.max_message_length, 25000);

    let request = session.compact_history_request(&None, strategy);
    assert!(request.is_some());
    let r = session
        .compact_history_finish(
            None,
            false,
            strategy,
            Some(Ok((s("summary of the chat"), metadata("mc")))),
        )
        .unwrap();
    assert!(matches!(r, ChatState::PromptUser { skip_printing_tools: true }));
    assert_eq!(session.conversation.history.len(), 1);
    match &session.conversation.history[0] {
        HistoryEntry::Assistant(a) => assert_eq!(a.content, "summary of the chat"),
        other => panic!("expected the summary, got {:?}", other),
    }
}

#[test]
fn long_history_excludes_recent_before_truncating() {
    // The first overflow-retry on a history longer than two messages sets
    // messages_to_exclude and leaves truncation untouched; only a second
    // overflow enables truncation; a third ends in failure.
    let mut session = new_session(fresh_agents(), true);
    for i in 0..3 {
        session.conversation.history.push(HistoryEntry::User(UserMessage {
            content: UserMessageContent::Prompt(format!("message {}", i)),
        }));
    }
    let overflow = || Some(Err(ChatError::SendMessage(ApiError::ContextWindowOverflow)));

    let first = session
        .compact_history_finish(None, false, CompactStrategy::default(), overflow())
        .unwrap();
    let s1 = match first {
        ChatState::CompactHistory { strategy, .. } => strategy,
        other => panic!("expected an escalated retry, got {:?}", other),
    };
    assert_eq!(s1.messages_to_exclude, 1);
    assert!(!s1.truncate_large_messages);

    let second = session.compact_history_finish(None, false, s1, overflow()).unwrap();
    let s2 = match second {
        ChatState::CompactHistory { strategy, .. } => strategy,
        other => panic!("expected an escalated retry, got {:?}", other),
    };
    assert_eq!(s2.messages_to_exclude, 1);
    assert!(s2.truncate_large_messages);
    assert_eq!(s2.max_message_length, 25000);

    let third = session.compact_history_finish(None, false, s2, overflow());
    assert!(matches!(third, Err(ChatError::CompactHistoryFailure)));
}

#[test]
fn empty_history_compaction_returns_to_prompt() {
    let mut session = new_session(fresh_agents(), true);
    let strategy = CompactStrategy::default();
    assert!(session.compact_history_request(&None, strategy).is_none());
    let r = session.compact_history_finish(None, false, strategy, None).unwrap();
    assert!(matches!(r, ChatState::PromptUser { skip_printing_tools: true }));
}

#[test]
fn truncated_tool_use_feeds_corrective_result_and_retries() {
    // A stream that starts a tool use and dies before completing it makes
    // the orchestrator append a corrective error result and re-issue the
    // request without user involvement.
    let mut session = new_session(fresh_agents(), true);
    let events = vec![
        Ok(ResponseEvent::ToolUseStart { name: s("fs_write") }),
        Err(RecvError {
            source: RecvErrorKind::UnexpectedToolUseEos {
                tool_use_id: s("t1"),
                name: s("fs_write"),
                message: AssistantMessage {
                    message_id: Some(s("m1")),
                    content: s("partial"),
                    tool_uses: vec![],
                },
            },
            request_metadata: metadata("m1"),
        }),
    ];
    let state = session.handle_response(events).unwrap();
    assert!(matches!(state, ChatState::HandleResponseStream(_)));
    let n = session.conversation.history.len();
    match &session.conversation.history[n - 1] {
        HistoryEntry::User(UserMessage { content: UserMessageContent::ToolUseResults(rs) }) => {
            assert_eq!(rs.len(), 1);
            assert_eq!(rs[0].tool_use_id, "t1");
            assert_eq!(rs[0].status, ToolResultStatus::Error);
            assert!(rs[0].content.contains("split up the work"));
        },
        other => panic!("expected the corrective batch, got {:?}", other),
    }
}

#[test]
fn stream_timeout_keeps_partial_message_and_retries() {
    let mut session = new_session(fresh_agents(), true);
    let events = vec![
        Ok(ResponseEvent::AssistantText(s("thinking..."))),
        Err(RecvError {
            source: RecvErrorKind::StreamTimeout { duration_secs: 300 },
            request_metadata: metadata("m1"),
        }),
    ];
    let state = session.handle_response(events).unwrap();
    assert!(matches!(state, ChatState::HandleResponseStream(_)));
    let n = session.conversation.history.len();
    match &session.conversation.history[n - 2] {
        HistoryEntry::Assistant(a) => {
            assert_eq!(a.content, "thinking...");
        },
        other => panic!("expected the partial message, got {:?}", other),
    }
    match &session.conversation.history[n - 1] {
        HistoryEntry::User(UserMessage { content: UserMessageContent::Prompt(p) }) => {
            assert!(p.contains("split up the work"));
        },
        other => panic!("expected the corrective prompt, got {:?}", other),
    }
}

#[test]
fn fatal_stream_error_propagates() {
    let mut session = new_session(fresh_agents(), true);
    let events = vec![Err(RecvError {
        source: RecvErrorKind::Other { reason: s("ConnectionReset"), status_code: Some(500) },
        request_metadata: metadata("m1"),
    })];
    let r = session.handle_response(events);
    match r {
        Err(ChatError::ResponseStream(e)) => {
            assert_eq!(e.request_metadata.message_id, "m1");
        },
        other => panic!("expected the stream failure, got {:?}", other),
    }
}

#[test]
fn non_interactive_prompt_exits_or_fails() {
    let mut session = new_session(fresh_agents(), false);
    let r = session.prompt_user(false, None);
    assert!(matches!(r, Ok(ChatState::Exit)));

    let mut session = new_session(fresh_agents(), false);
    let r = session.validate_tools(vec![fs_write_tool_use("1", "/f.txt", "x")]);
    session.next(r);
    let _ = session.take_state();
    let r = session.prompt_user(false, None);
    assert!(matches!(r, Err(ChatError::NonInteractiveToolApproval)));
}

#[test]
fn deny_answer_abandons_queued_tools() {
    let mut session = new_session(fresh_agents(), true);
    let r = session.validate_tools(vec![fs_write_tool_use("1", "/f.txt", "x")]);
    session.next(r);
    let _ = session.take_state();
    let r = session.tool_use_permission_step().unwrap();
    assert!(matches!(r, Some(ChatState::PromptUser { .. })));
    let outcome = session.handle_input(s("n")).unwrap();
    match outcome {
        HandleInputOutcome::Continue(ChatState::HandleResponseStream(snap)) => {
            let last = snap.history.last().unwrap();
            match last {
                HistoryEntry::User(UserMessage {
                    content: UserMessageContent::ToolUseResults(rs),
                }) => {
                    assert_eq!(rs.len(), 1);
                    assert_eq!(rs[0].tool_use_id, "1");
                    assert!(rs[0].content.contains("I deny this tool request"));
                },
                other => panic!("expected the abandoned batch, got {:?}", other),
            }
        },
        other => panic!("expected a follow-up request, got {:?}", other),
    }
}

#[test]
fn trust_answer_persists_tool_into_policy() {
    let mut session = new_session(fresh_agents(), true);
    let r = session.validate_tools(vec![fs_write_tool_use("1", "/f.txt", "x")]);
    session.next(r);
    let _ = session.take_state();
    let _ = session.tool_use_permission_step().unwrap();
    let outcome = session.handle_input(s("t")).unwrap();
    assert!(matches!(
        outcome,
        HandleInputOutcome::Continue(ChatState::ExecuteTools)
    ));
    assert!(session.tool_uses[0].accepted);
    let allowed = &session.conversation.agents.active.as_ref().unwrap().allowed_tools;
    assert!(allowed.iter().any(|t| t == "fs_write"));
}

#[test]
fn slash_shell_and_template_inputs_are_classified() {
    let mut session = new_session(fresh_agents(), true);
    match session.handle_input(s("/tools trust fs_write")).unwrap() {
        HandleInputOutcome::SlashCommand { args } => {
            assert_eq!(args, vec![s("tools"), s("trust"), s("fs_write")]);
        },
        other => panic!("expected a command, got {:?}", other),
    }
    match session.handle_input(s("!echo hello")).unwrap() {
        HandleInputOutcome::ShellCommand { command } => assert_eq!(command, "echo hello"),
        other => panic!("expected a shell escape, got {:?}", other),
    }
    match session.handle_input(s("@review file.rs")).unwrap() {
        HandleInputOutcome::PromptTemplate { name, arguments } => {
            assert_eq!(name, "review");
            assert_eq!(arguments, Some(vec![s("file.rs")]));
        },
        other => panic!("expected a template, got {:?}", other),
    }
    match session.handle_input(s("@")).unwrap_err() {
        ChatError::Custom(m) => assert!(m.contains("Prompt name")),
        other => panic!("expected the missing-name error, got {:?}", other),
    }
}

#[test]
fn plain_text_is_sent_to_the_backend() {
    let mut session = new_session(fresh_agents(), true);
    match session.handle_input(s("hello there")).unwrap() {
        HandleInputOutcome::Continue(ChatState::HandleResponseStream(snap)) => {
            match snap.history.last().unwrap() {
                HistoryEntry::User(UserMessage { content: UserMessageContent::Prompt(p) }) => {
                    assert_eq!(p, "hello there");
                },
                other => panic!("expected the prompt, got {:?}", other),
            }
        },
        other => panic!("expected a request, got {:?}", other),
    }
}

#[test]
fn unknown_tool_is_reported_to_the_model() {
    let mut session = new_session(fresh_agents(), true);
    let bogus = ToolUse { id: s("9"), name: s("no_such_tool"), args: vec![] };
    let state = session.validate_tools(vec![bogus]).unwrap();
    let snap = match state {
        ChatState::HandleResponseStream(snap) => snap,
        other => panic!("expected a follow-up request, got {:?}", other),
    };
    match snap.history.last().unwrap() {
        HistoryEntry::User(UserMessage { content: UserMessageContent::ToolUseResults(rs) }) => {
            assert_eq!(rs.len(), 1);
            assert_eq!(rs[0].tool_use_id, "9");
            assert_eq!(rs[0].status, ToolResultStatus::Error);
        },
        other => panic!("expected an error result, got {:?}", other),
    }
}

#[test]
fn model_overload_offers_switch_then_retries() {
    let mut session = new_session(fresh_agents(), true);
    session.next(Err(ChatError::SendMessage(ApiError::ModelOverloaded {
        request_id: Some(s("r1")),
        status_code: Some(503),
    })));
    let state = session.take_state();
    assert!(matches!(state, ChatState::RetryModelOverload));
    let r = session.retry_model_overload(ModelSelection::Choice(Some(1))).unwrap();
    assert!(matches!(r, ChatState::HandleResponseStream(_)));
    assert_eq!(
        session.conversation.model.as_deref(),
        Some("CLAUDE_3_7_SONNET_20250219_V1_0")
    );

    let mut session = new_session(fresh_agents(), true);
    let r = session.retry_model_overload(ModelSelection::Interrupted).unwrap();
    assert!(matches!(r, ChatState::PromptUser { .. }));
}

#[test]
fn test_does_input_reference_file() {
    let tests = &[
        (
            r"/Users/user/Desktop/Screenshot\ 2025-06-30\ at\ 2.13.34 PM.png read this image for me",
            true,
        ),
        ("/path/to/file.json", true),
        ("/save output.json", false),
        ("~/does/not/start/with/slash", false),
    ];
    for (input, expected) in tests {
        let actual = does_input_reference_file(input).is_some();
        assert_eq!(actual, *expected, "expected {} for input {}", expected, input);
    }
}

#[test]
fn test_editor_content_processing() {
    // Since we no longer have template replacement, this test is simplified
    let cases = vec![
        ("My content", "My content"),
        ("My content with newline\n", "My content with newline"),
        ("", ""),
    ];

    for (input, expected) in cases {
        let processed = input.trim().to_string();
        assert_eq!(processed, expected.trim().to_string(), "Failed for input: {}", input);
    }
}

#[test]
fn resumed_conversation_gets_summary_prompt() {
    let mut prev = qchat::conversation::Conversation::new(
        s("old-conversation"),
        fresh_agents(),
        Some(s("CLAUDE_SONNET_4_20250514_V1_0")),
    );
    prev.history.push(HistoryEntry::User(UserMessage {
        content: UserMessageContent::Prompt(s("earlier words")),
    }));
    let mut session = ChatSession::new(
        s("new-conversation"),
        fresh_agents(),
        None,
        Some(prev),
        true,
        None,
        s("CLAUDE_SONNET_4_20250514_V1_0"),
        vec![],
        true,
        false,
    );
    assert!(session.existing_conversation);
    assert_eq!(
        session.take_initial_input().as_deref(),
        Some("In a few words, summarize our conversation so far.")
    );
    assert_eq!(session.conversation.history.len(), 1);
}

#[test]
fn compacted_history_reissues_queued_message() {
    let mut session = new_session(fresh_agents(), true);
    session.conversation.history.push(HistoryEntry::User(UserMessage {
        content: UserMessageContent::Prompt(s("too long")),
    }));
    session.conversation.set_next_user_message(s("queued question"));
    let strategy = CompactStrategy::default();
    let r = session
        .compact_history_finish(None, false, strategy, Some(Ok((s("the summary"), metadata("mc")))))
        .unwrap();
    let snap = match r {
        ChatState::HandleResponseStream(snap) => snap,
        other => panic!("expected the queued message to be re-issued, got {:?}", other),
    };
    assert_eq!(snap.history.len(), 2);
    match &snap.history[1] {
        HistoryEntry::User(UserMessage { content: UserMessageContent::Prompt(p) }) => {
            assert_eq!(p, "queued question");
        },
        other => panic!("expected the queued prompt, got {:?}", other),
    }
}

#[test]
fn synthetic_results_content_carries_failure_text() {
    let mut session = new_session(fresh_agents(), true);
    let r = session.validate_tools(vec![fs_write_tool_use("1", "/f.txt", "x")]);
    session.next(r);
    let _ = session.take_state();
    let outcomes = vec![ToolOutcome::Failure(s("permission denied"))];
    let state = session.tool_use_execute(outcomes).unwrap();
    let snap = match state {
        ChatState::HandleResponseStream(snap) => snap,
        other => panic!("expected a follow-up request, got {:?}", other),
    };
    match snap.history.last().unwrap() {
        HistoryEntry::User(UserMessage { content: UserMessageContent::ToolUseResults(rs) }) => {
            assert_eq!(
                rs[0].content,
                "An error occurred processing the tool: \npermission denied"
            );
        },
        other => panic!("expected the batch, got {:?}", other),
    }
}

#[test]
fn chat_args_validate_the_requested_model() {
    let mut args = qchat::session::ChatArgs {
        resume: false,
        agent: None,
        model: Some(s("Sonnet-4")),
        trust_all_tools: false,
        trust_tools: None,
        no_interactive: false,
        input: None,
    };
    assert_eq!(
        args.validated_model_id().unwrap().as_deref(),
        Some("CLAUDE_SONNET_4_20250514_V1_0")
    );
    args.model = Some(s("banana"));
    assert!(args.validated_model_id().is_err());
    args.model = None;
    assert_eq!(args.validated_model_id().unwrap(), None);
}

#[test]
fn model_command_applies_the_choice() {
    let mut session = new_session(fresh_agents(), true);
    let r = qchat::models::ModelArgs
        .execute(&mut session, ModelSelection::Choice(Some(0)))
        .unwrap();
    assert!(matches!(r, ChatState::PromptUser { .. }));
    assert_eq!(
        session.conversation.model.as_deref(),
        Some("CLAUDE_SONNET_4_20250514_V1_0")
    );
}

