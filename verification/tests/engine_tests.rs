use agent_core::chat::{Message, Role, ToolCall, ToolResult};
use agent_core::engine::{AgentUpdate, AgenticLoop, LoopAction, LoopEvent};
use agent_core::json::Json;

fn user(text: &str) -> Message {
    Message::new(Role::User, text.to_string())
}

fn call(id: &str, name: &str) -> ToolCall {
    ToolCall { id: id.to_string(), name: name.to_string(), parameters: Json::Obj(Vec::new()) }
}

fn respond(content: &str, calls: Vec<ToolCall>) -> LoopEvent {
    LoopEvent::ModelResponded { content: content.to_string(), tool_calls: calls }
}

#[test]
fn test_conversation_without_tools() {
    // no tool calls: exactly BeginTurn, AssistantComplete, EndTurn,
    // EndConversation, and the model's content returned unchanged
    let mut engine = AgenticLoop::new();
    let (action, events) = engine.start(vec![user("hi")]);
    assert!(matches!(action, LoopAction::CallModel));
    assert_eq!(events.len(), 1);
    assert!(matches!(&events[0], AgentUpdate::BeginTurn { iteration: 1, .. }));

    let (action, events) = engine.step(respond("the answer", Vec::new()));
    match action {
        LoopAction::Finished { final_text } => assert_eq!(final_text, "the answer"),
        _ => panic!("a response without tool calls finishes the conversation"),
    }
    assert_eq!(events.len(), 3);
    match &events[0] {
        AgentUpdate::AssistantComplete { full_text, .. } => assert_eq!(full_text, "the answer"),
        _ => panic!("AssistantComplete comes first"),
    }
    assert!(matches!(&events[1], AgentUpdate::EndTurn { .. }));
    match &events[2] {
        AgentUpdate::EndConversation { final_text } => assert_eq!(final_text, "the answer"),
        _ => panic!("EndConversation closes the stream"),
    }
}

#[test]
fn test_tool_fails_then_succeeds() {
    // the server errors on attempt 1 and succeeds on attempt 2: one
    // ToolStarted, one retryable ToolError, one ToolResult, all for the
    // same call id, and only the successful result lands in history
    let mut engine = AgenticLoop::new();
    let (_, _) = engine.start(vec![user("use the tool")]);

    let (action, events) = engine.step(respond("", vec![call("c1", "echo")]));
    assert!(matches!(action, LoopAction::CallTool { attempt: 1 }));
    assert_eq!(events.len(), 2);
    assert!(matches!(&events[0], AgentUpdate::ToolPlanned { .. }));
    match &events[1] {
        AgentUpdate::ToolStarted { tool_call_id, name, .. } => {
            assert_eq!(tool_call_id, "c1");
            assert_eq!(name, "echo");
        },
        _ => panic!("the first call starts right away"),
    }

    let (action, events) = engine.step(LoopEvent::ToolFailed { error: "boom".to_string() });
    assert!(matches!(action, LoopAction::CallTool { attempt: 2 }));
    assert_eq!(events.len(), 1);
    match &events[0] {
        AgentUpdate::ToolError { tool_call_id, error, retryable, .. } => {
            assert_eq!(tool_call_id, "c1");
            assert_eq!(error, "boom");
            assert!(*retryable);
        },
        _ => panic!("a failing attempt emits ToolError"),
    }

    let ok = ToolResult { content: "42".to_string(), is_error: false };
    let (action, events) = engine.step(LoopEvent::ToolCompleted { result: ok });
    assert!(matches!(action, LoopAction::CallModel));
    match &events[0] {
        AgentUpdate::ToolResult { tool_call_id, result_json, .. } => {
            assert_eq!(tool_call_id, "c1");
            assert_eq!(result_json, "42");
        },
        _ => panic!("the successful attempt emits ToolResult"),
    }
    assert!(matches!(&events[1], AgentUpdate::EndTurn { .. }));
    assert!(matches!(&events[2], AgentUpdate::BeginTurn { iteration: 2, .. }));

    // history: the user message, the assistant message with its calls, and
    // exactly one Tool-role message carrying the successful result
    let messages = engine.current_messages();
    assert_eq!(messages.len(), 3);
    assert!(matches!(messages[1].role, Role::Assistant));
    assert_eq!(messages[1].tool_calls.as_ref().map(|c| c.len()), Some(1));
    assert!(matches!(messages[2].role, Role::Tool));
    assert_eq!(messages[2].tool_call_id.as_deref(), Some("c1"));
    assert_eq!(messages[2].content, "42");
}

#[test]
fn test_tool_retry_bound() {
    // a tool that always fails is attempted exactly max_tool_retries + 1
    // times, then a synthesized error result lets the loop continue
    let mut engine = AgenticLoop::new();
    assert_eq!(engine.max_tool_retries, 2);
    let (_, _) = engine.start(vec![user("go")]);
    let (_, _) = engine.step(respond("", vec![call("c9", "flaky")]));

    let mut attempts = 1; // the CallTool{1} that entered the phase
    loop {
        let (action, events) = engine.step(LoopEvent::ToolFailed { error: "down".to_string() });
        match action {
            LoopAction::CallTool { attempt } => {
                attempts += 1;
                assert_eq!(attempt as usize, attempts);
                match &events[0] {
                    AgentUpdate::ToolError { retryable, .. } => assert!(*retryable),
                    _ => panic!("each failing attempt emits ToolError"),
                }
            },
            LoopAction::CallModel => {
                // retries are spent: non-retryable error, synthesized result
                match &events[0] {
                    AgentUpdate::ToolError { retryable, .. } => assert!(!*retryable),
                    _ => panic!("the last failure emits ToolError"),
                }
                match &events[1] {
                    AgentUpdate::ToolResult { result_json, .. } => {
                        assert_eq!(result_json, "Error: down")
                    },
                    _ => panic!("the synthesized result is reported"),
                }
                break;
            },
            _ => panic!("only retries or the next turn can follow"),
        }
    }
    assert_eq!(attempts, 3); // max_tool_retries = 2 -> 3 attempts

    let messages = engine.current_messages();
    assert_eq!(messages[2].content, "Error: Error: down");
    assert!(matches!(messages[2].role, Role::Tool));
}

#[test]
fn test_tool_timeout_message() {
    let mut engine = AgenticLoop::new();
    let (_, _) = engine.start(vec![user("go")]);
    let (_, _) = engine.step(respond("", vec![call("c2", "slow")]));
    let (action, events) = engine.step(LoopEvent::ToolTimedOut);
    assert!(matches!(action, LoopAction::CallTool { attempt: 2 }));
    match &events[0] {
        AgentUpdate::ToolError { error, retryable, .. } => {
            assert_eq!(error, "Timeout after 20s");
            assert!(*retryable);
        },
        _ => panic!("a timeout emits ToolError"),
    }
}

#[test]
fn test_two_calls_in_order() {
    // tool results are appended in call order, each linked to its call id
    let mut engine = AgenticLoop::new();
    let (_, _) = engine.start(vec![user("both")]);
    let (_, events) = engine.step(respond(
        "working on it",
        vec![call("a1", "first"), call("a2", "second")],
    ));
    // non-blank assistant text is reported before the plan
    assert!(matches!(&events[0], AgentUpdate::AssistantComplete { .. }));
    assert!(matches!(&events[1], AgentUpdate::ToolPlanned { .. }));

    let one = ToolResult { content: "one".to_string(), is_error: false };
    let (action, events) = engine.step(LoopEvent::ToolCompleted { result: one });
    assert!(matches!(action, LoopAction::CallTool { attempt: 1 }));
    assert!(matches!(&events[0], AgentUpdate::ToolResult { .. }));
    match &events[1] {
        AgentUpdate::ToolStarted { tool_call_id, .. } => assert_eq!(tool_call_id, "a2"),
        _ => panic!("the second call starts after the first completes"),
    }

    let two = ToolResult { content: "two".to_string(), is_error: false };
    let (_, _) = engine.step(LoopEvent::ToolCompleted { result: two });

    let messages = engine.current_messages();
    assert_eq!(messages.len(), 4);
    assert_eq!(messages[2].tool_call_id.as_deref(), Some("a1"));
    assert_eq!(messages[2].content, "one");
    assert_eq!(messages[3].tool_call_id.as_deref(), Some("a2"));
    assert_eq!(messages[3].content, "two");
}

#[test]
fn test_model_failure_is_fatal() {
    let mut engine = AgenticLoop::new();
    let (_, _) = engine.start(vec![user("hi")]);
    let (action, events) = engine.step(LoopEvent::ModelFailed { error: "conn reset".to_string() });
    match action {
        LoopAction::Failed { error } => assert_eq!(error, "LLM call failed: conn reset"),
        _ => panic!("a model failure fails the conversation"),
    }
    assert_eq!(events.len(), 1);
    match &events[0] {
        AgentUpdate::ModelError { error, .. } => {
            assert_eq!(error, "Model communication failed: conn reset")
        },
        _ => panic!("ModelError is the only event"),
    }
}

#[test]
fn test_summarization_flow() {
    // a tiny window forces summarization before the model call
    let mut engine = AgenticLoop::new().with_context_config(10, 700);
    engine.context_manager.keep_recent_pairs = 1;
    let history = vec![
        user("first long question to push the estimate over the threshold"),
        Message::new(Role::Assistant, "first long answer with plenty of characters".to_string()),
        user("second question"),
        Message::new(Role::Assistant, "second answer".to_string()),
    ];
    let (action, events) = engine.start(history);
    assert!(matches!(action, LoopAction::Summarize));
    assert_eq!(events.len(), 1);
    let request = engine.summary_request().expect("a request is pending");
    assert_eq!(request.len(), 2);

    let (action, events) = engine.step(LoopEvent::SummaryReady { summary: "gist".to_string() });
    assert!(matches!(action, LoopAction::CallModel));
    match &events[0] {
        AgentUpdate::ContextSummarized { old_count, new_count, .. } => {
            assert_eq!(*old_count, 4);
            assert_eq!(*new_count, 3);
        },
        _ => panic!("ContextSummarized reports the rewrite"),
    }
    let messages = engine.current_messages();
    assert_eq!(messages[0].content, "[Previous conversation summarized: gist]");
    assert_eq!(messages[1].content, "second question");
    assert_eq!(messages[2].content, "second answer");
}

#[test]
fn test_summarization_failure_is_not_fatal() {
    let mut engine = AgenticLoop::new().with_context_config(10, 700);
    engine.context_manager.keep_recent_pairs = 1;
    let history = vec![
        user("first long question to push the estimate over the threshold"),
        Message::new(Role::Assistant, "first long answer with plenty of characters".to_string()),
        user("second question"),
        Message::new(Role::Assistant, "second answer".to_string()),
    ];
    let (action, _) = engine.start(history);
    assert!(matches!(action, LoopAction::Summarize));
    let (action, events) = engine.step(LoopEvent::SummaryFailed { error: "no".to_string() });
    assert!(matches!(action, LoopAction::CallModel));
    assert_eq!(events.len(), 0);
    assert_eq!(engine.current_messages().len(), 4); // history unchanged
}

#[test]
fn test_duplicate_call_id_started_once() {
    let mut engine = AgenticLoop::new();
    let (_, _) = engine.start(vec![user("dup")]);
    let (_, events) = engine.step(respond("", vec![call("same", "a"), call("same", "b")]));
    // only the first call of the duplicated id gets ToolStarted
    let started: usize = events
        .iter()
        .filter(|e| matches!(e, AgentUpdate::ToolStarted { .. }))
        .count();
    assert_eq!(started, 1);

    let one = ToolResult { content: "x".to_string(), is_error: false };
    let (_, events) = engine.step(LoopEvent::ToolCompleted { result: one });
    let started: usize = events
        .iter()
        .filter(|e| matches!(e, AgentUpdate::ToolStarted { .. }))
        .count();
    assert_eq!(started, 0);
}
