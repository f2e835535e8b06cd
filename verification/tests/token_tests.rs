use agent_core::chat::{Attachment, Message, Role, ToolCall};
use agent_core::json::Json;
use agent_core::tokens::{
    estimate_tokens, estimate_tokens_for_attachments, estimate_tokens_for_message,
    estimate_tokens_for_messages, estimate_tokens_for_system_prompt,
    estimate_total_context_tokens,
};

#[test]
fn test_estimate_tokens() {
    assert_eq!(estimate_tokens("Hello world"), 3); // 11 chars / 4, rounded up
    assert_eq!(estimate_tokens(""), 0);
    assert_eq!(estimate_tokens("a"), 1);
}

#[test]
fn test_estimate_tokens_for_message() {
    let message = Message::new(Role::User, "Hello world".to_string());
    assert_eq!(estimate_tokens_for_message(&message), 3);
}

#[test]
fn test_estimate_tokens_for_messages() {
    let messages = vec![
        Message::new(Role::User, "Hello".to_string()),
        Message::new(Role::Assistant, "Hi there".to_string()),
    ];
    assert_eq!(estimate_tokens_for_messages(&messages), 4); // 5/4 + 8/4 = 2 + 2
}

#[test]
fn test_estimate_tokens_with_tool_calls() {
    let call = ToolCall {
        id: "c1".to_string(),       // 2 chars -> 1
        name: "echo".to_string(),   // 4 chars -> 1
        parameters: Json::Obj(Vec::new()), // renders as "{}" -> 1
    };
    let message = Message::new_with_tool_calls(Role::Assistant, "okay".to_string(), vec![call]);
    // content "okay" -> 1, plus 1 + 1 + 1 for the call
    assert_eq!(estimate_tokens_for_message(&message), 4);
}

#[test]
fn test_estimate_tokens_for_attachments() {
    let attachment = Attachment {
        file_path: "/tmp/noteworthy.txt".to_string(), // 18 chars -> 5
        file_name: "noteworthy.txt".to_string(),      // 14 chars -> 4
        mime_type: "text/plain".to_string(),          // 10 chars -> 3
        file_size: 12,
        content: Some("twelve chars".to_string()),    // 12 chars -> 3
    };
    assert_eq!(estimate_tokens_for_attachments(&[attachment]), 15);
}

#[test]
fn test_estimate_total_context_tokens() {
    let messages = vec![Message::new(Role::User, "Hello".to_string())];
    assert_eq!(estimate_tokens_for_system_prompt("be nice"), 2); // 7 chars
    assert_eq!(estimate_total_context_tokens(Some("be nice"), &messages), 4);
    assert_eq!(estimate_total_context_tokens(None, &messages), 2);
}
