use agent_core::chat::{Message, Role};
use agent_core::context::ContextManager;

fn msg(role: Role, content: &str) -> Message {
    Message::new(role, content.to_string())
}

#[test]
fn test_should_summarize() {
    let manager = ContextManager::default();

    // threshold of 0.7 expressed in per-mille
    assert!(manager.should_summarize(70000, 100000, 700));
    assert!(!manager.should_summarize(60000, 100000, 700));

    // edge cases
    assert!(!manager.should_summarize(0, 100000, 700));
    assert!(manager.should_summarize(100000, 100000, 700));
}

#[test]
fn test_should_summarize_empty_window() {
    let manager = ContextManager::default();
    assert!(!manager.should_summarize(1000000, 0, 700));
}

#[test]
fn test_build_summarization_messages() {
    let manager = ContextManager::new(2); // keep last 2 pairs

    let messages = vec![
        msg(Role::System, "System prompt"),
        msg(Role::User, "Message 1"),
        msg(Role::Assistant, "Response 1"),
        msg(Role::User, "Message 2"),
        msg(Role::Assistant, "Response 2"),
        msg(Role::User, "Message 3"),
        msg(Role::Assistant, "Response 3"),
    ];

    let to_summarize = manager.build_summarization_messages(&messages);

    // everything strictly between the leading system message and the last
    // two pairs
    assert_eq!(to_summarize.len(), 2);
    assert_eq!(to_summarize[0].content, "Message 1");
    assert_eq!(to_summarize[1].content, "Response 1");
}

#[test]
fn test_build_summarization_messages_short_history() {
    let manager = ContextManager::new(2);
    let messages = vec![msg(Role::User, "Message 1"), msg(Role::Assistant, "Response 1")];
    let to_summarize = manager.build_summarization_messages(&messages);
    assert_eq!(to_summarize.len(), 0);
}

#[test]
fn test_get_messages_to_keep() {
    let manager = ContextManager::new(2);

    let messages = vec![
        msg(Role::System, "System prompt"),
        msg(Role::User, "Message 1"),
        msg(Role::Assistant, "Response 1"),
        msg(Role::User, "Message 2"),
        msg(Role::Assistant, "Response 2"),
    ];

    let to_keep = manager.get_messages_to_keep(&messages);

    // system prompt plus the last two pairs
    assert_eq!(to_keep.len(), 5);
    assert_eq!(to_keep[0].content, "System prompt");
    assert_eq!(to_keep[1].content, "Message 1");
    assert_eq!(to_keep[4].content, "Response 2");
}

#[test]
fn test_get_messages_to_keep_partition() {
    let manager = ContextManager::new(2);
    let messages = vec![
        msg(Role::System, "System prompt"),
        msg(Role::User, "Message 1"),
        msg(Role::Assistant, "Response 1"),
        msg(Role::User, "Message 2"),
        msg(Role::Assistant, "Response 2"),
        msg(Role::User, "Message 3"),
        msg(Role::Assistant, "Response 3"),
    ];
    let to_keep = manager.get_messages_to_keep(&messages);
    assert_eq!(to_keep.len(), 5);
    assert_eq!(to_keep[0].content, "System prompt");
    assert_eq!(to_keep[1].content, "Message 2");
    assert_eq!(to_keep[2].content, "Response 2");
    assert_eq!(to_keep[3].content, "Message 3");
    assert_eq!(to_keep[4].content, "Response 3");
}

#[test]
fn test_build_summary_request() {
    let manager = ContextManager::new(2);
    let candidates = vec![msg(Role::User, "hello"), msg(Role::Assistant, "world")];
    let request = manager.build_summary_request(&candidates);
    assert_eq!(request.len(), 2);
    assert!(matches!(request[0].role, Role::System));
    assert_eq!(
        request[0].content,
        "You are a helpful assistant that summarizes conversations concisely."
    );
    assert!(matches!(request[1].role, Role::User));
    assert!(request[1].content.starts_with(
        "Please provide a concise summary of the following conversation history."
    ));
    assert!(request[1].content.ends_with("User: hello\n\nAssistant: world\n\n"));
}

#[test]
fn test_apply_summary() {
    let manager = ContextManager::new(1);
    let messages = vec![
        msg(Role::System, "System prompt"),
        msg(Role::User, "old question"),
        msg(Role::Assistant, "old answer"),
        msg(Role::User, "new question"),
        msg(Role::Assistant, "new answer"),
    ];
    let rewritten = manager.apply_summary(&messages, "the gist");
    assert_eq!(rewritten.len(), 4);
    assert_eq!(rewritten[0].content, "System prompt");
    assert_eq!(rewritten[1].content, "[Previous conversation summarized: the gist]");
    assert!(matches!(rewritten[1].role, Role::Assistant));
    assert_eq!(rewritten[2].content, "new question");
    assert_eq!(rewritten[3].content, "new answer");
}
