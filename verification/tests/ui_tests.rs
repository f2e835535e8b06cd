use agent_core::engine::AgentUpdate;
use agent_core::turns::{ToolCallStatus as TurnToolCallStatus, Turn};
use agent_core::ui::{
    AppPreferences, AppPreferencesSection, ContextPage, LlmProfilesSection, MCPConfigSection,
    Message, NewProfileState, SimpleSettingsPage, ToolCallStatus, ToolCallWidget,
};

#[test]
fn test_theme_names() {
    let section = AppPreferencesSection::new();
    assert_eq!(section.get_theme_name(0), "System");
    assert_eq!(section.get_theme_name(1), "Dark");
    assert_eq!(section.get_theme_name(2), "Light");
    assert_eq!(section.get_theme_name(9), "System");
}

#[test]
fn test_validate_preferences() {
    let section = AppPreferencesSection::new();
    let good = AppPreferences::default();
    assert!(section.validate_preferences(&good).is_empty());
    let bad = AppPreferences { theme: 3, ..AppPreferences::default() };
    let errors = section.validate_preferences(&bad);
    assert_eq!(errors.len(), 1);
    assert_eq!(errors[0], "Invalid theme selection");
}

#[test]
fn test_validate_profile() {
    let section = LlmProfilesSection::new();
    let empty = NewProfileState {
        name: String::new(),
        backend: "openai".to_string(),
        model: String::new(),
        endpoint: String::new(),
        api_key: String::new(),
    };
    let errors = section.validate_profile(&empty);
    assert_eq!(errors.len(), 5);
    assert_eq!(errors[0], "Profile name is required");
    assert_eq!(errors[1], "Model is required");
    assert_eq!(errors[2], "Endpoint is required");
    assert_eq!(errors[3], "API key is required");
    assert_eq!(errors[4], "Endpoint must start with http:// or https://");

    let good = NewProfileState {
        name: "main".to_string(),
        backend: "openai".to_string(),
        model: "gpt-4".to_string(),
        endpoint: "https://api.example.com".to_string(),
        api_key: "key".to_string(),
    };
    assert!(section.validate_profile(&good).is_empty());

    let bad_scheme = NewProfileState { endpoint: "ftp://api".to_string(), ..good };
    let errors = section.validate_profile(&bad_scheme);
    assert_eq!(errors.len(), 1);
    assert_eq!(errors[0], "Endpoint must start with http:// or https://");
}

#[test]
fn test_validate_server() {
    let section = MCPConfigSection::new();
    let blank = MCPConfigSection::create_new_server();
    assert_eq!(blank.name, "New Server");
    assert_eq!(blank.server_kind, "stdio");
    let errors = section.validate_server(&blank);
    assert_eq!(errors.len(), 1);
    assert_eq!(errors[0], "Command is required");

    let mut spaced = MCPConfigSection::create_new_server();
    spaced.command = Some("npx some-server".to_string());
    let errors = section.validate_server(&spaced);
    assert_eq!(errors.len(), 1);
    assert_eq!(errors[0], "Consider quoting commands with spaces");

    let mut quoted = MCPConfigSection::create_new_server();
    quoted.command = Some("\"npx some-server\"".to_string());
    assert!(section.validate_server(&quoted).is_empty());

    let mut nameless = MCPConfigSection::create_new_server();
    nameless.name = String::new();
    nameless.command = None;
    let errors = section.validate_server(&nameless);
    assert_eq!(errors.len(), 2);
    assert_eq!(errors[0], "Server name is required");
    assert_eq!(errors[1], "Command is required");
}

#[test]
fn test_simple_settings_page() {
    let page = SimpleSettingsPage::new();
    assert!(page.new_profile_name.is_empty());
    assert!(page.new_profile_model.is_empty());
    assert!(page.new_profile_endpoint.is_empty());
}

#[test]
fn test_context_page_title() {
    let page = ContextPage::default();
    assert_eq!(page.title(), "About");
}

#[test]
fn test_tool_call_widget_toggle() {
    let mut widget = ToolCallWidget {
        tool_name: "echo".to_string(),
        parameters: "{}".to_string(),
        status: ToolCallStatus::Started,
        result: None,
        error: None,
        is_expanded: false,
    };
    widget.update(Message::ToggleExpanded);
    assert!(widget.is_expanded);
    widget.update(Message::ToggleExpanded);
    assert!(!widget.is_expanded);
    assert_eq!(widget.tool_name, "echo");
}

#[test]
fn test_turn_record() {
    let mut turn = Turn::new("t-1".to_string(), 1);
    assert!(!turn.complete);
    turn.append_text("partial ");
    turn.append_text("answer");
    assert_eq!(turn.text, "partial answer");

    turn.record_started("c1".to_string(), "echo".to_string(), "{}".to_string());
    turn.record_started("c2".to_string(), "fetch".to_string(), "{}".to_string());
    assert_eq!(turn.tools.len(), 2);
    assert!(matches!(turn.tools[0].status, TurnToolCallStatus::Started));

    turn.record_result("c1", "fine".to_string());
    assert!(matches!(turn.tools[0].status, TurnToolCallStatus::Completed));
    assert_eq!(turn.tools[0].result.as_deref(), Some("fine"));
    assert!(matches!(turn.tools[1].status, TurnToolCallStatus::Started));

    turn.record_error("c2", "broke".to_string());
    assert!(matches!(turn.tools[1].status, TurnToolCallStatus::Error));
    assert_eq!(turn.tools[1].error.as_deref(), Some("broke"));

    // an unknown id changes nothing
    turn.record_result("c9", "ignored".to_string());
    assert_eq!(turn.tools.len(), 2);

    turn.seal();
    assert!(turn.complete);
}

#[test]
fn test_turn_follows_events() {
    let mut turn = Turn::new("t-2".to_string(), 1);
    turn.apply_update(&AgentUpdate::AssistantComplete {
        turn_id: "t-2".to_string(),
        full_text: "thinking".to_string(),
    });
    turn.apply_update(&AgentUpdate::ToolStarted {
        turn_id: "t-2".to_string(),
        tool_call_id: "c1".to_string(),
        name: "echo".to_string(),
        params_json: "{}".to_string(),
    });
    turn.apply_update(&AgentUpdate::ToolResult {
        turn_id: "t-2".to_string(),
        tool_call_id: "c1".to_string(),
        name: "echo".to_string(),
        result_json: "done".to_string(),
    });
    turn.apply_update(&AgentUpdate::EndTurn { turn_id: "t-2".to_string() });

    assert_eq!(turn.text, "thinking");
    assert_eq!(turn.tools.len(), 1);
    assert!(matches!(turn.tools[0].status, TurnToolCallStatus::Completed));
    assert_eq!(turn.tools[0].result.as_deref(), Some("done"));
    assert!(turn.complete);
}
