use agent_core::chat::ToolDefinition;
use agent_core::json::Json;
use agent_core::registry::{MCPServerRegistry, RegistryError};

fn tool(name: &str, description: &str) -> ToolDefinition {
    ToolDefinition {
        name: name.to_string(),
        description: description.to_string(),
        parameters: Json::Obj(Vec::new()),
    }
}

#[test]
fn test_registry_first_wins() {
    // registering the same tool name from two servers: the first
    // registration keeps the routing and the definition
    let mut registry = MCPServerRegistry::new();
    registry.register_server_tools("alpha", vec![tool("search", "from alpha")]);
    registry.register_server_tools(
        "beta",
        vec![tool("search", "from beta"), tool("fetch", "from beta")],
    );

    match registry.get_server_for_tool("search") {
        Ok(server) => assert_eq!(server, "alpha"),
        Err(_) => panic!("search must stay routed to its first server"),
    }
    match registry.get_server_for_tool("fetch") {
        Ok(server) => assert_eq!(server, "beta"),
        Err(_) => panic!("fetch must be routed"),
    }

    let all = registry.get_available_tools();
    assert_eq!(all.len(), 2);
    assert_eq!(all[0].name, "search");
    assert_eq!(all[0].description, "from alpha");
    assert_eq!(all[1].name, "fetch");
}

#[test]
fn test_unknown_tool_is_an_error() {
    let registry = MCPServerRegistry::new();
    match registry.get_server_for_tool("nope") {
        Ok(_) => panic!("an empty registry routes nothing"),
        Err(RegistryError::ToolNotFound(name)) => assert_eq!(name, "nope"),
        Err(_) => panic!("the missing tool error is expected"),
    }
}

#[test]
fn test_enable_disable() {
    let mut registry = MCPServerRegistry::new();
    registry.register_server_tools("alpha", vec![tool("one", "1"), tool("two", "2")]);

    // newly discovered tools are enabled, unknown names count as enabled
    assert!(registry.is_tool_enabled("one"));
    assert!(registry.is_tool_enabled("two"));
    assert!(registry.is_tool_enabled("never-registered"));

    registry.set_tool_enabled("one", false);
    assert!(!registry.is_tool_enabled("one"));
    assert!(registry.is_tool_enabled("two"));

    let enabled = registry.get_enabled_tools();
    assert_eq!(enabled.len(), 1);
    assert_eq!(enabled[0].name, "two");

    registry.disable_all_tools();
    assert_eq!(registry.get_enabled_tools().len(), 0);

    registry.enable_all_tools();
    let back = registry.get_enabled_tools();
    assert_eq!(back.len(), 2);
    assert_eq!(back[0].name, "one");
    assert_eq!(back[1].name, "two");
}

#[test]
fn test_tool_states() {
    let mut registry = MCPServerRegistry::new();
    registry.register_server_tools("alpha", vec![tool("one", "1")]);
    registry.set_tool_enabled("one", false);
    let states = registry.get_tool_states();
    assert_eq!(states.len(), 1);
    assert_eq!(states[0].0, "one");
    assert!(!states[0].1);
}
