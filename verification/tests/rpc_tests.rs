use agent_core::json::Json;
use agent_core::rpc::{
    decode_response_line, initialized_notification_line, tool_result_of_response,
    tools_from_response, MCPRequest, StdioMCPClient,
};

#[test]
fn test_initialize_line() {
    let line = MCPRequest::initialize(1).to_line();
    assert_eq!(
        line,
        "{\"jsonrpc\":\"2.0\",\"id\":1,\"method\":\"initialize\",\"params\":{\"capabilities\":{\"tools\":{}},\"clientInfo\":{\"name\":\"cosmic_llm\",\"version\":\"1.0.0\"},\"protocolVersion\":\"2024-11-05\"}}"
    );
    assert!(!line.contains('\n'));
}

#[test]
fn test_tools_list_line() {
    let line = MCPRequest::tools_list(2).to_line();
    assert_eq!(line, "{\"jsonrpc\":\"2.0\",\"id\":2,\"method\":\"tools/list\",\"params\":{}}");
}

#[test]
fn test_tools_call_line() {
    let args = Json::Obj(vec![("text".to_string(), Json::Text("hi there".to_string()))]);
    let line = MCPRequest::tools_call(3, "echo".to_string(), args).to_line();
    assert_eq!(
        line,
        "{\"jsonrpc\":\"2.0\",\"id\":3,\"method\":\"tools/call\",\"params\":{\"arguments\":{\"text\":\"hi there\"},\"name\":\"echo\"}}"
    );
}

#[test]
fn test_notification_line() {
    assert_eq!(
        initialized_notification_line(),
        "{\"jsonrpc\":\"2.0\",\"method\":\"notifications/initialized\"}"
    );
}

#[test]
fn test_request_without_params() {
    let line = MCPRequest::new(9, "ping".to_string(), None).to_line();
    assert_eq!(line, "{\"jsonrpc\":\"2.0\",\"id\":9,\"method\":\"ping\",\"params\":null}");
}

#[test]
fn test_decode_text_block_result() {
    let resp = decode_response_line(
        "{\"jsonrpc\":\"2.0\",\"id\":1,\"result\":{\"content\":[{\"type\":\"text\",\"text\":\"ok\"}]}}",
    )
    .expect("a well-formed response decodes");
    assert_eq!(resp.id, 1);
    let outcome = tool_result_of_response(&resp);
    assert!(!outcome.is_error);
    assert_eq!(outcome.content, "ok");
}

#[test]
fn test_decode_error_object() {
    let resp = decode_response_line(
        "{\"jsonrpc\":\"2.0\",\"id\":4,\"error\":{\"code\":-32000,\"message\":\"boom\"}}",
    )
    .expect("a well-formed response decodes");
    let outcome = tool_result_of_response(&resp);
    assert!(outcome.is_error);
    assert_eq!(outcome.content, "Error: boom");
}

#[test]
fn test_decode_plain_string_result() {
    let resp = decode_response_line("{\"jsonrpc\":\"2.0\",\"id\":5,\"result\":\"plain\"}")
        .expect("a well-formed response decodes");
    let outcome = tool_result_of_response(&resp);
    assert!(!outcome.is_error);
    assert_eq!(outcome.content, "plain");
}

#[test]
fn test_decode_unexpected_shape() {
    let resp = decode_response_line("{\"jsonrpc\":\"2.0\",\"id\":6,\"result\":42}")
        .expect("a well-formed response decodes");
    let outcome = tool_result_of_response(&resp);
    assert!(outcome.is_error);
    assert_eq!(outcome.content, "Unexpected result format: 42");
}

#[test]
fn test_decode_missing_result() {
    let resp = decode_response_line("{\"jsonrpc\":\"2.0\",\"id\":7}")
        .expect("a well-formed response decodes");
    let outcome = tool_result_of_response(&resp);
    assert!(outcome.is_error);
    assert_eq!(outcome.content, "No result received");
}

#[test]
fn test_decode_rejects_malformed() {
    assert!(decode_response_line("not json at all").is_none());
    // no id
    assert!(decode_response_line("{\"jsonrpc\":\"2.0\"}").is_none());
    // id of the wrong type
    assert!(decode_response_line("{\"jsonrpc\":\"2.0\",\"id\":\"x\"}").is_none());
    // no jsonrpc tag
    assert!(decode_response_line("{\"id\":1}").is_none());
}

#[test]
fn test_tools_from_response_skips_bad_entries() {
    let resp = decode_response_line(
        "{\"jsonrpc\":\"2.0\",\"id\":2,\"result\":{\"tools\":[\
         {\"name\":\"alpha\",\"description\":\"first\",\"inputSchema\":{}},\
         {\"name\":\"broken\",\"description\":\"no schema\"},\
         {\"name\":\"beta\",\"description\":\"second\",\"inputSchema\":{\"type\":\"object\"}}]}}",
    )
    .expect("a well-formed response decodes");
    let tools = tools_from_response(&resp);
    assert_eq!(tools.len(), 2);
    assert_eq!(tools[0].name, "alpha");
    assert_eq!(tools[0].description, "first");
    assert_eq!(tools[1].name, "beta");
}

#[test]
fn test_next_request_id() {
    let mut client = StdioMCPClient::new("server".to_string(), Vec::new(), Vec::new());
    assert_eq!(client.next_request_id(), 1);
    assert_eq!(client.next_request_id(), 2);
    assert_eq!(client.next_request_id(), 3);
    assert_eq!(client.request_id, 4);
}
