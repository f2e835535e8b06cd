use agent_core::logger::ToolLogger;

#[test]
fn test_turn_lines() {
    let logger = ToolLogger::new("calls.log".to_string());
    assert_eq!(logger.log_file, "calls.log");
    assert_eq!(logger.iteration_start_line(3), "\n=== ITERATION 3 ===");
    assert_eq!(logger.begin_turn_line(3), "--- Begin Turn 3 ---");
    assert_eq!(logger.end_turn_line(3), "--- End Turn 3 ---");
    assert_eq!(
        logger.final_response_line("all done", 2),
        "Final Response (after 2 iterations): all done"
    );
}

#[test]
fn test_tool_call_line() {
    let logger = ToolLogger::new("calls.log".to_string());
    assert_eq!(
        logger.tool_call_line(1, "echo", "c1", "{\"text\":\"hi\"}"),
        "\u{1f527} Tool Call #1: echo\n   ID: c1\n   Parameters: {\"text\":\"hi\"}"
    );
}

#[test]
fn test_tool_result_line() {
    let logger = ToolLogger::new("calls.log".to_string());
    assert_eq!(
        logger.tool_result_line(1, "echo", "hi", false),
        "\u{2705} SUCCESS Tool Result #1: echo\n   Result: hi"
    );
    assert_eq!(
        logger.tool_result_line(2, "echo", "broke", true),
        "\u{274c} ERROR Tool Result #2: echo\n   Result: broke"
    );
}
