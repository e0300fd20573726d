use wrap_mcp::json::JsonText;
use wrap_mcp::logging::entry::LogEntryContent;
use wrap_mcp::logging::storage::LogStorage;
use wrap_mcp::tools::clear_log::{clear_log, ClearLogRequest};
use wrap_mcp::tools::descriptor::{
    create_clear_log_tool, create_restart_wrapped_server_tool, create_show_log_tool,
    ToolDescriptor, EMPTY_SCHEMA, SHOW_LOG_SCHEMA,
};
use wrap_mcp::tools::manager::{
    classify_response, failure_of, read_response_parts, ErrorKind, ResponseParts, ToolManager,
    ToolReply,
};
use wrap_mcp::wrappee::TransportError;

fn json(text: &str) -> JsonText {
    JsonText::parse(text).unwrap()
}

fn manager() -> ToolManager {
    ToolManager::new(LogStorage::new_with_max_entries(100))
}

fn names(tools: &[ToolDescriptor]) -> Vec<String> {
    tools.iter().map(|t| t.name.clone()).collect()
}

const TOOLS_A: &str = "{\"jsonrpc\":\"2.0\",\"id\":2,\"result\":{\"tools\":[{\"name\":\"alpha\",\"description\":\"first\",\"inputSchema\":{\"type\":\"object\"}},{\"name\":\"beta\",\"inputSchema\":{\"type\":\"object\",\"properties\":{\"n\":{\"type\":\"integer\"}}}}]}}";
const TOOLS_B: &str = "{\"jsonrpc\":\"2.0\",\"id\":2,\"result\":{\"tools\":[{\"name\":\"gamma\",\"inputSchema\":{\"type\":\"object\"}}]}}";

#[test]
fn the_built_in_tools_are_always_listed() {
    let m = manager();
    let tools = m.get_all_tools();
    assert_eq!(names(&tools), vec!["show_log", "clear_log", "restart_wrapped_server"]);
    assert_eq!(
        tools[0].description.as_deref(),
        Some("Display recorded request/response logs from the wrapper")
    );
    assert_eq!(tools[1].description.as_deref(), Some("Clear all recorded logs"));
    assert_eq!(
        tools[2].description.as_deref(),
        Some("Restart the wrapped MCP server while preserving logs")
    );
    assert_eq!(tools[0].input_schema, SHOW_LOG_SCHEMA);
    assert_eq!(tools[1].input_schema, EMPTY_SCHEMA);
    assert_eq!(tools[2].input_schema, EMPTY_SCHEMA);
    assert_eq!(create_show_log_tool().name, "show_log");
    assert_eq!(create_clear_log_tool().name, "clear_log");
    assert_eq!(create_restart_wrapped_server_tool().name, "restart_wrapped_server");
}

#[test]
fn the_built_in_schemas_are_json_objects() {
    let schema: serde_json::Value = serde_json::from_str(SHOW_LOG_SCHEMA).unwrap();
    assert_eq!(schema["type"], "object");
    let properties = schema["properties"].as_object().unwrap();
    let mut keys: Vec<&str> = properties.keys().map(|k| k.as_str()).collect();
    keys.sort();
    assert_eq!(keys, vec!["entry_type", "format", "keyword", "limit", "tool_name"]);
    assert_eq!(schema["properties"]["limit"]["default"], 20);
    assert_eq!(schema["properties"]["format"]["default"], "ai");
    assert_eq!(schema["properties"]["entry_type"]["enum"].as_array().unwrap().len(), 4);
    let empty: serde_json::Value = serde_json::from_str(EMPTY_SCHEMA).unwrap();
    assert_eq!(empty["type"], "object");
    assert!(empty["properties"].as_object().unwrap().is_empty());
}

#[test]
fn discovery_takes_in_the_tool_list() {
    let mut m = manager();
    assert!(m.discover_tools(TOOLS_A).is_ok());
    assert_eq!(names(&m.wrappee_tools), vec!["alpha", "beta"]);
    assert_eq!(m.wrappee_tools[0].description.as_deref(), Some("first"));
    assert_eq!(m.wrappee_tools[1].description, None);
    assert_eq!(m.wrappee_tools[0].input_schema, "{\"type\":\"object\"}");
    let schema: serde_json::Value = serde_json::from_str(&m.wrappee_tools[1].input_schema).unwrap();
    assert_eq!(schema["properties"]["n"]["type"], "integer");
    assert_eq!(
        names(&m.get_all_tools()),
        vec!["alpha", "beta", "show_log", "clear_log", "restart_wrapped_server"]
    );
}

#[test]
fn discovery_replaces_and_does_not_merge() {
    let mut m = manager();
    m.discover_tools(TOOLS_A).unwrap();
    m.discover_tools(TOOLS_B).unwrap();
    assert_eq!(
        names(&m.get_all_tools()),
        vec!["gamma", "show_log", "clear_log", "restart_wrapped_server"]
    );
}

#[test]
fn a_response_without_a_tool_list_changes_nothing() {
    let mut m = manager();
    m.discover_tools(TOOLS_A).unwrap();
    assert!(m.discover_tools("{\"jsonrpc\":\"2.0\",\"id\":2,\"result\":{}}").is_ok());
    assert!(m.discover_tools("{\"error\":{\"message\":\"no\"}}").is_ok());
    assert!(m.discover_tools("not json").is_ok());
    assert_eq!(names(&m.wrappee_tools), vec!["alpha", "beta"]);
}

#[test]
fn a_tool_list_that_cannot_be_read_fails_and_changes_nothing() {
    let mut m = manager();
    m.discover_tools(TOOLS_A).unwrap();
    let error = m.discover_tools("{\"result\":{\"tools\":[{\"description\":\"nameless\"}]}}");
    assert!(!error.unwrap_err().message.is_empty());
    assert!(m.discover_tools("{\"result\":{\"tools\":\"none\"}}").is_err());
    assert_eq!(names(&m.wrappee_tools), vec!["alpha", "beta"]);
}

#[test]
fn an_empty_tool_list_leaves_the_built_in_tools() {
    let mut m = manager();
    m.discover_tools(TOOLS_A).unwrap();
    m.discover_tools("{\"result\":{\"tools\":[]}}").unwrap();
    assert_eq!(m.get_all_tools().len(), 3);
}

#[test]
fn clear_tools_forgets_the_childs_tools() {
    let mut m = manager();
    m.discover_tools(TOOLS_A).unwrap();
    m.clear_tools();
    assert!(m.wrappee_tools.is_empty());
    assert_eq!(m.get_all_tools().len(), 3);
    m.replace_tools(vec![ToolDescriptor::new("x".to_string(), None, "{}".to_string())]);
    assert_eq!(names(&m.get_all_tools())[0], "x");
}

#[test]
fn an_error_response_fails_with_its_message_and_logs_one_error() {
    let mut m = manager();
    let id = m.begin_tool_call("t", json("{\"a\":1}"));
    let reply = m.proxy_tool_call(id, "t", Ok(json("{\"error\":{\"message\":\"boom\"}}")));
    let error = reply.unwrap_err();
    assert_eq!(error.kind, ErrorKind::Tool);
    assert_eq!(error.message, "boom");
    assert_eq!(error.data, None);
    assert_eq!(m.log_storage.get_log_count(), 2);
    let logs = m.log_storage.get_logs(None, None);
    let errors: Vec<_> = logs
        .iter()
        .filter_map(|e| match &e.content {
            LogEntryContent::Error { tool_name, request_id, error } => {
                Some((tool_name.clone(), *request_id, error.clone()))
            }
            _ => None,
        })
        .collect();
    assert_eq!(errors, vec![("t".to_string(), id.inner(), "boom".to_string())]);
    let requests = logs
        .iter()
        .filter(|e| matches!(e.content, LogEntryContent::Request { .. }))
        .count();
    assert_eq!(requests, 1);
}

#[test]
fn an_error_response_carries_its_data() {
    let mut m = manager();
    let id = m.begin_tool_call("t", json("{}"));
    let reply = m.proxy_tool_call(
        id,
        "t",
        Ok(json("{\"error\":{\"code\":-1,\"data\":{\"why\":[1,2]},\"message\":\"bad\"}}")),
    );
    let error = reply.unwrap_err();
    assert_eq!(error.message, "bad");
    assert_eq!(error.data.as_deref(), Some("{\"why\":[1,2]}"));
}

#[test]
fn an_error_without_a_message_is_an_unknown_error() {
    let mut m = manager();
    let id = m.begin_tool_call("t", json("{}"));
    let error = m.proxy_tool_call(id, "t", Ok(json("{\"error\":{\"message\":5}}"))).unwrap_err();
    assert_eq!(error.message, "Unknown error");
    let id = m.begin_tool_call("t", json("{}"));
    let error = m.proxy_tool_call(id, "t", Ok(json("{\"error\":{}}"))).unwrap_err();
    assert_eq!(error.message, "Unknown error");
}

#[test]
fn a_tool_result_is_passed_on_as_it_is() {
    let mut m = manager();
    let id = m.begin_tool_call("t", json("{}"));
    let response = "{\"id\":3,\"jsonrpc\":\"2.0\",\"result\":{\"content\":[{\"text\":\"hi\",\"type\":\"text\"}]}}";
    let reply = m.proxy_tool_call(id, "t", Ok(json(response))).unwrap();
    match reply {
        ToolReply::Structured { result } => {
            assert_eq!(result, "{\"content\":[{\"text\":\"hi\",\"type\":\"text\"}]}")
        }
        other => panic!("unexpected reply: {:?}", other),
    }
    let logs = m.log_storage.get_logs(None, None);
    assert_eq!(logs.len(), 2);
    let responses: Vec<_> = logs
        .iter()
        .filter_map(|e| match &e.content {
            LogEntryContent::Response { request_id, response, .. } => {
                Some((*request_id, response.as_str().to_string()))
            }
            _ => None,
        })
        .collect();
    assert_eq!(responses, vec![(id.inner(), response.to_string())]);
}

#[test]
fn a_result_of_another_shape_is_passed_on_as_text() {
    let mut m = manager();
    let id = m.begin_tool_call("t", json("{}"));
    let reply = m.proxy_tool_call(id, "t", Ok(json("{\"result\":[1,\"two\"]}"))).unwrap();
    match reply {
        ToolReply::Text { text } => assert_eq!(text, "[1,\"two\"]"),
        other => panic!("unexpected reply: {:?}", other),
    }
}

#[test]
fn a_result_wins_over_an_error() {
    let mut m = manager();
    let id = m.begin_tool_call("t", json("{}"));
    let reply =
        m.proxy_tool_call(id, "t", Ok(json("{\"error\":{\"message\":\"x\"},\"result\":7}")));
    assert!(matches!(reply, Ok(ToolReply::Text { .. })));
}

#[test]
fn a_response_with_neither_result_nor_error_is_passed_on_whole() {
    let mut m = manager();
    let id = m.begin_tool_call("t", json("{}"));
    let reply = m.proxy_tool_call(id, "t", Ok(json("{\"id\":3}"))).unwrap();
    match reply {
        ToolReply::Text { text } => assert_eq!(text, "{\"id\":3}"),
        other => panic!("unexpected reply: {:?}", other),
    }
    assert_eq!(m.log_storage.get_log_count(), 2);
}

#[test]
fn a_failed_exchange_fails_with_the_failures_message() {
    let mut m = manager();
    let id = m.begin_tool_call("t", json("{}"));
    let error = m.proxy_tool_call(id, "t", Err(TransportError::Timeout { seconds: 30 })).unwrap_err();
    assert_eq!(error.kind, ErrorKind::Timeout);
    assert_eq!(error.message, "Failed to call tool: Tool call timed out after 30 seconds");
    let logs = m.log_storage.get_logs(None, None);
    assert_eq!(logs.len(), 2);
    assert!(logs.iter().any(|e| matches!(
        &e.content,
        LogEntryContent::Error { error, request_id, .. }
            if error == "Failed to call tool: Tool call timed out after 30 seconds"
                && *request_id == id.inner()
    )));
}

#[test]
fn every_kind_of_failed_exchange_has_its_kind_and_message() {
    let closed = failure_of(&TransportError::Closed);
    assert_eq!(closed.kind, ErrorKind::IoClosed);
    assert_eq!(closed.message, "Failed to call tool: Wrappee stdout closed unexpectedly");
    let protocol = failure_of(&TransportError::Protocol { message: "bad line".to_string() });
    assert_eq!(protocol.kind, ErrorKind::Protocol);
    assert_eq!(protocol.message, "Failed to call tool: bad line");
    let io = failure_of(&TransportError::Io { message: "broken pipe".to_string() });
    assert_eq!(io.kind, ErrorKind::IoClosed);
    assert_eq!(io.message, "Failed to call tool: broken pipe");
    assert_eq!(io.data, None);
}

#[test]
fn response_parts_are_read_with_the_json_reader() {
    let parts = read_response_parts("{ \"result\" : { \"content\" : [ ] } }");
    assert_eq!(parts.result.as_deref(), Some("{\"content\":[]}"));
    assert!(parts.result_is_tool_result);
    assert_eq!(parts.error, None);
    let parts = read_response_parts("{\"result\":\"plain\"}");
    assert_eq!(parts.result.as_deref(), Some("\"plain\""));
    assert!(!parts.result_is_tool_result);
    let parts = read_response_parts("{\"error\":{\"message\":\"a \\\"b\\\"\",\"data\":null}}");
    assert_eq!(parts.result, None);
    assert_eq!(parts.error_message.as_deref(), Some("a \"b\""));
    assert_eq!(parts.error_data.as_deref(), Some("null"));
    let parts = read_response_parts("[1,2]");
    assert_eq!(parts.result, None);
    assert_eq!(parts.error, None);
    let parts = read_response_parts("{broken");
    assert_eq!(parts.result, None);
    assert_eq!(parts.error, None);
}

#[test]
fn classification_goes_by_the_parts() {
    let parts = ResponseParts {
        result: Some("R".to_string()),
        result_is_tool_result: true,
        error: Some("E".to_string()),
        error_message: Some("m".to_string()),
        error_data: None,
    };
    assert!(matches!(
        classify_response("whole".to_string(), parts),
        Ok(ToolReply::Structured { result }) if result == "R"
    ));
    let parts = ResponseParts {
        result: None,
        result_is_tool_result: false,
        error: Some("E".to_string()),
        error_message: None,
        error_data: Some("D".to_string()),
    };
    let error = classify_response("whole".to_string(), parts).unwrap_err();
    assert_eq!(error.message, "Unknown error");
    assert_eq!(error.data.as_deref(), Some("D"));
    let parts = ResponseParts {
        result: None,
        result_is_tool_result: false,
        error: None,
        error_message: None,
        error_data: None,
    };
    assert!(matches!(
        classify_response("whole".to_string(), parts),
        Ok(ToolReply::Text { text }) if text == "whole"
    ));
}

#[test]
fn clear_log_says_how_many_entries_it_removed() {
    let mut storage = LogStorage::new_with_max_entries(10);
    storage.add_stderr("a".to_string());
    storage.add_stderr("b".to_string());
    storage.add_stderr("c".to_string());
    assert_eq!(clear_log(ClearLogRequest {}, &mut storage), "\u{2705} Cleared 3 log entries");
    assert_eq!(storage.get_log_count(), 0);
    assert_eq!(clear_log(ClearLogRequest {}, &mut storage), "\u{2705} Cleared 0 log entries");
    assert_eq!(storage.add_request("t".to_string(), json("{}")).inner(), 1);
}

#[test]
fn failures_are_reported_under_two_codes() {
    assert_eq!(ErrorKind::InvalidParams.code(), -32602);
    for kind in [
        ErrorKind::Spawn,
        ErrorKind::Protocol,
        ErrorKind::Timeout,
        ErrorKind::IoClosed,
        ErrorKind::Tool,
        ErrorKind::ConfigMissing,
        ErrorKind::NotInitialized,
        ErrorKind::Busy,
    ] {
        assert_eq!(kind.code(), -32603);
    }
}

#[test]
fn a_discovered_tool_keeps_all_that_the_child_announced() {
    let mut m = manager();
    let response = "{\"result\":{\"tools\":[{\"name\":\"alpha\",\"title\":\"Alpha\",\"inputSchema\":{\"type\":\"object\"},\"outputSchema\":{\"type\":\"object\"},\"annotations\":{\"readOnlyHint\":true}}]}}";
    m.discover_tools(response).unwrap();
    let tools = m.get_all_tools();
    let definition: serde_json::Value =
        serde_json::from_str(tools[0].definition.as_deref().unwrap()).unwrap();
    assert_eq!(definition["name"], "alpha");
    assert_eq!(definition["title"], "Alpha");
    assert_eq!(definition["outputSchema"]["type"], "object");
    assert_eq!(definition["annotations"]["readOnlyHint"], true);
    assert_eq!(definition["inputSchema"]["type"], "object");
    // the built-in tools have nothing behind their three fields
    assert!(tools[1..].iter().all(|t| t.definition.is_none()));
    assert_eq!(ToolDescriptor::new("x".to_string(), None, "{}".to_string()).definition, None);
    assert_eq!(tools[0].duplicate().definition, tools[0].definition);
}
