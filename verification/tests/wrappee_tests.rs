use wrap_mcp::wrappee::{
    call_tool_request, color_environment, initialize_request, initialized_notification,
    interpret_received, list_tools_request, Awaiting, Exchange, Received, SessionError,
    TransportError, WrappeeClient,
};

fn parse(line: &str) -> serde_json::Value {
    serde_json::from_str(line).unwrap()
}

#[test]
fn the_initialize_request_names_version_and_client() {
    let line = initialize_request("2025.03.26", "0.1.0");
    assert_eq!(
        line,
        "{\"id\":1,\"jsonrpc\":\"2.0\",\"method\":\"initialize\",\"params\":{\"capabilities\":{},\"clientInfo\":{\"name\":\"wrap-mcp\",\"version\":\"0.1.0\"},\"protocolVersion\":\"2025.03.26\"}}"
    );
    let value = parse(&line);
    assert_eq!(value["params"]["protocolVersion"], "2025.03.26");
    assert_eq!(value["params"]["clientInfo"]["name"], "wrap-mcp");
    assert!(!line.contains('\n'));
}

#[test]
fn the_protocol_version_is_escaped() {
    let value = parse(&initialize_request("a\"b\\c\n", "1"));
    assert_eq!(value["params"]["protocolVersion"], "a\"b\\c\n");
}

#[test]
fn the_fixed_messages() {
    assert_eq!(
        initialized_notification(),
        "{\"jsonrpc\":\"2.0\",\"method\":\"notifications/initialized\"}"
    );
    let value = parse(&list_tools_request());
    assert_eq!(value["id"], 2);
    assert_eq!(value["method"], "tools/list");
    assert!(value["params"].as_object().unwrap().is_empty());
    assert!(parse(&initialized_notification()).get("id").is_none());
}

#[test]
fn the_call_request_carries_name_and_arguments() {
    let line = call_tool_request("echo \"x\"", "{\"text\":\"hi\"}");
    assert_eq!(
        line,
        "{\"id\":3,\"jsonrpc\":\"2.0\",\"method\":\"tools/call\",\"params\":{\"arguments\":{\"text\":\"hi\"},\"name\":\"echo \\\"x\\\"\"}}"
    );
    let value = parse(&line);
    assert_eq!(value["params"]["name"], "echo \"x\"");
    assert_eq!(value["params"]["arguments"]["text"], "hi");
}

#[test]
fn colours_are_switched_off_by_three_variables() {
    let env = color_environment(true);
    assert_eq!(
        env,
        vec![
            ("NO_COLOR".to_string(), "1".to_string()),
            ("CLICOLOR".to_string(), "0".to_string()),
            ("RUST_LOG_STYLE".to_string(), "never".to_string()),
        ]
    );
    assert!(color_environment(false).is_empty());
}

#[test]
fn a_line_must_be_one_json_message() {
    let ok = interpret_received(Received::Line(" { \"a\" : [ 1 , 2 ] } ".to_string()), 30);
    assert_eq!(ok.unwrap().as_str(), "{\"a\":[1,2]}");
    let bad = interpret_received(Received::Line("{\"a\":".to_string()), 30);
    assert!(matches!(bad, Err(TransportError::Protocol { message }) if !message.is_empty()));
    let two = interpret_received(Received::Line("{} {}".to_string()), 30);
    assert!(matches!(two, Err(TransportError::Protocol { .. })));
    let empty = interpret_received(Received::Line(String::new()), 30);
    assert!(matches!(empty, Err(TransportError::Protocol { .. })));
}

#[test]
fn a_closed_channel_and_an_expired_wait_fail_as_such() {
    assert!(matches!(interpret_received(Received::Closed, 30), Err(TransportError::Closed)));
    assert!(matches!(
        interpret_received(Received::TimedOut, 45),
        Err(TransportError::Timeout { seconds: 45 })
    ));
}

#[test]
fn failures_in_words() {
    assert_eq!(
        TransportError::Timeout { seconds: 30 }.message(),
        "Tool call timed out after 30 seconds"
    );
    assert_eq!(TransportError::Timeout { seconds: 0 }.message(), "Tool call timed out after 0 seconds");
    assert_eq!(
        TransportError::Timeout { seconds: u64::MAX }.message(),
        "Tool call timed out after 18446744073709551615 seconds"
    );
    assert_eq!(TransportError::Closed.message(), "Wrappee stdout closed unexpectedly");
    assert_eq!(TransportError::Protocol { message: "p".to_string() }.message(), "p");
    assert_eq!(TransportError::Io { message: "i".to_string() }.message(), "i");
}

#[test]
fn the_handshake_comes_first() {
    let mut session = WrappeeClient::new(42, 30);
    assert_eq!(session.get_pid(), Some(42));
    assert_eq!(session.list_tools(), Err(SessionError::NotInitialized));
    assert_eq!(session.call_tool("t", "{}"), Err(SessionError::NotInitialized));
    assert_eq!(session.awaiting, Awaiting::Nothing);
    let line = session.initialize("2025.03.26", "0.1.0").unwrap();
    assert_eq!(line, initialize_request("2025.03.26", "0.1.0"));
    assert_eq!(session.awaiting, Awaiting::ResponseTo(Exchange::Initialize));
    let (response, follow_up) = session.wait_for_response(Received::Line("{\"id\":1,\"result\":{}}".to_string()));
    assert_eq!(response.unwrap().as_str(), "{\"id\":1,\"result\":{}}");
    assert_eq!(follow_up, Some(initialized_notification()));
    assert!(session.initialized);
    assert_eq!(session.initialize("2025.03.26", "0.1.0"), Err(SessionError::AlreadyInitialized));
    assert_eq!(session.list_tools().unwrap(), list_tools_request());
}

#[test]
fn one_request_is_outstanding_at_a_time() {
    let mut session = WrappeeClient::new(1, 30);
    session.initialize("v", "c").unwrap();
    session.wait_for_response(Received::Line("{}".to_string())).0.unwrap();
    session.call_tool("a", "{}").unwrap();
    assert_eq!(session.call_tool("b", "{}"), Err(SessionError::Busy));
    assert_eq!(session.list_tools(), Err(SessionError::Busy));
    assert_eq!(session.initialize("v", "c"), Err(SessionError::Busy));
    let (response, follow_up) = session.wait_for_response(Received::Line("{\"result\":1}".to_string()));
    assert!(response.is_ok());
    assert_eq!(follow_up, None);
    assert!(session.call_tool("b", "{}").is_ok());
}

#[test]
fn a_timed_out_call_leaves_the_session_usable() {
    let mut session = WrappeeClient::new(1, 7);
    session.initialize("v", "c").unwrap();
    session.wait_for_response(Received::Line("{}".to_string())).0.unwrap();
    session.call_tool("slow", "{}").unwrap();
    let (response, _) = session.wait_for_response(Received::TimedOut);
    assert!(matches!(response, Err(TransportError::Timeout { seconds: 7 })));
    assert_eq!(session.awaiting, Awaiting::Nothing);
    assert_eq!(session.get_pid(), Some(1));
    assert!(session.call_tool("next", "{}").is_ok());
}

#[test]
fn a_handshake_that_fails_is_not_made() {
    let mut session = WrappeeClient::new(1, 7);
    session.initialize("v", "c").unwrap();
    let (response, follow_up) = session.wait_for_response(Received::Closed);
    assert!(matches!(response, Err(TransportError::Closed)));
    assert_eq!(follow_up, None);
    assert!(!session.initialized);
    assert_eq!(session.list_tools(), Err(SessionError::NotInitialized));
}

#[test]
fn a_wait_without_a_request_gives_what_was_received() {
    let mut session = WrappeeClient::new(1, 7);
    let (response, follow_up) = session.wait_for_response(Received::Line(" { } ".to_string()));
    assert_eq!(response.unwrap().as_str(), "{}");
    assert_eq!(follow_up, None);
    assert!(!session.initialized);
    assert_eq!(session.awaiting, Awaiting::Nothing);
    let (response, _) = session.wait_for_response(Received::TimedOut);
    assert!(matches!(response, Err(TransportError::Timeout { seconds: 7 })));
    let (response, _) = session.wait_for_response(Received::Closed);
    assert!(matches!(response, Err(TransportError::Closed)));
    let (response, _) = session.wait_for_response(Received::Line("no json".to_string()));
    assert!(matches!(response, Err(TransportError::Protocol { .. })));
}

#[test]
fn a_line_after_the_handshake_is_read_in_every_state() {
    let mut session = WrappeeClient::new(1, 7);
    session.initialize("v", "c").unwrap();
    session.wait_for_response(Received::Line("{}".to_string())).0.unwrap();
    // nothing is outstanding: a line that arrives is still handed back
    let (response, follow_up) =
        session.wait_for_response(Received::Line("{\"late\":true}".to_string()));
    assert_eq!(response.unwrap().as_str(), "{\"late\":true}");
    assert_eq!(follow_up, None);
    assert!(session.initialized);
    assert!(session.call_tool("t", "{}").is_ok());
}
