use wrap_mcp::json::JsonText;
use chrono::{DateTime, TimeZone, Utc};
use wrap_mcp::clock::Timestamp;
use wrap_mcp::logging::entry::{LogEntry, LogEntryContent, LogEntryType};
use wrap_mcp::logging::filter::LogFilter;

fn json(text: &str) -> JsonText {
    JsonText::parse(text).unwrap()
}

fn stamp(t: DateTime<Utc>) -> Timestamp {
    Timestamp::new(t.timestamp(), t.timestamp_subsec_nanos())
}

fn create_test_entry(id: usize, timestamp: DateTime<Utc>, content: LogEntryContent) -> LogEntry {
    LogEntry { id, timestamp: stamp(timestamp), content }
}

#[test]
fn test_filter_by_tool_name() {
    let entry = create_test_entry(
        1,
        Utc::now(),
        LogEntryContent::Request { tool_name: "test_tool".to_string(), content: json("{}") },
    );

    // Should match when tool_name matches
    let filter = LogFilter {
        tool_name: Some("test_tool".to_string()),
        entry_type: None,
        after: None,
        before: None,
        keyword: None,
    };
    assert!(entry.filter(&filter));

    // Should not match when tool_name differs
    let filter = LogFilter {
        tool_name: Some("other_tool".to_string()),
        entry_type: None,
        after: None,
        before: None,
        keyword: None,
    };
    assert!(!entry.filter(&filter));

    // Stderr should not match any tool_name
    let stderr_entry = create_test_entry(
        2,
        Utc::now(),
        LogEntryContent::Stderr { message: "error".to_string() },
    );
    let filter = LogFilter {
        tool_name: Some("any_tool".to_string()),
        entry_type: None,
        after: None,
        before: None,
        keyword: None,
    };
    assert!(!stderr_entry.filter(&filter));
}

#[test]
fn test_filter_by_entry_type() {
    let request_entry = create_test_entry(
        1,
        Utc::now(),
        LogEntryContent::Request { tool_name: "tool".to_string(), content: json("{}") },
    );

    // Should match correct entry type
    let filter = LogFilter {
        tool_name: None,
        entry_type: Some("request".to_string()),
        after: None,
        before: None,
        keyword: None,
    };
    assert!(request_entry.filter(&filter));

    // Should not match wrong entry type
    let filter = LogFilter {
        tool_name: None,
        entry_type: Some("response".to_string()),
        after: None,
        before: None,
        keyword: None,
    };
    assert!(!request_entry.filter(&filter));
}

#[test]
fn test_filter_by_timestamp() {
    let base_time = Utc.with_ymd_and_hms(2024, 1, 15, 12, 0, 0).unwrap();
    let entry = create_test_entry(
        1,
        base_time,
        LogEntryContent::Request { tool_name: "tool".to_string(), content: json("{}") },
    );

    // Should match when timestamp is after "after" filter
    let filter = LogFilter {
        tool_name: None,
        entry_type: None,
        after: Some(stamp(Utc.with_ymd_and_hms(2024, 1, 15, 11, 0, 0).unwrap())),
        before: None,
        keyword: None,
    };
    assert!(entry.filter(&filter));

    // Should not match when timestamp is before or equal to "after" filter
    let filter = LogFilter {
        tool_name: None,
        entry_type: None,
        after: Some(stamp(Utc.with_ymd_and_hms(2024, 1, 15, 12, 0, 0).unwrap())),
        before: None,
        keyword: None,
    };
    assert!(!entry.filter(&filter));

    // Should match when timestamp is before "before" filter
    let filter = LogFilter {
        tool_name: None,
        entry_type: None,
        after: None,
        before: Some(stamp(Utc.with_ymd_and_hms(2024, 1, 15, 13, 0, 0).unwrap())),
        keyword: None,
    };
    assert!(entry.filter(&filter));

    // Should not match when timestamp is after or equal to "before" filter
    let filter = LogFilter {
        tool_name: None,
        entry_type: None,
        after: None,
        before: Some(stamp(Utc.with_ymd_and_hms(2024, 1, 15, 12, 0, 0).unwrap())),
        keyword: None,
    };
    assert!(!entry.filter(&filter));
}

#[test]
fn test_filter_combined() {
    let entry = create_test_entry(
        1,
        Utc.with_ymd_and_hms(2024, 1, 15, 12, 0, 0).unwrap(),
        LogEntryContent::Response {
            tool_name: "my_tool".to_string(),
            request_id: 1,
            response: json("{\"result\":\"ok\"}"),
        },
    );

    // All conditions match
    let filter = LogFilter {
        tool_name: Some("my_tool".to_string()),
        entry_type: Some("response".to_string()),
        after: Some(stamp(Utc.with_ymd_and_hms(2024, 1, 15, 11, 0, 0).unwrap())),
        before: Some(stamp(Utc.with_ymd_and_hms(2024, 1, 15, 13, 0, 0).unwrap())),
        keyword: None,
    };
    assert!(entry.filter(&filter));

    // One condition doesn't match (tool_name)
    let filter = LogFilter {
        tool_name: Some("wrong_tool".to_string()),
        entry_type: Some("response".to_string()),
        after: Some(stamp(Utc.with_ymd_and_hms(2024, 1, 15, 11, 0, 0).unwrap())),
        before: Some(stamp(Utc.with_ymd_and_hms(2024, 1, 15, 13, 0, 0).unwrap())),
        keyword: None,
    };
    assert!(!entry.filter(&filter));
}

#[test]
fn test_empty_filter() {
    let entry = create_test_entry(
        1,
        Utc::now(),
        LogEntryContent::Error {
            tool_name: "tool".to_string(),
            request_id: 1,
            error: "test error".to_string(),
        },
    );

    // Empty filter should match everything
    let filter = LogFilter {
        tool_name: None,
        entry_type: None,
        after: None,
        before: None,
        keyword: None,
    };
    assert!(entry.filter(&filter));
}

#[test]
fn test_filter_by_keyword_regex() {
    let entry = create_test_entry(
        1,
        Utc::now(),
        LogEntryContent::Request {
            tool_name: "search_tool".to_string(),
            content: json("{\"options\":{\"case_sensitive\":false},\"query\":\"find important document\"}"),
        },
    );

    // Should match with regex pattern
    let filter = LogFilter {
        tool_name: None,
        entry_type: None,
        after: None,
        before: None,
        keyword: Some(r"important\s+doc".to_string()),
    };
    assert!(entry.filter(&filter));

    // Should not match when pattern doesn't exist
    let filter = LogFilter {
        tool_name: None,
        entry_type: None,
        after: None,
        before: None,
        keyword: Some(r"missing\s+pattern".to_string()),
    };
    assert!(!entry.filter(&filter));

    // Test case-insensitive regex
    let filter = LogFilter {
        tool_name: None,
        entry_type: None,
        after: None,
        before: None,
        keyword: Some(r"(?i)IMPORTANT".to_string()),
    };
    assert!(entry.filter(&filter));
}

#[test]
fn test_filter_by_keyword_literal() {
    let entry = create_test_entry(
        1,
        Utc::now(),
        LogEntryContent::Error {
            tool_name: "database".to_string(),
            request_id: 1,
            error: "Connection timeout after 30 seconds".to_string(),
        },
    );

    // Invalid regex should fall back to literal string search
    let filter = LogFilter {
        tool_name: None,
        entry_type: None,
        after: None,
        before: None,
        keyword: Some("timeout[".to_string()), // Invalid regex (unclosed bracket)
    };
    // Should not match because "timeout[" is not in the content literally
    assert!(!entry.filter(&filter));

    // Valid literal search
    let filter = LogFilter {
        tool_name: None,
        entry_type: None,
        after: None,
        before: None,
        keyword: Some("timeout".to_string()),
    };
    assert!(entry.filter(&filter));
}

#[test]
fn invalid_pattern_is_searched_for_literally() {
    let entry = create_test_entry(
        1,
        Utc::now(),
        LogEntryContent::Stderr { message: "cost (total[".to_string() },
    );
    let mut filter = LogFilter::any();
    filter.keyword = Some("(total[".to_string());
    assert!(entry.filter(&filter));
    filter.keyword = Some("(sum[".to_string());
    assert!(!entry.filter(&filter));
}

#[test]
fn keyword_is_searched_in_the_serialized_content() {
    let entry = create_test_entry(
        7,
        Utc::now(),
        LogEntryContent::Response {
            tool_name: "t".to_string(),
            request_id: 3,
            response: json("{\"y\":2}"),
        },
    );
    let mut filter = LogFilter::any();
    filter.keyword = Some("\"type\":\"response\"".to_string());
    assert!(entry.filter(&filter));
    filter.keyword = Some("\"request_id\":3,".to_string());
    assert!(entry.filter(&filter));
    filter.keyword = Some("^\\{\"type\":\"response\",\"tool_name\":\"t\"".to_string());
    assert!(entry.filter(&filter));
    // the entry's own number and time stamp are no part of what is searched
    filter.keyword = Some("\"id\"".to_string());
    assert!(!entry.filter(&filter));
}

#[test]
fn content_serializes_with_the_kind_first() {
    let request = LogEntryContent::Request {
        tool_name: "a \"b\"".to_string(),
        content: json("{\"x\":1}"),
    };
    assert_eq!(
        request.serialize(),
        "{\"type\":\"request\",\"tool_name\":\"a \\\"b\\\"\",\"content\":{\"x\":1}}"
    );
    let response = LogEntryContent::Response {
        tool_name: "t".to_string(),
        request_id: 12,
        response: json("[1,2]"),
    };
    assert_eq!(
        response.serialize(),
        "{\"type\":\"response\",\"tool_name\":\"t\",\"request_id\":12,\"response\":[1,2]}"
    );
    let error = LogEntryContent::Error {
        tool_name: "t".to_string(),
        request_id: 0,
        error: "line\nbreak".to_string(),
    };
    assert_eq!(
        error.serialize(),
        "{\"type\":\"error\",\"tool_name\":\"t\",\"request_id\":0,\"error\":\"line\\nbreak\"}"
    );
    let stderr = LogEntryContent::Stderr { message: "tab\there".to_string() };
    assert_eq!(stderr.serialize(), "{\"type\":\"stderr\",\"message\":\"tab\\there\"}");
}

#[test]
fn serialized_content_is_json_that_serde_json_reads_back() {
    let error = LogEntryContent::Error {
        tool_name: "quote\" and \\ slash".to_string(),
        request_id: 4,
        error: "control \u{1} char".to_string(),
    };
    let value: serde_json::Value = serde_json::from_str(&error.serialize()).unwrap();
    assert_eq!(value["type"], "error");
    assert_eq!(value["tool_name"], "quote\" and \\ slash");
    assert_eq!(value["request_id"], 4);
    assert_eq!(value["error"], "control \u{1} char");
}

#[test]
fn entry_type_names() {
    assert_eq!(LogEntryType::Request.name(), "request");
    assert_eq!(LogEntryType::Response.name(), "response");
    assert_eq!(LogEntryType::Error.name(), "error");
    assert_eq!(LogEntryType::Stderr.to_text(), "stderr");
    let content = LogEntryContent::Stderr { message: String::new() };
    assert_eq!(LogEntryType::of(&content), LogEntryType::Stderr);
    assert_eq!(content.tool_name(), None);
    assert!(content.match_entry_type("stderr"));
    assert!(!content.match_entry_type("Stderr"));
    let content = LogEntryContent::Request { tool_name: "x".to_string(), content: json("1") };
    assert_eq!(content.tool_name(), Some("x"));
    assert!(content.match_tool_name("x"));
    assert!(!content.match_tool_name("xy"));
}

#[test]
fn timestamps_order_by_seconds_then_nanoseconds() {
    let a = Timestamp::new(10, 5);
    let b = Timestamp::new(10, 6);
    let c = Timestamp::new(11, 0);
    let d = Timestamp::new(-1, 999_999_999);
    assert!(a.before(&b));
    assert!(b.before(&c));
    assert!(a.before(&c));
    assert!(d.before(&a));
    assert!(!a.before(&a));
    assert!(!b.before(&a));
}

#[test]
fn timestamps_are_written_by_the_calendar() {
    let t = stamp(Utc.with_ymd_and_hms(2024, 1, 15, 12, 0, 0).unwrap());
    assert_eq!(t.to_utc_text().unwrap(), "2024-01-15 12:00:00 UTC");
    assert_eq!(t.to_rfc3339().unwrap(), "2024-01-15T12:00:00Z");
    let t = Timestamp::new(0, 250_000_000);
    assert_eq!(t.to_utc_text().unwrap(), "1970-01-01 00:00:00 UTC");
    assert_eq!(t.to_rfc3339().unwrap(), "1970-01-01T00:00:00.250Z");
    assert_eq!(Timestamp::new(i64::MAX, 0).to_utc_text(), None);
    assert_eq!(Timestamp::new(0, 2_000_000_000).to_rfc3339(), None);
}

#[test]
fn new_entries_are_stamped_with_the_present_time() {
    let before = Utc::now();
    let entry = LogEntry::new_request(3, "t".to_string(), json("{}"));
    let after = Utc::now();
    assert_eq!(entry.id, 3);
    assert!(!entry.timestamp.before(&stamp(before)));
    assert!(!stamp(after).before(&entry.timestamp));
    let entry = LogEntry::new_stderr(4, "m".to_string());
    assert!(matches!(entry.content, LogEntryContent::Stderr { .. }));
    let entry = LogEntry::new_response(5, "t".to_string(), 3, json("{}"));
    assert!(matches!(entry.content, LogEntryContent::Response { request_id: 3, .. }));
    let entry = LogEntry::new_error(6, "t".to_string(), 3, "e".to_string());
    assert!(matches!(entry.content, LogEntryContent::Error { request_id: 3, .. }));
}
