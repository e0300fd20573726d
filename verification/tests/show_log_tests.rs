use wrap_mcp::json::JsonText;
use wrap_mcp::clock::Timestamp;
use wrap_mcp::logging::entry::{LogEntry, LogEntryContent};
use wrap_mcp::logging::storage::LogStorage;
use wrap_mcp::tools::show_log::{
    clean_stderr_message, default_limit, format_ai_output, format_error_entry,
    format_json_output, format_members, format_request_args, format_request_entry,
    format_response_entry, format_response_lines, format_stderr_entry, format_text_output,
    nested, output_format, read_members, read_response_texts, show_log, Member, OutputFormat,
    ShowLogRequest,
};

fn json(text: &str) -> JsonText {
    JsonText::parse(text).unwrap()
}

fn entry(id: usize, secs: i64, content: LogEntryContent) -> LogEntry {
    LogEntry::at(id, Timestamp::new(secs, 0), content)
}

fn request_for(limit: usize, format: Option<&str>) -> ShowLogRequest {
    ShowLogRequest {
        limit,
        tool_name: None,
        entry_type: None,
        keyword: None,
        format: format.map(|f| f.to_string()),
    }
}

const JAN_15_NOON: i64 = 1_705_320_000;

#[test]
fn the_default_limit_is_twenty() {
    assert_eq!(default_limit(), 20);
}

#[test]
fn the_format_goes_by_the_trimmed_word() {
    assert_eq!(output_format(&None), OutputFormat::Ai);
    assert_eq!(output_format(&Some("ai".to_string())), OutputFormat::Ai);
    assert_eq!(output_format(&Some("json".to_string())), OutputFormat::Json);
    assert_eq!(output_format(&Some("  json\n".to_string())), OutputFormat::Json);
    assert_eq!(output_format(&Some("text".to_string())), OutputFormat::Text);
    assert_eq!(output_format(&Some("\ttext ".to_string())), OutputFormat::Text);
    assert_eq!(output_format(&Some("JSON".to_string())), OutputFormat::Ai);
    assert_eq!(output_format(&Some("yaml".to_string())), OutputFormat::Ai);
    assert_eq!(output_format(&Some(String::new())), OutputFormat::Ai);
}

#[test]
fn arguments_are_shown_member_by_member() {
    assert_eq!(format_request_args("{\"x\":1}"), "x: 1");
    assert_eq!(
        format_request_args("{\"b\":\"two\",\"a\":[1,{\"k\":null}],\"c\":true}"),
        "a: [1,{\"k\":null}], b: \"two\", c: true"
    );
    assert_eq!(format_request_args("{}"), "");
    assert_eq!(format_request_args("[1,2]"), "[1,2]");
    assert_eq!(format_request_args("\"text\""), "\"text\"");
    assert_eq!(format_request_args("not json"), "not json");
    // the content of a string is shown as it is, not as JSON
    assert_eq!(format_request_args("{\"s\":\"a \\\"q\\\" \\n\"}"), "s: \"a \"q\" \n\"");
}

#[test]
fn members_are_read_with_the_json_reader() {
    let members = read_members("{\"n\":1.5,\"s\":\"v\"}").unwrap();
    assert_eq!(members.len(), 2);
    assert_eq!((members[0].key.as_str(), members[0].value.as_str()), ("n", "1.5"));
    assert_eq!(members[0].string_value, None);
    assert_eq!((members[1].key.as_str(), members[1].value.as_str()), ("s", "\"v\""));
    assert_eq!(members[1].string_value.as_deref(), Some("v"));
    assert!(read_members("[]").is_none());
    assert!(read_members("{").is_none());
}

#[test]
fn members_are_joined_with_comma_and_space() {
    let members = vec![
        Member { key: "k".to_string(), value: "V".to_string(), string_value: None },
        Member { key: "s".to_string(), value: "\"x\"".to_string(), string_value: Some("x".to_string()) },
        Member { key: "".to_string(), value: "".to_string(), string_value: None },
    ];
    assert_eq!(format_members(&members), "k: V, s: \"x\", : ");
    assert_eq!(format_members(&members[..1].to_vec()), "k: V");
    assert_eq!(format_members(&Vec::new()), "");
}

#[test]
fn a_request_entry_in_the_compact_form() {
    assert_eq!(
        format_request_entry(12, "search", "{\"q\":\"rust\",\"n\":3}"),
        "[REQUEST #12] search(n: 3, q: \"rust\")\n"
    );
    assert_eq!(format_request_entry(0, "t", "null"), "[REQUEST #0] t(null)\n");
}

#[test]
fn a_response_entry_shows_the_texts_of_its_content() {
    let response = "{\"result\":{\"content\":[{\"type\":\"text\",\"text\":\"one\"},{\"type\":\"image\",\"data\":\"...\"},{\"type\":\"text\",\"text\":\"two\"},{\"text\":3}]}}";
    assert_eq!(
        format_response_entry(5, response),
        "[RESPONSE #5] \"one\"\n[RESPONSE #5] \"two\"\n"
    );
    assert_eq!(read_response_texts(response), vec!["one", "two"]);
    assert_eq!(format_response_entry(5, "{\"result\":{\"content\":[]}}"), "");
    assert_eq!(format_response_entry(5, "{\"result\":{\"content\":{\"text\":\"x\"}}}"), "");
    assert_eq!(format_response_entry(5, "{\"result\":{}}"), "");
    assert_eq!(format_response_entry(5, "{\"error\":{\"message\":\"x\"}}"), "");
    assert_eq!(format_response_entry(5, "garbage"), "");
    assert_eq!(
        format_response_lines(1, &vec!["a".to_string(), "".to_string()]),
        "[RESPONSE #1] \"a\"\n[RESPONSE #1] \"\"\n"
    );
}

#[test]
fn an_error_entry_in_the_compact_form() {
    assert_eq!(format_error_entry(3, "boom"), "[ERROR #3] boom\n");
    assert_eq!(format_error_entry(1000, ""), "[ERROR #1000] \n");
}

#[test]
fn a_line_that_names_a_source_file_is_cut_in_front_of_it() {
    assert_eq!(
        clean_stderr_message(
            "2025-08-08T16:15:53.880856Z  INFO ThreadId(01) module::path: src/file.rs:123: started"
        ),
        "src/file.rs:123: started"
    );
    assert_eq!(clean_stderr_message("x: src/"), "src/");
}

#[test]
fn a_line_with_level_and_thread_is_cut_behind_the_second_colon() {
    assert_eq!(
        clean_stderr_message(
            "2025-08-08T16:15:53Z  WARN ThreadId(02) wrap::child: lib/file.rs:9: careful now"
        ),
        "careful now"
    );
    assert_eq!(
        clean_stderr_message("2025-08-08T16:15:53Z ERROR ThreadId(02) wrap::child: only one colon"),
        "only one colon"
    );
    assert_eq!(
        clean_stderr_message("T DEBUG ThreadId(1) a: b: c: d"),
        "c: d"
    );
    // the last thread word counts
    assert_eq!(
        clean_stderr_message("T INFO ThreadId(1) a: b ThreadId(2) m: f: rest"),
        "rest"
    );
}

#[test]
fn other_lines_stay_whole() {
    assert_eq!(clean_stderr_message("plain message"), "plain message");
    assert_eq!(clean_stderr_message(""), "");
    assert_eq!(clean_stderr_message("a: b: c"), "a: b: c");
    // a thread but no level word
    assert_eq!(clean_stderr_message("x ThreadId(1) m: f: rest"), "x ThreadId(1) m: f: rest");
    // a level word but no thread
    assert_eq!(clean_stderr_message("x INFO m: f: rest"), "x INFO m: f: rest");
    // level and thread but no colon behind the thread
    assert_eq!(clean_stderr_message("a: b INFO ThreadId(1) m"), "a: b INFO ThreadId(1) m");
    assert_eq!(clean_stderr_message("h\u{e9} INFO ThreadId(1) m\u{4e16}: ok\u{e9}"), "ok\u{e9}");
    assert_eq!(format_stderr_entry("plain"), "[STDERR] plain\n");
}

#[test]
fn the_compact_form_of_a_log() {
    let logs = vec![
        entry(
            2,
            2,
            LogEntryContent::Response {
                tool_name: "t".to_string(),
                request_id: 1,
                response: json("{\"result\":{\"content\":[{\"text\":\"done\",\"type\":\"text\"}]}}"),
            },
        ),
        entry(
            1,
            1,
            LogEntryContent::Request { tool_name: "t".to_string(), content: json("{\"x\":1}") },
        ),
        entry(
            3,
            0,
            LogEntryContent::Error {
                tool_name: "t".to_string(),
                request_id: 1,
                error: "late".to_string(),
            },
        ),
        entry(4, 0, LogEntryContent::Stderr { message: "noise".to_string() }),
    ];
    assert_eq!(
        format_ai_output(&logs),
        "[RESPONSE #1] \"done\"\n\n[REQUEST #1] t(x: 1)\n\n[ERROR #1] late\n\n[STDERR] noise\n\n"
    );
    assert_eq!(format_ai_output(&Vec::new()), "No log entries found.\n");
}

#[test]
fn the_verbose_form_of_a_log() {
    let logs = vec![
        entry(
            1,
            JAN_15_NOON,
            LogEntryContent::Request {
                tool_name: "t".to_string(),
                content: json("{\"x\":1,\"list\":[1,2]}"),
            },
        ),
        entry(2, JAN_15_NOON + 1, LogEntryContent::Stderr { message: "a \"b\"".to_string() }),
    ];
    let rule = "-".repeat(60);
    let expected = format!(
        "[#1] 2024-01-15 12:00:00 UTC | request\nTool: t\nContent: {{\n  \"type\": \"request\",\n  \"tool_name\": \"t\",\n  \"content\": {{\n    \"list\": [\n      1,\n      2\n    ],\n    \"x\": 1\n  }}\n}}\n{rule}\n[#2] 2024-01-15 12:00:01 UTC | stderr\nContent: {{\n  \"type\": \"stderr\",\n  \"message\": \"a \\\"b\\\"\"\n}}\n{rule}\n"
    );
    assert_eq!(format_text_output(&logs), expected);
    assert_eq!(format_text_output(&Vec::new()), "");
}

#[test]
fn the_verbose_form_names_an_impossible_time_as_unknown() {
    let logs = vec![LogEntry::at(
        1,
        Timestamp::new(i64::MAX, 0),
        LogEntryContent::Stderr { message: "m".to_string() },
    )];
    assert!(format_text_output(&logs).starts_with("[#1] unknown time | stderr\n"));
    assert!(format_json_output(&logs).contains("\"timestamp\": null,"));
}

#[test]
fn the_json_form_of_a_log() {
    let logs = vec![
        entry(
            2,
            JAN_15_NOON,
            LogEntryContent::Response {
                tool_name: "t".to_string(),
                request_id: 1,
                response: json("{\"result\":{\"ok\":true}}"),
            },
        ),
        entry(
            3,
            JAN_15_NOON,
            LogEntryContent::Error {
                tool_name: "t".to_string(),
                request_id: 1,
                error: "boom".to_string(),
            },
        ),
    ];
    let expected = "[\n  {\n    \"id\": 2,\n    \"timestamp\": \"2024-01-15T12:00:00Z\",\n    \"type\": \"response\",\n    \"tool_name\": \"t\",\n    \"request_id\": 1,\n    \"response\": {\n      \"result\": {\n        \"ok\": true\n      }\n    }\n  },\n  {\n    \"id\": 3,\n    \"timestamp\": \"2024-01-15T12:00:00Z\",\n    \"type\": \"error\",\n    \"tool_name\": \"t\",\n    \"request_id\": 1,\n    \"error\": \"boom\"\n  }\n]";
    let text = format_json_output(&logs);
    assert_eq!(text, expected);
    let value: serde_json::Value = serde_json::from_str(&text).unwrap();
    assert_eq!(value.as_array().unwrap().len(), 2);
    assert_eq!(value[0]["response"]["result"]["ok"], true);
    assert_eq!(value[1]["error"], "boom");
    assert_eq!(format_json_output(&Vec::new()), "[]");
}

#[test]
fn the_json_form_is_what_serde_json_prints_for_the_same_value() {
    let content = "{\"deep\":{\"list\":[{\"a\":[]},{}],\"s\":\"line\\nbreak\"},\"n\":-1.5e3}";
    let logs = vec![entry(
        1,
        JAN_15_NOON,
        LogEntryContent::Request { tool_name: "t".to_string(), content: json(content) },
    )];
    let text = format_json_output(&logs);
    let value: serde_json::Value = serde_json::from_str(&text).unwrap();
    let again: serde_json::Value = serde_json::from_str(content).unwrap();
    assert_eq!(value[0]["content"], again);
    // but for the order of the keys, which serde_json sorts, the text is its pretty form
    let mut lines: Vec<&str> = text.lines().collect();
    let printed = serde_json::to_string_pretty(&value).unwrap();
    let mut printed_lines: Vec<&str> = printed.lines().collect();
    lines.sort();
    printed_lines.sort();
    let strip = |l: &&str| l.trim_end_matches(',').to_string();
    assert_eq!(
        lines.iter().map(strip).collect::<Vec<_>>(),
        printed_lines.iter().map(strip).collect::<Vec<_>>()
    );
}

#[test]
fn a_nested_value_is_indented_on_every_further_line() {
    assert_eq!(nested("{\"a\":[1]}", 2), "{\n    \"a\": [\n      1\n    ]\n  }");
    assert_eq!(nested("1", 4), "1");
    assert_eq!(nested("not json", 4), "not json");
    assert_eq!(nested("{}", 4), "{}");
}

#[test]
fn show_log_filters_sorts_cuts_and_renders() {
    let mut storage = LogStorage::new_with_max_entries(100);
    for i in 0..5i64 {
        storage.record_at(
            Timestamp::new(i, 0),
            LogEntryContent::Request {
                tool_name: format!("tool_{}", i % 2),
                content: json(&format!("{{\"i\":{i}}}")),
            },
        );
    }
    storage.record_at(Timestamp::new(9, 0), LogEntryContent::Stderr { message: "zzz".to_string() });
    let all = show_log(request_for(20, None), &storage);
    assert_eq!(
        all,
        "[STDERR] zzz\n\n[REQUEST #5] tool_0(i: 4)\n\n[REQUEST #4] tool_1(i: 3)\n\n[REQUEST #3] tool_0(i: 2)\n\n[REQUEST #2] tool_1(i: 1)\n\n[REQUEST #1] tool_0(i: 0)\n\n"
    );
    let two = show_log(request_for(2, Some("ai")), &storage);
    assert_eq!(two, "[STDERR] zzz\n\n[REQUEST #5] tool_0(i: 4)\n\n");
    let mut by_tool = request_for(20, Some("unknown"));
    by_tool.tool_name = Some("tool_1".to_string());
    assert_eq!(
        show_log(by_tool, &storage),
        "[REQUEST #4] tool_1(i: 3)\n\n[REQUEST #2] tool_1(i: 1)\n\n"
    );
    let mut by_type = request_for(20, None);
    by_type.entry_type = Some("stderr".to_string());
    assert_eq!(show_log(by_type, &storage), "[STDERR] zzz\n\n");
    let mut by_keyword = request_for(20, None);
    by_keyword.keyword = Some("\"i\":[34]".to_string());
    assert_eq!(
        show_log(by_keyword, &storage),
        "[REQUEST #5] tool_0(i: 4)\n\n[REQUEST #4] tool_1(i: 3)\n\n"
    );
    let mut none = request_for(20, None);
    none.tool_name = Some("nobody".to_string());
    assert_eq!(show_log(none, &storage), "No log entries found.\n");
    let json = show_log(request_for(1, Some("json")), &storage);
    let value: serde_json::Value = serde_json::from_str(&json).unwrap();
    assert_eq!(value.as_array().unwrap().len(), 1);
    assert_eq!(value[0]["type"], "stderr");
    let text = show_log(request_for(1, Some(" text ")), &storage);
    assert!(text.starts_with("[#6] 1970-01-01 00:00:09 UTC | stderr\nContent: {\n"));
    assert_eq!(storage.get_log_count(), 6);
}
