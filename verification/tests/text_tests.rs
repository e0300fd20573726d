use wrap_mcp::pattern::{keyword_matches, keyword_verdict};
use wrap_mcp::json::JsonText;
use wrap_mcp::text::{
    chars_of, clone_strings, contains, decimal, decimal_u64, find_from, is_white_space_char,
    matches_at, push_decimal, push_indented, push_spaces, push_str, rfind, str_eq, trim,
};
use wrap_mcp::types::ToolName;

fn chars(s: &str) -> Vec<char> {
    s.chars().collect()
}

#[test]
fn numbers_in_decimal() {
    assert_eq!(decimal(0), "0");
    assert_eq!(decimal(7), "7");
    assert_eq!(decimal(10), "10");
    assert_eq!(decimal(1234567890), "1234567890");
    assert_eq!(decimal_u64(u64::MAX), "18446744073709551615");
    assert_eq!(decimal(usize::MAX), usize::MAX.to_string());
    let mut out = chars("n=");
    push_decimal(&mut out, 905);
    assert_eq!(out, chars("n=905"));
}

#[test]
fn strings_as_characters() {
    assert_eq!(chars_of("h\u{e9}llo"), chars("h\u{e9}llo"));
    assert!(chars_of("").is_empty());
    assert!(str_eq("a", "a"));
    assert!(!str_eq("a", "A"));
    assert!(!str_eq("a", "ab"));
    assert!(str_eq("", ""));
    let v = vec!["x".to_string(), "".to_string()];
    assert_eq!(clone_strings(&v), v);
}

#[test]
fn pushing_text() {
    let mut out = chars("a");
    push_str(&mut out, "bc");
    push_spaces(&mut out, 2);
    push_str(&mut out, "");
    push_spaces(&mut out, 0);
    assert_eq!(out, chars("abc  "));
    let mut out = Vec::new();
    push_indented(&mut out, "x\ny\n\nz\n", 2);
    assert_eq!(out, chars("x\n  y\n  \n  z\n  "));
    let mut out = chars(">");
    push_indented(&mut out, "no break", 3);
    assert_eq!(out, chars(">no break"));
}

#[test]
fn searching() {
    let hay = chars("abcabc");
    assert!(matches_at(&hay, &chars("bc"), 1));
    assert!(!matches_at(&hay, &chars("bc"), 2));
    assert!(!matches_at(&hay, &chars("bc"), 5));
    assert!(!matches_at(&hay, &chars("bc"), 50));
    assert!(matches_at(&hay, &chars(""), 6));
    assert!(!matches_at(&hay, &chars(""), 7));
    assert_eq!(find_from(&hay, &chars("bc"), 0), Some(1));
    assert_eq!(find_from(&hay, &chars("bc"), 1), Some(1));
    assert_eq!(find_from(&hay, &chars("bc"), 2), Some(4));
    assert_eq!(find_from(&hay, &chars("bc"), 5), None);
    assert_eq!(find_from(&hay, &chars("x"), 0), None);
    assert_eq!(find_from(&hay, &chars(""), 6), Some(6));
    assert_eq!(find_from(&hay, &chars(""), 7), None);
    assert_eq!(find_from(&hay, &chars("abcabcd"), 0), None);
    assert_eq!(rfind(&hay, &chars("bc")), Some(4));
    assert_eq!(rfind(&hay, &chars("a")), Some(3));
    assert_eq!(rfind(&hay, &chars("x")), None);
    assert_eq!(rfind(&hay, &chars("")), Some(6));
    assert_eq!(rfind(&Vec::new(), &chars("a")), None);
    assert_eq!(rfind(&hay, &chars("abcabc")), Some(0));
}

#[test]
fn searching_agrees_with_the_standard_library() {
    let hays = ["", "a", "aaa", "abcabc", "h\u{e9}h\u{e9}", ": : :"];
    let needles = ["", "a", "aa", "bc", "\u{e9}h", ": ", "zz"];
    for hay in hays {
        for needle in needles {
            assert_eq!(contains(hay, needle), hay.contains(needle), "{hay:?} {needle:?}");
            let h = chars(hay);
            let n = chars(needle);
            let first = hay.find(needle).map(|b| hay[..b].chars().count());
            let last = hay.rfind(needle).map(|b| hay[..b].chars().count());
            assert_eq!(find_from(&h, &n, 0), first, "{hay:?} {needle:?}");
            assert_eq!(rfind(&h, &n), last, "{hay:?} {needle:?}");
        }
    }
}

#[test]
fn a_keyword_is_a_pattern_where_it_can_be() {
    assert!(keyword_matches("a+b", "xaaab"));
    assert!(!keyword_matches("a+b", "a+b"));
    assert!(keyword_matches("a\\+b", "a+b"));
    assert!(keyword_matches("", "anything"));
    // not a pattern: searched for as it stands
    assert!(keyword_matches("a+(b", "xa+(b"));
    assert!(!keyword_matches("a+(b", "xaab"));
    assert!(keyword_matches("[", "a[b"));
    assert!(!keyword_matches("[", "ab"));
}

#[test]
fn the_verdict_goes_by_the_engine_where_it_has_one() {
    assert!(keyword_verdict(Some(true), "zzz", "abc"));
    assert!(!keyword_verdict(Some(false), "abc", "abc"));
    assert!(keyword_verdict(None, "bc", "abc"));
    assert!(!keyword_verdict(None, "cb", "abc"));
}

#[test]
fn white_space_is_what_the_standard_library_takes_for_it() {
    for code in 0..=0x10FFFFu32 {
        if let Some(c) = char::from_u32(code) {
            assert_eq!(is_white_space_char(c), c.is_whitespace(), "U+{code:04X}");
        }
    }
}

#[test]
fn trimming_takes_the_white_space_off_both_ends() {
    assert_eq!(trim("  json\n"), "json");
    assert_eq!(trim("\ttext "), "text");
    assert_eq!(trim("a b"), "a b");
    assert_eq!(trim(" a  b \u{a0}\u{3000}"), "a  b");
    assert_eq!(trim(""), "");
    assert_eq!(trim(" \t\r\n"), "");
    assert_eq!(trim("x"), "x");
    assert_eq!(trim("\u{200b}x"), "\u{200b}x");
    let samples = ["", " ", "  a", "a  ", " a b ", "\u{2028}h\u{e9}\u{2029}", "\u{85}\u{1680}", "\u{feff}x "];
    for sample in samples {
        assert_eq!(trim(sample), sample.trim(), "{sample:?}");
    }
}

#[test]
fn json_text_is_held_in_compact_form() {
    let value = JsonText::parse(" { \"b\" : [ 1 , 2.50 ] , \"a\" : \"x y\" } ").unwrap();
    assert_eq!(value.as_str(), "{\"a\":\"x y\",\"b\":[1,2.5]}");
    assert_eq!(value.duplicate().as_str(), value.as_str());
    assert_eq!(value.clone().into_string(), "{\"a\":\"x y\",\"b\":[1,2.5]}");
    value.show_compact();
    // reading what was printed gives the same text again
    assert_eq!(JsonText::parse(value.as_str()).unwrap().as_str(), value.as_str());
    assert_eq!(JsonText::parse("null").unwrap().as_str(), "null");
    assert!(!JsonText::parse("{").unwrap_err().is_empty());
    assert!(JsonText::parse("").is_err());
    assert!(JsonText::parse("{} {}").is_err());
    assert!(JsonText::parse("not json").is_err());
}

#[test]
fn tool_names_compare_and_convert() {
    let a = ToolName::from("echo");
    let b: ToolName = "echo".to_string().into();
    let c = ToolName::new("cat".to_string());
    assert!(a == b);
    assert!(a != c);
    assert_eq!(a, b);
    let shown: &str = a.as_ref();
    assert_eq!(shown, "echo");
    assert_eq!(c.as_str(), "cat");
}
