//! The built-in tool that shows the log, in one of three forms: a compact
//! form of one line per entry, a verbose form of one block per entry, and JSON.

use crate::clock::{rfc3339_text, utc_text};
use crate::json::{
    array_texts, json_array_texts, json_member_text, json_object_members, json_pretty_text,
    json_quoted, json_string_content, member, object_members, pretty, quoted, string_content,
};
use crate::logging::entry::{ContentView, LogEntry, LogEntryContent, LogEntryType, LogEntryView};
use crate::logging::filter::{LogFilter, LogFilterView};
use crate::logging::storage::{entries_view, spec_get_logs, LogStorage};
use crate::text::{
    chars_of, decimal_text, find_from, lemma_find_from, opt_view, push_decimal, push_indented,
    push_spaces, push_str, rfind, spaces, spec_contains, spec_find, spec_find_from, spec_indent,
    spec_rfind, spec_trim, str_eq, string_of, strings_view, trim,
};
use vstd::prelude::*;

verus! {

/// The parameters of `show_log`.
#[derive(Debug, Clone)]
pub struct ShowLogRequest {
    /// How many entries to show at most.
    pub limit: usize,
    /// Only entries of this tool.
    pub tool_name: Option<String>,
    /// Only entries of this kind.
    pub entry_type: Option<String>,
    /// Only entries that the keyword is found in.
    pub keyword: Option<String>,
    /// The form of the output: `ai`, `text` or `json`.
    pub format: Option<String>,
}

/// The form in which the log is shown.
#[derive(Debug, Clone, Copy, PartialEq, Eq, Structural)]
pub enum OutputFormat {
    /// One compact line per entry.
    Ai,
    /// One verbose block per entry.
    Text,
    /// The entries as JSON.
    Json,
}

/// The limit that holds where a request names none.
pub fn default_limit() -> (n: usize)
    ensures
        n == 20,
{
    20
}

/// The form that stands for a word from which the white space at its ends
/// has been taken: `json` and `text` by their names, the compact form for
/// every other word.
pub open spec fn spec_format_of_word(word: Seq<char>) -> OutputFormat {
    if word == "json"@ {
        OutputFormat::Json
    } else if word == "text"@ {
        OutputFormat::Text
    } else {
        OutputFormat::Ai
    }
}

/// The form that a request asks for: the form of the word it names, with
/// white space around the word ignored, and `ai` where it names none.
pub open spec fn spec_output_format(format: Option<Seq<char>>) -> OutputFormat {
    spec_format_of_word(
        spec_trim(
            match format {
                Some(f) => f,
                None => "ai"@,
            },
        ),
    )
}

/// The form that stands for a word from which the white space at its ends
/// has been taken: `json`, `text`, and the compact form for anything else.
pub fn format_of_word(word: &str) -> (r: OutputFormat)
    ensures
        r == spec_format_of_word(word@),
{
    if str_eq(word, "json") {
        OutputFormat::Json
    } else if str_eq(word, "text") {
        OutputFormat::Text
    } else {
        OutputFormat::Ai
    }
}

/// The form that a request asks for.
pub fn output_format(format: &Option<String>) -> (r: OutputFormat)
    ensures
        r == spec_output_format(opt_view(*format)),
{
    let word = match format {
        Some(f) => trim(f.as_str()),
        None => trim("ai"),
    };
    format_of_word(word.as_str())
}

/// One member of a JSON object: its key, its value as JSON text and, where
/// the value is a string, the string's content.
#[derive(Debug, Clone)]
pub struct Member {
    pub key: String,
    pub value: String,
    pub string_value: Option<String>,
}

/// A member, with its strings as sequences of characters.
pub struct MemberView {
    pub key: Seq<char>,
    pub value: Seq<char>,
    pub string_value: Option<Seq<char>>,
}

impl View for Member {
    type V = MemberView;

    open spec fn view(&self) -> MemberView {
        MemberView {
            key: self.key@,
            value: self.value@,
            string_value: opt_view(self.string_value),
        }
    }
}

/// The views of a sequence of members.
pub open spec fn members_view(s: Seq<Member>) -> Seq<MemberView> {
    Seq::new(s.len(), |i: int| s[i]@)
}

/// The members of the JSON object written in `args`; `None` if it is no object.
pub open spec fn spec_members(args: Seq<char>) -> Option<Seq<MemberView>> {
    match json_object_members(args) {
        Some(ms) => Some(
            Seq::new(
                ms.len(),
                |i: int|
                    MemberView {
                        key: ms[i].0,
                        value: ms[i].1,
                        string_value: json_string_content(ms[i].1),
                    },
            ),
        ),
        None => None,
    }
}

/// One member as it is shown: the key, a colon, and the value; a string in
/// quotes with its content as it is, anything else as JSON.
pub open spec fn spec_member_text(m: MemberView) -> Seq<char> {
    m.key + ": "@ + (match m.string_value {
        Some(s) => "\""@ + s + "\""@,
        None => m.value,
    })
}

/// The members as they are shown, with a comma and a space between them.
pub open spec fn spec_join_members(ms: Seq<MemberView>) -> Seq<char>
    decreases ms.len(),
{
    if ms.len() == 0 {
        Seq::empty()
    } else if ms.len() == 1 {
        spec_member_text(ms[0])
    } else {
        spec_join_members(ms.drop_last()) + ", "@ + spec_member_text(ms.last())
    }
}

/// The arguments of a request as they are shown: the members of an object,
/// anything else as it is.
pub open spec fn spec_format_request_args(args: Seq<char>) -> Seq<char> {
    match spec_members(args) {
        Some(ms) => spec_join_members(ms),
        None => args,
    }
}

/// Reads the members of the JSON object written in `args`.
pub fn read_members(args: &str) -> (r: Option<Vec<Member>>)
    ensures
        match r {
            Some(v) => spec_members(args@) == Some(members_view(v@)),
            None => spec_members(args@) is None,
        },
{
    match object_members(args) {
        Some(pairs) => {
            let mut out: Vec<Member> = Vec::new();
            let mut i: usize = 0;
            while i < pairs.len()
                invariant
                    0 <= i <= pairs.len(),
                    out.len() == i,
                    forall|j: int|
                        0 <= j < i ==> (#[trigger] out[j])@ == (MemberView {
                            key: pairs[j].0@,
                            value: pairs[j].1@,
                            string_value: json_string_content(pairs[j].1@),
                        }),
                decreases pairs.len() - i,
            {
                let string_value = string_content(pairs[i].1.as_str());
                out.push(
                    Member { key: pairs[i].0.clone(), value: pairs[i].1.clone(), string_value },
                );
                i += 1;
            }
            assert(spec_members(args@)->0 =~= members_view(out@));
            Some(out)
        },
        None => None,
    }
}

/// Appends one member as it is shown.
pub fn push_member(out: &mut Vec<char>, m: &Member)
    ensures
        final(out)@ == old(out)@ + spec_member_text(m@),
{
    push_str(out, m.key.as_str());
    push_str(out, ": ");
    match &m.string_value {
        Some(s) => {
            push_str(out, "\"");
            push_str(out, s.as_str());
            push_str(out, "\"");
            assert(out@ =~= old(out)@ + spec_member_text(m@));
        },
        None => {
            push_str(out, m.value.as_str());
            assert(out@ =~= old(out)@ + spec_member_text(m@));
        },
    }
}

/// Appends the members as they are shown, with a comma and a space between them.
pub fn push_members(out: &mut Vec<char>, ms: &Vec<Member>)
    ensures
        final(out)@ == old(out)@ + spec_join_members(members_view(ms@)),
{
    let ghost all = members_view(ms@);
    let mut i: usize = 0;
    assert(all.take(0) =~= Seq::<MemberView>::empty());
    assert(out@ =~= old(out)@ + spec_join_members(all.take(0)));
    while i < ms.len()
        invariant
            0 <= i <= ms.len(),
            all == members_view(ms@),
            out@ == old(out)@ + spec_join_members(all.take(i as int)),
        decreases ms.len() - i,
    {
        let ghost head = all.take(i as int);
        let ghost next = all.take(i + 1);
        assert(next.drop_last() =~= head);
        assert(next.last() == ms[i as int]@);
        if i > 0 {
            push_str(out, ", ");
        }
        push_member(out, &ms[i]);
        proof {
            if i == 0 {
                assert(head =~= Seq::<MemberView>::empty());
                assert(next[0] == ms[i as int]@);
                assert(out@ =~= old(out)@ + spec_join_members(next));
            } else {
                assert(out@ =~= old(out)@ + (spec_join_members(head) + ", "@ + spec_member_text(
                    ms[i as int]@,
                )));
            }
        }
        i += 1;
    }
    assert(all.take(ms.len() as int) =~= all);
}

/// The members of an object as they are shown.
pub fn format_members(ms: &Vec<Member>) -> (r: String)
    ensures
        r@ == spec_join_members(members_view(ms@)),
{
    let mut out: Vec<char> = Vec::new();
    push_members(&mut out, ms);
    assert(out@ =~= spec_join_members(members_view(ms@)));
    string_of(&out)
}

/// The arguments of a request as they are shown.
pub fn format_request_args(args: &str) -> (r: String)
    ensures
        r@ == spec_format_request_args(args@),
{
    match read_members(args) {
        Some(ms) => format_members(&ms),
        None => args.to_owned(),
    }
}

/// A request entry in the compact form.
pub open spec fn spec_request_entry(id: usize, tool_name: Seq<char>, args: Seq<char>) -> Seq<char> {
    "[REQUEST #"@ + decimal_text(id as nat) + "] "@ + tool_name + "("@ + spec_format_request_args(
        args,
    ) + ")\n"@
}

/// A request entry in the compact form: its number, the tool and the arguments.
pub fn format_request_entry(id: usize, tool_name: &str, args: &str) -> (r: String)
    ensures
        r@ == spec_request_entry(id, tool_name@, args@),
{
    let mut out: Vec<char> = Vec::new();
    push_str(&mut out, "[REQUEST #");
    push_decimal(&mut out, id as u64);
    push_str(&mut out, "] ");
    push_str(&mut out, tool_name);
    push_str(&mut out, "(");
    push_str(&mut out, format_request_args(args).as_str());
    push_str(&mut out, ")\n");
    assert(out@ =~= spec_request_entry(id, tool_name@, args@));
    string_of(&out)
}

/// The text of one content item of a result, if it has one.
pub open spec fn spec_item_text(item: Seq<char>) -> Option<Seq<char>> {
    match json_member_text(item, "text"@) {
        Some(t) => json_string_content(t),
        None => None,
    }
}

/// The texts of the content items that have one, in their order.
pub open spec fn spec_collect_texts(items: Seq<Seq<char>>) -> Seq<Seq<char>>
    decreases items.len(),
{
    if items.len() == 0 {
        Seq::empty()
    } else {
        match spec_item_text(items.last()) {
            Some(t) => spec_collect_texts(items.drop_last()).push(t),
            None => spec_collect_texts(items.drop_last()),
        }
    }
}

/// The texts that a response carries under `result.content`.
pub open spec fn spec_response_texts(response: Seq<char>) -> Seq<Seq<char>> {
    match json_member_text(response, "result"@) {
        Some(result) => match json_member_text(result, "content"@) {
            Some(content) => match json_array_texts(content) {
                Some(items) => spec_collect_texts(items),
                None => Seq::empty(),
            },
            None => Seq::empty(),
        },
        None => Seq::empty(),
    }
}

/// One line for each text of a response.
pub open spec fn spec_response_lines(request_id: usize, texts: Seq<Seq<char>>) -> Seq<char>
    decreases texts.len(),
{
    if texts.len() == 0 {
        Seq::empty()
    } else {
        spec_response_lines(request_id, texts.drop_last()) + "[RESPONSE #"@ + decimal_text(
            request_id as nat,
        ) + "] \""@ + texts.last() + "\"\n"@
    }
}

/// Reads the texts that a response carries under `result.content`.
pub fn read_response_texts(response: &str) -> (r: Vec<String>)
    ensures
        strings_view(r@) == spec_response_texts(response@),
{
    let mut out: Vec<String> = Vec::new();
    assert(strings_view(out@) =~= Seq::<Seq<char>>::empty());
    let result = match member(response, "result") {
        Some(result) => result,
        None => {
            return out;
        },
    };
    let content = match member(result.as_str(), "content") {
        Some(content) => content,
        None => {
            return out;
        },
    };
    let items = match array_texts(content.as_str()) {
        Some(items) => items,
        None => {
            return out;
        },
    };
    let ghost all = strings_view(items@);
    let mut i: usize = 0;
    assert(all.take(0) =~= Seq::<Seq<char>>::empty());
    while i < items.len()
        invariant
            0 <= i <= items.len(),
            all == strings_view(items@),
            strings_view(out@) == spec_collect_texts(all.take(i as int)),
        decreases items.len() - i,
    {
        let ghost head = all.take(i as int);
        assert(all.take(i + 1).drop_last() =~= head);
        assert(all.take(i + 1).last() == items[i as int]@);
        let ghost before = strings_view(out@);
        let text = match member(items[i].as_str(), "text") {
            Some(t) => string_content(t.as_str()),
            None => None,
        };
        if let Some(t) = text {
            out.push(t);
            assert(strings_view(out@) =~= before.push(t@));
        }
        i += 1;
    }
    assert(all.take(items.len() as int) =~= all);
    out
}

/// Appends one line for each text of a response.
pub fn push_response_lines(out: &mut Vec<char>, request_id: usize, texts: &Vec<String>)
    ensures
        final(out)@ == old(out)@ + spec_response_lines(request_id, strings_view(texts@)),
{
    let ghost all = strings_view(texts@);
    let mut i: usize = 0;
    assert(all.take(0) =~= Seq::<Seq<char>>::empty());
    assert(out@ =~= old(out)@ + spec_response_lines(request_id, all.take(0)));
    while i < texts.len()
        invariant
            0 <= i <= texts.len(),
            all == strings_view(texts@),
            out@ == old(out)@ + spec_response_lines(request_id, all.take(i as int)),
        decreases texts.len() - i,
    {
        let ghost head = all.take(i as int);
        assert(all.take(i + 1).drop_last() =~= head);
        assert(all.take(i + 1).last() == texts[i as int]@);
        push_str(out, "[RESPONSE #");
        push_decimal(out, request_id as u64);
        push_str(out, "] \"");
        push_str(out, texts[i].as_str());
        push_str(out, "\"\n");
        assert(out@ =~= old(out)@ + (spec_response_lines(request_id, head) + "[RESPONSE #"@
            + decimal_text(request_id as nat) + "] \""@ + texts[i as int]@ + "\"\n"@));
        i += 1;
    }
    assert(all.take(texts.len() as int) =~= all);
}

/// A response entry in the compact form: one line for each text.
pub fn format_response_lines(request_id: usize, texts: &Vec<String>) -> (r: String)
    ensures
        r@ == spec_response_lines(request_id, strings_view(texts@)),
{
    let mut out: Vec<char> = Vec::new();
    push_response_lines(&mut out, request_id, texts);
    assert(out@ =~= spec_response_lines(request_id, strings_view(texts@)));
    string_of(&out)
}

/// A response entry in the compact form: one line for each text that the
/// response carries under `result.content`; nothing where it carries none.
pub fn format_response_entry(request_id: usize, response: &str) -> (r: String)
    ensures
        r@ == spec_response_lines(request_id, spec_response_texts(response@)),
{
    let texts = read_response_texts(response);
    format_response_lines(request_id, &texts)
}

/// An error entry in the compact form.
pub open spec fn spec_error_entry(request_id: usize, error: Seq<char>) -> Seq<char> {
    "[ERROR #"@ + decimal_text(request_id as nat) + "] "@ + error + "\n"@
}

/// An error entry in the compact form: the request's number and the message.
pub fn format_error_entry(request_id: usize, error: &str) -> (r: String)
    ensures
        r@ == spec_error_entry(request_id, error@),
{
    let mut out: Vec<char> = Vec::new();
    push_str(&mut out, "[ERROR #");
    push_decimal(&mut out, request_id as u64);
    push_str(&mut out, "] ");
    push_str(&mut out, error);
    push_str(&mut out, "\n");
    assert(out@ =~= spec_error_entry(request_id, error@));
    string_of(&out)
}

/// Whether a diagnostic line carries one of the level words of a logging framework.
pub open spec fn spec_has_level(m: Seq<char>) -> bool {
    spec_contains(m, " INFO "@) || spec_contains(m, " WARN "@) || spec_contains(m, " ERROR "@)
        || spec_contains(m, " DEBUG "@)
}

/// What is left of a line that names a source file: what follows the colon
/// and space in front of `src/`.
pub open spec fn spec_clean_by_source(m: Seq<char>) -> Option<Seq<char>> {
    match spec_find(m, ": src/"@) {
        Some(start) => match spec_find_from(m, ": "@, start) {
            Some(p) => Some(m.skip(p + 2)),
            None => None,
        },
        None => None,
    }
}

/// What is left of a line that names a thread: what follows the second
/// colon and space behind the last ` ThreadId`, or the first if there is no second.
pub open spec fn spec_clean_by_thread(m: Seq<char>) -> Option<Seq<char>> {
    match spec_rfind(m, " ThreadId"@) {
        Some(thread) => match spec_find_from(m, ": "@, thread) {
            Some(first) => match spec_find_from(m, ": "@, first + 2) {
                Some(second) => Some(m.skip(second + 2)),
                None => Some(m.skip(first + 2)),
            },
            None => None,
        },
        None => None,
    }
}

/// A diagnostic line without the prefix that a logging framework put in
/// front of it: cut by its source file if it names one, else by its thread if
/// it carries a level word and names one, else whole.
pub open spec fn spec_clean_stderr(m: Seq<char>) -> Seq<char> {
    match spec_clean_by_source(m) {
        Some(rest) => rest,
        None => if spec_has_level(m) {
            match spec_clean_by_thread(m) {
                Some(rest) => rest,
                None => m,
            }
        } else {
            m
        },
    }
}

fn contains_chars(hay: &Vec<char>, needle: &str) -> (r: bool)
    ensures
        r == spec_contains(hay@, needle@),
{
    let n = chars_of(needle);
    let found = find_from(hay, &n, 0);
    proof {
        lemma_find_from(hay@, n@, 0);
    }
    found.is_some()
}

fn find_str(hay: &Vec<char>, needle: &str, from: usize) -> (r: Option<usize>)
    ensures
        match r {
            Some(p) => spec_find_from(hay@, needle@, from as int) == Some(p as int) && from <= p
                && p + needle@.len() <= hay.len(),
            None => spec_find_from(hay@, needle@, from as int) is None,
        },
{
    let n = chars_of(needle);
    let found = find_from(hay, &n, from);
    proof {
        lemma_find_from(hay@, n@, from as int);
    }
    found
}

fn suffix_from(m: &Vec<char>, p: usize) -> (r: String)
    requires
        p <= m.len(),
    ensures
        r@ == m@.skip(p as int),
{
    let mut out: Vec<char> = Vec::new();
    let mut i: usize = p;
    while i < m.len()
        invariant
            p <= i <= m.len(),
            out@ == m@.subrange(p as int, i as int),
        decreases m.len() - i,
    {
        out.push(m[i]);
        i += 1;
        assert(out@ =~= m@.subrange(p as int, i as int));
    }
    assert(out@ =~= m@.skip(p as int));
    string_of(&out)
}

/// Takes the prefix of a logging framework off a diagnostic line.
pub fn clean_stderr_message(message: &str) -> (r: String)
    ensures
        r@ == spec_clean_stderr(message@),
{
    let m = chars_of(message);
    proof {
        reveal_strlit(": ");
    }
    if let Some(start) = find_str(&m, ": src/", 0) {
        if let Some(p) = find_str(&m, ": ", start) {
            return suffix_from(&m, p + 2);
        }
    }
    if contains_chars(&m, " INFO ") || contains_chars(&m, " WARN ") || contains_chars(&m, " ERROR ")
        || contains_chars(&m, " DEBUG ") {
        let thread_word = chars_of(" ThreadId");
        if let Some(thread) = rfind(&m, &thread_word) {
            if let Some(first) = find_str(&m, ": ", thread) {
                if let Some(second) = find_str(&m, ": ", first + 2) {
                    return suffix_from(&m, second + 2);
                } else {
                    return suffix_from(&m, first + 2);
                }
            }
        }
    }
    message.to_owned()
}

/// A diagnostic entry in the compact form.
pub open spec fn spec_stderr_entry(message: Seq<char>) -> Seq<char> {
    "[STDERR] "@ + spec_clean_stderr(message) + "\n"@
}

/// A diagnostic entry in the compact form: the line without the prefix of a
/// logging framework.
pub fn format_stderr_entry(message: &str) -> (r: String)
    ensures
        r@ == spec_stderr_entry(message@),
{
    let mut out: Vec<char> = Vec::new();
    push_str(&mut out, "[STDERR] ");
    push_str(&mut out, clean_stderr_message(message).as_str());
    push_str(&mut out, "\n");
    assert(out@ =~= spec_stderr_entry(message@));
    string_of(&out)
}

/// One entry in the compact form.
pub open spec fn spec_ai_entry(e: LogEntryView) -> Seq<char> {
    match e.content {
        ContentView::Request { tool_name, content } => spec_request_entry(e.id, tool_name, content),
        ContentView::Response { request_id, response, .. } => spec_response_lines(
            request_id,
            spec_response_texts(response),
        ),
        ContentView::Error { request_id, error, .. } => spec_error_entry(request_id, error),
        ContentView::Stderr { message } => spec_stderr_entry(message),
    }
}

/// The entries in the compact form, an empty line behind each.
pub open spec fn spec_ai_entries(logs: Seq<LogEntryView>) -> Seq<char>
    decreases logs.len(),
{
    if logs.len() == 0 {
        Seq::empty()
    } else {
        spec_ai_entries(logs.drop_last()) + spec_ai_entry(logs.last()) + "\n"@
    }
}

/// The compact form of the log: one fixed line where there are no entries.
pub open spec fn spec_ai_output(logs: Seq<LogEntryView>) -> Seq<char> {
    if logs.len() == 0 {
        "No log entries found.\n"@
    } else {
        spec_ai_entries(logs)
    }
}

/// One entry in the compact form.
pub fn format_ai_entry(e: &LogEntry) -> (r: String)
    ensures
        r@ == spec_ai_entry(e@),
{
    match &e.content {
        LogEntryContent::Request { tool_name, content } => format_request_entry(
            e.id,
            tool_name.as_str(),
            content.as_str(),
        ),
        LogEntryContent::Response { request_id, response, .. } => format_response_entry(
            *request_id,
            response.as_str(),
        ),
        LogEntryContent::Error { request_id, error, .. } => format_error_entry(
            *request_id,
            error.as_str(),
        ),
        LogEntryContent::Stderr { message } => format_stderr_entry(message.as_str()),
    }
}

/// The compact form of the log.
pub fn format_ai_output(logs: &Vec<LogEntry>) -> (r: String)
    ensures
        r@ == spec_ai_output(entries_view(logs@)),
{
    if logs.len() == 0 {
        return "No log entries found.\n".to_owned();
    }
    let ghost all = entries_view(logs@);
    let mut out: Vec<char> = Vec::new();
    let mut i: usize = 0;
    assert(all.take(0) =~= Seq::<LogEntryView>::empty());
    assert(out@ =~= spec_ai_entries(all.take(0)));
    while i < logs.len()
        invariant
            0 <= i <= logs.len(),
            all == entries_view(logs@),
            out@ == spec_ai_entries(all.take(i as int)),
        decreases logs.len() - i,
    {
        let ghost head = all.take(i as int);
        assert(all.take(i + 1).drop_last() =~= head);
        assert(all.take(i + 1).last() == logs[i as int]@);
        push_str(&mut out, format_ai_entry(&logs[i]).as_str());
        push_str(&mut out, "\n");
        assert(out@ =~= spec_ai_entries(head) + spec_ai_entry(logs[i as int]@) + "\n"@);
        i += 1;
    }
    assert(all.take(logs.len() as int) =~= all);
    string_of(&out)
}

/// JSON text printed over several lines, or as it is if it is no JSON.
pub open spec fn spec_pretty_or_raw(text: Seq<char>) -> Seq<char> {
    match json_pretty_text(text) {
        Some(p) => p,
        None => text,
    }
}

/// One field of an object that is printed over several lines: the padding,
/// the key in quotes, a colon and a space, and the value.
pub open spec fn spec_field(pad: nat, key: Seq<char>, value: Seq<char>) -> Seq<char> {
    spaces(pad) + "\""@ + key + "\": "@ + value
}

/// A JSON value as it stands inside an object that is padded by `pad`
/// spaces: printed over several lines, each further line padded as well.
pub open spec fn spec_nested(text: Seq<char>, pad: nat) -> Seq<char> {
    spec_indent(spec_pretty_or_raw(text), pad)
}

/// The fields of a content, one per line and padded by `pad` spaces: the
/// kind under `type`, then the fields in the order in which they are declared.
pub open spec fn spec_content_fields(c: ContentView, pad: nat) -> Seq<char> {
    match c {
        ContentView::Request { tool_name, content } => spec_field(pad, "type"@, "\"request\""@)
            + ",\n"@ + spec_field(pad, "tool_name"@, json_quoted(tool_name)) + ",\n"@ + spec_field(
            pad,
            "content"@,
            spec_nested(content, pad),
        ),
        ContentView::Response { tool_name, request_id, response } => spec_field(
            pad,
            "type"@,
            "\"response\""@,
        ) + ",\n"@ + spec_field(pad, "tool_name"@, json_quoted(tool_name)) + ",\n"@ + spec_field(
            pad,
            "request_id"@,
            decimal_text(request_id as nat),
        ) + ",\n"@ + spec_field(pad, "response"@, spec_nested(response, pad)),
        ContentView::Error { tool_name, request_id, error } => spec_field(
            pad,
            "type"@,
            "\"error\""@,
        ) + ",\n"@ + spec_field(pad, "tool_name"@, json_quoted(tool_name)) + ",\n"@ + spec_field(
            pad,
            "request_id"@,
            decimal_text(request_id as nat),
        ) + ",\n"@ + spec_field(pad, "error"@, json_quoted(error)),
        ContentView::Stderr { message } => spec_field(pad, "type"@, "\"stderr\""@) + ",\n"@
            + spec_field(pad, "message"@, json_quoted(message)),
    }
}

/// Appends one field of an object that is printed over several lines.
pub fn push_field(out: &mut Vec<char>, pad: usize, key: &str, value: &str)
    ensures
        final(out)@ == old(out)@ + spec_field(pad as nat, key@, value@),
{
    push_spaces(out, pad);
    push_str(out, "\"");
    push_str(out, key);
    push_str(out, "\": ");
    push_str(out, value);
    assert(out@ =~= old(out)@ + spec_field(pad as nat, key@, value@));
}

/// A JSON value as it stands inside an object that is padded by `pad` spaces.
pub fn nested(text: &str, pad: usize) -> (r: String)
    ensures
        r@ == spec_nested(text@, pad as nat),
{
    let printed = match pretty(text) {
        Some(p) => p,
        None => text.to_owned(),
    };
    let mut out: Vec<char> = Vec::new();
    push_indented(&mut out, printed.as_str(), pad);
    assert(out@ =~= spec_nested(text@, pad as nat));
    string_of(&out)
}

/// Appends the fields of a content, one per line and padded by `pad` spaces.
pub fn push_content_fields(out: &mut Vec<char>, content: &LogEntryContent, pad: usize)
    ensures
        final(out)@ == old(out)@ + spec_content_fields(content@, pad as nat),
{
    match content {
        LogEntryContent::Request { tool_name, content: arguments } => {
            push_field(out, pad, "type", "\"request\"");
            push_str(out, ",\n");
            push_field(out, pad, "tool_name", quoted(tool_name.as_str()).as_str());
            push_str(out, ",\n");
            push_field(out, pad, "content", nested(arguments.as_str(), pad).as_str());
            assert(out@ =~= old(out)@ + spec_content_fields(content@, pad as nat));
        },
        LogEntryContent::Response { tool_name, request_id, response } => {
            let mut number: Vec<char> = Vec::new();
            push_decimal(&mut number, *request_id as u64);
            assert(number@ =~= decimal_text(*request_id as nat));
            push_field(out, pad, "type", "\"response\"");
            push_str(out, ",\n");
            push_field(out, pad, "tool_name", quoted(tool_name.as_str()).as_str());
            push_str(out, ",\n");
            push_field(out, pad, "request_id", string_of(&number).as_str());
            push_str(out, ",\n");
            push_field(out, pad, "response", nested(response.as_str(), pad).as_str());
            assert(out@ =~= old(out)@ + spec_content_fields(content@, pad as nat));
        },
        LogEntryContent::Error { tool_name, request_id, error } => {
            let mut number: Vec<char> = Vec::new();
            push_decimal(&mut number, *request_id as u64);
            assert(number@ =~= decimal_text(*request_id as nat));
            push_field(out, pad, "type", "\"error\"");
            push_str(out, ",\n");
            push_field(out, pad, "tool_name", quoted(tool_name.as_str()).as_str());
            push_str(out, ",\n");
            push_field(out, pad, "request_id", string_of(&number).as_str());
            push_str(out, ",\n");
            push_field(out, pad, "error", quoted(error.as_str()).as_str());
            assert(out@ =~= old(out)@ + spec_content_fields(content@, pad as nat));
        },
        LogEntryContent::Stderr { message } => {
            push_field(out, pad, "type", "\"stderr\"");
            push_str(out, ",\n");
            push_field(out, pad, "message", quoted(message.as_str()).as_str());
            assert(out@ =~= old(out)@ + spec_content_fields(content@, pad as nat));
        },
    }
}

/// A time stamp as the verbose form shows it.
pub open spec fn spec_time_text(e: LogEntryView) -> Seq<char> {
    match utc_text(e.timestamp.secs, e.timestamp.nanos) {
        Some(t) => t,
        None => "unknown time"@,
    }
}

/// The line that ends a block of the verbose form.
pub open spec fn spec_rule() -> Seq<char> {
    Seq::new(60, |i: int| '-')
}

/// The head line of an entry in the verbose form: number, time and kind.
pub open spec fn spec_text_head(e: LogEntryView) -> Seq<char> {
    "[#"@ + decimal_text(e.id as nat) + "] "@ + spec_time_text(e) + " | "@
        + e.content.entry_type().spec_name() + "\n"@
}

/// The line that names the tool of an entry; nothing for a diagnostic line.
pub open spec fn spec_tool_line(c: ContentView) -> Seq<char> {
    match c.tool_name() {
        Some(name) => "Tool: "@ + name + "\n"@,
        None => Seq::empty(),
    }
}

/// The content of an entry in the verbose form: JSON over several lines,
/// and a rule of sixty dashes.
pub open spec fn spec_text_body(c: ContentView) -> Seq<char> {
    "Content: {\n"@ + spec_content_fields(c, 2) + "\n}\n"@ + spec_rule() + "\n"@
}

/// One entry in the verbose form: the head line, the tool if the entry has
/// one, and the content.
pub open spec fn spec_text_entry(e: LogEntryView) -> Seq<char> {
    spec_text_head(e) + spec_tool_line(e.content) + spec_text_body(e.content)
}

/// The verbose form of the log.
pub open spec fn spec_text_output(logs: Seq<LogEntryView>) -> Seq<char>
    decreases logs.len(),
{
    if logs.len() == 0 {
        Seq::empty()
    } else {
        spec_text_output(logs.drop_last()) + spec_text_entry(logs.last())
    }
}

fn push_rule(out: &mut Vec<char>)
    ensures
        final(out)@ == old(out)@ + spec_rule(),
{
    let mut i: usize = 0;
    while i < 60
        invariant
            0 <= i <= 60,
            out@ == old(out)@ + Seq::new(i as nat, |k: int| '-'),
        decreases 60 - i,
    {
        out.push('-');
        i += 1;
        assert(out@ =~= old(out)@ + Seq::new(i as nat, |k: int| '-'));
    }
}

fn push_text_head(out: &mut Vec<char>, e: &LogEntry)
    ensures
        final(out)@ == old(out)@ + spec_text_head(e@),
{
    push_str(out, "[#");
    push_decimal(out, e.id as u64);
    push_str(out, "] ");
    match e.timestamp.to_utc_text() {
        Some(t) => push_str(out, t.as_str()),
        None => push_str(out, "unknown time"),
    }
    push_str(out, " | ");
    push_str(out, LogEntryType::of(&e.content).name());
    push_str(out, "\n");
    assert(out@ =~= old(out)@ + spec_text_head(e@));
}

fn push_tool_line(out: &mut Vec<char>, content: &LogEntryContent)
    ensures
        final(out)@ == old(out)@ + spec_tool_line(content@),
{
    match content.tool_name() {
        Some(name) => {
            push_str(out, "Tool: ");
            push_str(out, name);
            push_str(out, "\n");
            assert(out@ =~= old(out)@ + spec_tool_line(content@));
        },
        None => {
            assert(out@ =~= old(out)@ + spec_tool_line(content@));
        },
    }
}

fn push_text_body(out: &mut Vec<char>, content: &LogEntryContent)
    ensures
        final(out)@ == old(out)@ + spec_text_body(content@),
{
    push_str(out, "Content: {\n");
    push_content_fields(out, content, 2);
    push_str(out, "\n}\n");
    push_rule(out);
    push_str(out, "\n");
    assert(out@ =~= old(out)@ + spec_text_body(content@));
}

/// Appends one entry in the verbose form.
pub fn push_text_entry(out: &mut Vec<char>, e: &LogEntry)
    ensures
        final(out)@ == old(out)@ + spec_text_entry(e@),
{
    push_text_head(out, e);
    push_tool_line(out, &e.content);
    push_text_body(out, &e.content);
    assert(out@ =~= old(out)@ + spec_text_entry(e@));
}

/// The verbose form of the log.
pub fn format_text_output(logs: &Vec<LogEntry>) -> (r: String)
    ensures
        r@ == spec_text_output(entries_view(logs@)),
{
    let ghost all = entries_view(logs@);
    let mut out: Vec<char> = Vec::new();
    let mut i: usize = 0;
    assert(all.take(0) =~= Seq::<LogEntryView>::empty());
    assert(out@ =~= spec_text_output(all.take(0)));
    while i < logs.len()
        invariant
            0 <= i <= logs.len(),
            all == entries_view(logs@),
            out@ == spec_text_output(all.take(i as int)),
        decreases logs.len() - i,
    {
        assert(all.take(i + 1).drop_last() =~= all.take(i as int));
        assert(all.take(i + 1).last() == logs[i as int]@);
        push_text_entry(&mut out, &logs[i]);
        i += 1;
    }
    assert(all.take(logs.len() as int) =~= all);
    string_of(&out)
}

/// A time stamp as JSON: a string in RFC 3339 form, or `null` where no date
/// belongs to it.
pub open spec fn spec_time_json(e: LogEntryView) -> Seq<char> {
    match rfc3339_text(e.timestamp.secs, e.timestamp.nanos) {
        Some(t) => "\""@ + t + "\""@,
        None => "null"@,
    }
}

/// One entry as a JSON object inside a list, over several lines: number and
/// time stamp, then the fields of the content.
pub open spec fn spec_json_entry(e: LogEntryView) -> Seq<char> {
    "  {\n"@ + spec_field(4, "id"@, decimal_text(e.id as nat)) + ",\n"@ + spec_field(
        4,
        "timestamp"@,
        spec_time_json(e),
    ) + ",\n"@ + spec_content_fields(e.content, 4) + "\n  }"@
}

/// The entries as JSON objects, with a comma and a line break between them.
pub open spec fn spec_json_entries(logs: Seq<LogEntryView>) -> Seq<char>
    decreases logs.len(),
{
    if logs.len() == 0 {
        Seq::empty()
    } else if logs.len() == 1 {
        spec_json_entry(logs[0])
    } else {
        spec_json_entries(logs.drop_last()) + ",\n"@ + spec_json_entry(logs.last())
    }
}

/// The log as a JSON list over several lines; `[]` where there are no entries.
pub open spec fn spec_json_output(logs: Seq<LogEntryView>) -> Seq<char> {
    if logs.len() == 0 {
        "[]"@
    } else {
        "[\n"@ + spec_json_entries(logs) + "\n]"@
    }
}

/// Appends one entry as a JSON object inside a list.
pub fn push_json_entry(out: &mut Vec<char>, e: &LogEntry)
    ensures
        final(out)@ == old(out)@ + spec_json_entry(e@),
{
    let mut number: Vec<char> = Vec::new();
    push_decimal(&mut number, e.id as u64);
    assert(number@ =~= decimal_text(e.id as nat));
    let mut time: Vec<char> = Vec::new();
    match e.timestamp.to_rfc3339() {
        Some(t) => {
            push_str(&mut time, "\"");
            push_str(&mut time, t.as_str());
            push_str(&mut time, "\"");
            assert(time@ =~= spec_time_json(e@));
        },
        None => {
            push_str(&mut time, "null");
            assert(time@ =~= spec_time_json(e@));
        },
    }
    push_str(out, "  {\n");
    push_field(out, 4, "id", string_of(&number).as_str());
    push_str(out, ",\n");
    push_field(out, 4, "timestamp", string_of(&time).as_str());
    push_str(out, ",\n");
    push_content_fields(out, &e.content, 4);
    push_str(out, "\n  }");
    assert(out@ =~= old(out)@ + spec_json_entry(e@));
}

/// The log as a JSON list over several lines.
pub fn format_json_output(logs: &Vec<LogEntry>) -> (r: String)
    ensures
        r@ == spec_json_output(entries_view(logs@)),
{
    if logs.len() == 0 {
        return "[]".to_owned();
    }
    let ghost all = entries_view(logs@);
    let mut out: Vec<char> = Vec::new();
    push_str(&mut out, "[\n");
    let mut i: usize = 0;
    assert(all.take(0) =~= Seq::<LogEntryView>::empty());
    assert(out@ =~= "[\n"@ + spec_json_entries(all.take(0)));
    while i < logs.len()
        invariant
            0 <= i <= logs.len(),
            all == entries_view(logs@),
            out@ == "[\n"@ + spec_json_entries(all.take(i as int)),
        decreases logs.len() - i,
    {
        let ghost head = all.take(i as int);
        let ghost next = all.take(i + 1);
        assert(next.drop_last() =~= head);
        assert(next.last() == logs[i as int]@);
        if i > 0 {
            push_str(&mut out, ",\n");
        }
        push_json_entry(&mut out, &logs[i]);
        proof {
            if i == 0 {
                assert(head =~= Seq::<LogEntryView>::empty());
                assert(next[0] == logs[i as int]@);
                assert(out@ =~= "[\n"@ + spec_json_entries(next));
            } else {
                assert(out@ =~= "[\n"@ + (spec_json_entries(head) + ",\n"@ + spec_json_entry(
                    logs[i as int]@,
                )));
            }
        }
        i += 1;
    }
    assert(all.take(logs.len() as int) =~= all);
    push_str(&mut out, "\n]");
    assert(out@ =~= spec_json_output(all));
    string_of(&out)
}

/// The log in the given form.
pub open spec fn spec_render(format: OutputFormat, logs: Seq<LogEntryView>) -> Seq<char> {
    match format {
        OutputFormat::Json => spec_json_output(logs),
        OutputFormat::Text => spec_text_output(logs),
        OutputFormat::Ai => spec_ai_output(logs),
    }
}

/// The filter that a request stands for: tool, kind and keyword as the
/// request names them, and no bounds in time.
pub open spec fn spec_request_filter(req: ShowLogRequest) -> LogFilterView {
    LogFilterView {
        tool_name: opt_view(req.tool_name),
        entry_type: opt_view(req.entry_type),
        after: None,
        before: None,
        keyword: opt_view(req.keyword),
    }
}

/// Entries in the given form.
pub fn render(format: OutputFormat, logs: &Vec<LogEntry>) -> (r: String)
    ensures
        r@ == spec_render(format, entries_view(logs@)),
{
    match format {
        OutputFormat::Json => format_json_output(logs),
        OutputFormat::Text => format_text_output(logs),
        OutputFormat::Ai => format_ai_output(logs),
    }
}

/// Shows the log: the entries that the request's filter lets through,
/// newest first and no more than its limit, in the form that it asks for.
pub fn show_log(req: ShowLogRequest, log_storage: &LogStorage) -> (r: String)
    ensures
        r@ == spec_render(
            spec_output_format(opt_view(req.format)),
            spec_get_logs(log_storage@.entries, Some(req.limit), Some(spec_request_filter(req))),
        ),
{
    let format = output_format(&req.format);
    let filter = LogFilter {
        tool_name: req.tool_name,
        entry_type: req.entry_type,
        after: None,
        before: None,
        keyword: req.keyword,
    };
    let logs = log_storage.get_logs(Some(req.limit), Some(filter));
    render(format, &logs)
}

} // verus!
