//! Log entries and the test that a filter makes of them.

use crate::clock::{now, Timestamp};
use crate::json::{json_quoted, quoted, JsonText};
use crate::logging::filter::{LogFilter, LogFilterView};
use crate::pattern::{keyword_matches, spec_keyword_matches};
use crate::text::{decimal, decimal_text, str_eq};
use vstd::prelude::*;

verus! {

/// What an entry records. Arguments and responses are JSON, held as text
/// in compact form.
#[derive(Debug, Clone)]
pub enum LogEntryContent {
    Request { tool_name: String, content: JsonText },
    Response { tool_name: String, request_id: usize, response: JsonText },
    Error { tool_name: String, request_id: usize, error: String },
    Stderr { message: String },
}

/// What an entry records, with its strings as sequences of characters.
pub enum ContentView {
    Request { tool_name: Seq<char>, content: Seq<char> },
    Response { tool_name: Seq<char>, request_id: usize, response: Seq<char> },
    Error { tool_name: Seq<char>, request_id: usize, error: Seq<char> },
    Stderr { message: Seq<char> },
}

/// One entry of the log.
#[derive(Debug, Clone)]
pub struct LogEntry {
    pub id: usize,
    pub timestamp: Timestamp,
    pub content: LogEntryContent,
}

/// One entry of the log, with its strings as sequences of characters.
pub struct LogEntryView {
    pub id: usize,
    pub timestamp: Timestamp,
    pub content: ContentView,
}

/// The kind of an entry.
#[derive(Debug, Clone, Copy, PartialEq, Eq, Structural)]
pub enum LogEntryType {
    Request,
    Response,
    Error,
    Stderr,
}

impl View for LogEntryContent {
    type V = ContentView;

    open spec fn view(&self) -> ContentView {
        match self {
            LogEntryContent::Request { tool_name, content } => ContentView::Request {
                tool_name: tool_name@,
                content: content@,
            },
            LogEntryContent::Response { tool_name, request_id, response } => ContentView::Response {
                tool_name: tool_name@,
                request_id: *request_id,
                response: response@,
            },
            LogEntryContent::Error { tool_name, request_id, error } => ContentView::Error {
                tool_name: tool_name@,
                request_id: *request_id,
                error: error@,
            },
            LogEntryContent::Stderr { message } => ContentView::Stderr { message: message@ },
        }
    }
}

impl View for LogEntry {
    type V = LogEntryView;

    open spec fn view(&self) -> LogEntryView {
        LogEntryView { id: self.id, timestamp: self.timestamp, content: self.content@ }
    }
}

impl ContentView {
    /// The tool that the entry belongs to; a diagnostic line belongs to none.
    pub open spec fn tool_name(self) -> Option<Seq<char>> {
        match self {
            ContentView::Request { tool_name, .. } => Some(tool_name),
            ContentView::Response { tool_name, .. } => Some(tool_name),
            ContentView::Error { tool_name, .. } => Some(tool_name),
            ContentView::Stderr { .. } => None,
        }
    }

    /// The kind of the entry.
    pub open spec fn entry_type(self) -> LogEntryType {
        match self {
            ContentView::Request { .. } => LogEntryType::Request,
            ContentView::Response { .. } => LogEntryType::Response,
            ContentView::Error { .. } => LogEntryType::Error,
            ContentView::Stderr { .. } => LogEntryType::Stderr,
        }
    }

    /// The content as one line of JSON: the kind under `type`, then the
    /// fields in the order in which they are declared.
    pub open spec fn serialized(self) -> Seq<char> {
        match self {
            ContentView::Request { tool_name, content } => "{\"type\":\"request\",\"tool_name\":"@
                + json_quoted(tool_name) + ",\"content\":"@ + content + "}"@,
            ContentView::Response {
                tool_name,
                request_id,
                response,
            } => "{\"type\":\"response\",\"tool_name\":"@ + json_quoted(tool_name)
                + ",\"request_id\":"@ + decimal_text(request_id as nat) + ",\"response\":"@
                + response + "}"@,
            ContentView::Error {
                tool_name,
                request_id,
                error,
            } => "{\"type\":\"error\",\"tool_name\":"@ + json_quoted(tool_name)
                + ",\"request_id\":"@ + decimal_text(request_id as nat) + ",\"error\":"@
                + json_quoted(error) + "}"@,
            ContentView::Stderr { message } => "{\"type\":\"stderr\",\"message\":"@ + json_quoted(
                message,
            ) + "}"@,
        }
    }
}

impl LogEntryType {
    /// The name under which a filter asks for this kind.
    pub open spec fn spec_name(self) -> Seq<char> {
        match self {
            LogEntryType::Request => "request"@,
            LogEntryType::Response => "response"@,
            LogEntryType::Error => "error"@,
            LogEntryType::Stderr => "stderr"@,
        }
    }

    /// The name under which a filter asks for this kind.
    pub fn name(&self) -> (r: &'static str)
        ensures
            r@ == self.spec_name(),
    {
        match self {
            LogEntryType::Request => "request",
            LogEntryType::Response => "response",
            LogEntryType::Error => "error",
            LogEntryType::Stderr => "stderr",
        }
    }

    /// The name as an owned string.
    pub fn to_text(&self) -> (r: String)
        ensures
            r@ == self.spec_name(),
    {
        self.name().to_owned()
    }

    /// The kind of a content.
    pub fn of(content: &LogEntryContent) -> (r: Self)
        ensures
            r == content@.entry_type(),
    {
        match content {
            LogEntryContent::Request { .. } => LogEntryType::Request,
            LogEntryContent::Response { .. } => LogEntryType::Response,
            LogEntryContent::Error { .. } => LogEntryType::Error,
            LogEntryContent::Stderr { .. } => LogEntryType::Stderr,
        }
    }
}

impl LogEntryContent {
    /// The tool that the entry belongs to; a diagnostic line belongs to none.
    pub fn tool_name(&self) -> (r: Option<&str>)
        ensures
            match r {
                Some(s) => self@.tool_name() == Some(s@),
                None => self@.tool_name() is None,
            },
    {
        match self {
            LogEntryContent::Request { tool_name, .. } => Some(tool_name.as_str()),
            LogEntryContent::Response { tool_name, .. } => Some(tool_name.as_str()),
            LogEntryContent::Error { tool_name, .. } => Some(tool_name.as_str()),
            LogEntryContent::Stderr { .. } => None,
        }
    }

    /// Whether the entry belongs to the tool `name`. A diagnostic line
    /// belongs to no tool.
    pub fn match_tool_name(&self, name: &str) -> (r: bool)
        ensures
            r == (self@.tool_name() == Some(name@)),
    {
        match self {
            LogEntryContent::Request { tool_name, .. } => str_eq(tool_name.as_str(), name),
            LogEntryContent::Response { tool_name, .. } => str_eq(tool_name.as_str(), name),
            LogEntryContent::Error { tool_name, .. } => str_eq(tool_name.as_str(), name),
            LogEntryContent::Stderr { .. } => false,
        }
    }

    /// Whether the entry is of the kind that `entry_type` names.
    pub fn match_entry_type(&self, entry_type: &str) -> (r: bool)
        ensures
            r == (self@.entry_type().spec_name() == entry_type@),
    {
        str_eq(LogEntryType::of(self).name(), entry_type)
    }

    /// The content as one line of JSON.
    pub fn serialize(&self) -> (r: String)
        ensures
            r@ == self@.serialized(),
    {
        match self {
            LogEntryContent::Request { tool_name, content } => {
                let mut r = "{\"type\":\"request\",\"tool_name\":".to_owned();
                r.append(quoted(tool_name.as_str()).as_str());
                r.append(",\"content\":");
                r.append(content.as_str());
                r.append("}");
                r
            },
            LogEntryContent::Response { tool_name, request_id, response } => {
                let mut r = "{\"type\":\"response\",\"tool_name\":".to_owned();
                r.append(quoted(tool_name.as_str()).as_str());
                r.append(",\"request_id\":");
                r.append(decimal(*request_id).as_str());
                r.append(",\"response\":");
                r.append(response.as_str());
                r.append("}");
                r
            },
            LogEntryContent::Error { tool_name, request_id, error } => {
                let mut r = "{\"type\":\"error\",\"tool_name\":".to_owned();
                r.append(quoted(tool_name.as_str()).as_str());
                r.append(",\"request_id\":");
                r.append(decimal(*request_id).as_str());
                r.append(",\"error\":");
                r.append(quoted(error.as_str()).as_str());
                r.append("}");
                r
            },
            LogEntryContent::Stderr { message } => {
                let mut r = "{\"type\":\"stderr\",\"message\":".to_owned();
                r.append(quoted(message.as_str()).as_str());
                r.append("}");
                r
            },
        }
    }

    /// A copy of the content.
    pub fn duplicate(&self) -> (r: Self)
        ensures
            r@ == self@,
    {
        match self {
            LogEntryContent::Request { tool_name, content } => LogEntryContent::Request {
                tool_name: tool_name.clone(),
                content: content.duplicate(),
            },
            LogEntryContent::Response {
                tool_name,
                request_id,
                response,
            } => LogEntryContent::Response {
                tool_name: tool_name.clone(),
                request_id: *request_id,
                response: response.duplicate(),
            },
            LogEntryContent::Error { tool_name, request_id, error } => LogEntryContent::Error {
                tool_name: tool_name.clone(),
                request_id: *request_id,
                error: error.clone(),
            },
            LogEntryContent::Stderr { message } => LogEntryContent::Stderr {
                message: message.clone(),
            },
        }
    }
}

/// Whether an entry passes a filter: it must pass every field that is set.
pub open spec fn spec_passes(e: LogEntryView, f: LogFilterView) -> bool {
    &&& (f.tool_name matches Some(name) ==> e.content.tool_name() == Some(name))
    &&& (f.entry_type matches Some(t) ==> e.content.entry_type().spec_name() == t)
    &&& (f.after matches Some(after) ==> after.spec_before(e.timestamp))
    &&& (f.before matches Some(before) ==> e.timestamp.spec_before(before))
    &&& (f.keyword matches Some(keyword) ==> spec_keyword_matches(
        keyword,
        e.content.serialized(),
    ))
}

impl LogEntry {
    /// A request entry, stamped with the present time.
    pub fn new_request(id: usize, tool_name: String, content: JsonText) -> (e: Self)
        ensures
            e@.id == id,
            e@.content == (ContentView::Request { tool_name: tool_name@, content: content@ }),
    {
        LogEntry { id, timestamp: now(), content: LogEntryContent::Request { tool_name, content } }
    }

    /// A response entry, stamped with the present time.
    pub fn new_response(id: usize, tool_name: String, request_id: usize, response: JsonText) -> (e:
        Self)
        ensures
            e@.id == id,
            e@.content == (ContentView::Response {
                tool_name: tool_name@,
                request_id,
                response: response@,
            }),
    {
        LogEntry {
            id,
            timestamp: now(),
            content: LogEntryContent::Response { tool_name, request_id, response },
        }
    }

    /// An error entry, stamped with the present time.
    pub fn new_error(id: usize, tool_name: String, request_id: usize, error: String) -> (e: Self)
        ensures
            e@.id == id,
            e@.content == (ContentView::Error { tool_name: tool_name@, request_id, error: error@ }),
    {
        LogEntry {
            id,
            timestamp: now(),
            content: LogEntryContent::Error { tool_name, request_id, error },
        }
    }

    /// A diagnostic entry, stamped with the present time.
    pub fn new_stderr(id: usize, message: String) -> (e: Self)
        ensures
            e@.id == id,
            e@.content == (ContentView::Stderr { message: message@ }),
    {
        LogEntry { id, timestamp: now(), content: LogEntryContent::Stderr { message } }
    }

    /// An entry with a given time stamp.
    pub fn at(id: usize, timestamp: Timestamp, content: LogEntryContent) -> (e: Self)
        ensures
            e@ == (LogEntryView { id, timestamp, content: content@ }),
    {
        LogEntry { id, timestamp, content }
    }

    /// A copy of the entry.
    pub fn duplicate(&self) -> (r: Self)
        ensures
            r@ == self@,
    {
        LogEntry { id: self.id, timestamp: self.timestamp, content: self.content.duplicate() }
    }

    /// Whether the entry passes the filter.
    ///
    /// Each field of the filter that is set must be met: the tool's name
    /// must be the entry's, the kind must be the entry's, the entry must be
    /// strictly later than `after` and strictly earlier than `before`, and
    /// the keyword must be found in the entry's serialized content.
    pub fn filter(&self, filter: &LogFilter) -> (r: bool)
        ensures
            r == spec_passes(self@, filter@),
    {
        if let Some(name) = &filter.tool_name {
            if !self.content.match_tool_name(name.as_str()) {
                return false;
            }
        }
        if let Some(entry_type) = &filter.entry_type {
            if !self.content.match_entry_type(entry_type.as_str()) {
                return false;
            }
        }
        if let Some(after) = &filter.after {
            if !after.before(&self.timestamp) {
                return false;
            }
        }
        if let Some(before) = &filter.before {
            if !self.timestamp.before(before) {
                return false;
            }
        }
        if let Some(keyword) = &filter.keyword {
            let text = self.content.serialize();
            if !keyword_matches(keyword.as_str(), text.as_str()) {
                return false;
            }
        }
        true
    }
}

/// A diagnostic line passes no filter that names a tool.
pub proof fn lemma_stderr_never_matches_tool_name(e: LogEntryView, f: LogFilterView)
    requires
        e.content is Stderr,
        f.tool_name is Some,
    ensures
        !spec_passes(e, f),
{
}

/// The filter without any field set lets every entry pass.
pub proof fn lemma_empty_filter_passes(e: LogEntryView, f: LogFilterView)
    requires
        f.tool_name is None,
        f.entry_type is None,
        f.after is None,
        f.before is None,
        f.keyword is None,
    ensures
        spec_passes(e, f),
{
}

} // verus!
