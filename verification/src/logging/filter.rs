//! What a reader of the log may ask for.

use crate::clock::Timestamp;
use crate::text::opt_view;
use vstd::prelude::*;

verus! {

/// A filter on log entries. A field that is `None` lets every entry pass.
#[derive(Debug, Clone)]
pub struct LogFilter {
    /// Only entries of this tool.
    pub tool_name: Option<String>,
    /// Only entries of this kind: `request`, `response`, `error` or `stderr`.
    pub entry_type: Option<String>,
    /// Only entries strictly later than this.
    pub after: Option<Timestamp>,
    /// Only entries strictly earlier than this.
    pub before: Option<Timestamp>,
    /// Only entries whose serialized content the keyword is found in.
    pub keyword: Option<String>,
}

/// A filter, with its strings as sequences of characters.
pub struct LogFilterView {
    pub tool_name: Option<Seq<char>>,
    pub entry_type: Option<Seq<char>>,
    pub after: Option<Timestamp>,
    pub before: Option<Timestamp>,
    pub keyword: Option<Seq<char>>,
}

impl View for LogFilter {
    type V = LogFilterView;

    open spec fn view(&self) -> LogFilterView {
        LogFilterView {
            tool_name: opt_view(self.tool_name),
            entry_type: opt_view(self.entry_type),
            after: self.after,
            before: self.before,
            keyword: opt_view(self.keyword),
        }
    }
}

impl LogFilter {
    /// The filter that lets every entry pass.
    pub fn any() -> (f: Self)
        ensures
            f@.tool_name is None,
            f@.entry_type is None,
            f@.after is None,
            f@.before is None,
            f@.keyword is None,
    {
        LogFilter { tool_name: None, entry_type: None, after: None, before: None, keyword: None }
    }
}

} // verus!
