//! Tool descriptors: those that the child announces, and the three that the
//! proxy itself always offers.

use crate::text::opt_view;
use vstd::prelude::*;

verus! {

/// Name of the built-in tool that shows the log.
pub const SHOW_LOG: &'static str = "show_log";

/// Name of the built-in tool that clears the log.
pub const CLEAR_LOG: &'static str = "clear_log";

/// Name of the built-in tool that restarts the child.
pub const RESTART_WRAPPED_SERVER: &'static str = "restart_wrapped_server";

/// Input schema of `show_log`.
pub const SHOW_LOG_SCHEMA: &'static str =
    "{\"type\":\"object\",\"properties\":{\"limit\":{\"type\":\"integer\",\"description\":\"Maximum number of log entries to show (default: 20)\",\"default\":20},\"tool_name\":{\"type\":\"string\",\"description\":\"Filter logs by tool name\"},\"entry_type\":{\"type\":\"string\",\"enum\":[\"request\",\"response\",\"error\",\"stderr\"],\"description\":\"Filter logs by entry type\"},\"keyword\":{\"type\":\"string\",\"description\":\"Regular expression pattern to search in log content (fallback to literal search if invalid regex)\"},\"format\":{\"type\":\"string\",\"enum\":[\"ai\",\"text\",\"json\"],\"description\":\"Output format (default: ai)\",\"default\":\"ai\"}}}";

/// Input schema of a tool that takes no parameters.
pub const EMPTY_SCHEMA: &'static str = "{\"type\":\"object\",\"properties\":{}}";

/// Description of `show_log`.
pub const SHOW_LOG_DESCRIPTION: &'static str =
    "Display recorded request/response logs from the wrapper";

/// Description of `clear_log`.
pub const CLEAR_LOG_DESCRIPTION: &'static str = "Clear all recorded logs";

/// Description of `restart_wrapped_server`.
pub const RESTART_DESCRIPTION: &'static str =
    "Restart the wrapped MCP server while preserving logs";

/// What a client is told of a tool. The input schema is JSON, held as text.
#[derive(Debug, Clone)]
pub struct ToolDescriptor {
    pub name: String,
    pub description: Option<String>,
    pub input_schema: String,
    /// The whole tool as the child announced it, as JSON text, with whatever
    /// it holds beyond the three fields above. A built-in tool has none.
    pub definition: Option<String>,
}

/// A tool descriptor, with its strings as sequences of characters.
pub struct ToolDescriptorView {
    pub name: Seq<char>,
    pub description: Option<Seq<char>>,
    pub input_schema: Seq<char>,
    pub definition: Option<Seq<char>>,
}

impl View for ToolDescriptor {
    type V = ToolDescriptorView;

    open spec fn view(&self) -> ToolDescriptorView {
        ToolDescriptorView {
            name: self.name@,
            description: opt_view(self.description),
            input_schema: self.input_schema@,
            definition: opt_view(self.definition),
        }
    }
}

/// The views of a sequence of tool descriptors.
pub open spec fn tools_view(s: Seq<ToolDescriptor>) -> Seq<ToolDescriptorView> {
    Seq::new(s.len(), |i: int| s[i]@)
}

/// The three tools that exist whatever the child offers, in the order in
/// which they are listed.
pub open spec fn spec_builtin_tools() -> Seq<ToolDescriptorView> {
    seq![
        ToolDescriptorView {
            name: SHOW_LOG@,
            description: Some(SHOW_LOG_DESCRIPTION@),
            input_schema: SHOW_LOG_SCHEMA@,
            definition: None,
        },
        ToolDescriptorView {
            name: CLEAR_LOG@,
            description: Some(CLEAR_LOG_DESCRIPTION@),
            input_schema: EMPTY_SCHEMA@,
            definition: None,
        },
        ToolDescriptorView {
            name: RESTART_WRAPPED_SERVER@,
            description: Some(RESTART_DESCRIPTION@),
            input_schema: EMPTY_SCHEMA@,
            definition: None,
        },
    ]
}

impl ToolDescriptor {
    /// A descriptor from its three parts, without a definition behind it.
    pub fn new(name: String, description: Option<String>, input_schema: String) -> (t: Self)
        ensures
            t@ == (ToolDescriptorView {
                name: name@,
                description: opt_view(description),
                input_schema: input_schema@,
                definition: None,
            }),
    {
        ToolDescriptor { name, description, input_schema, definition: None }
    }

    /// A copy of the descriptor.
    pub fn duplicate(&self) -> (t: Self)
        ensures
            t@ == self@,
    {
        ToolDescriptor {
            name: self.name.clone(),
            description: match &self.description {
                Some(d) => Some(d.clone()),
                None => None,
            },
            input_schema: self.input_schema.clone(),
            definition: match &self.definition {
                Some(d) => Some(d.clone()),
                None => None,
            },
        }
    }
}

/// The descriptor of `show_log`.
pub fn create_show_log_tool() -> (t: ToolDescriptor)
    ensures
        t@ == spec_builtin_tools()[0],
{
    ToolDescriptor {
        name: SHOW_LOG.to_owned(),
        description: Some(SHOW_LOG_DESCRIPTION.to_owned()),
        input_schema: SHOW_LOG_SCHEMA.to_owned(),
        definition: None,
    }
}

/// The descriptor of `clear_log`.
pub fn create_clear_log_tool() -> (t: ToolDescriptor)
    ensures
        t@ == spec_builtin_tools()[1],
{
    ToolDescriptor {
        name: CLEAR_LOG.to_owned(),
        description: Some(CLEAR_LOG_DESCRIPTION.to_owned()),
        input_schema: EMPTY_SCHEMA.to_owned(),
        definition: None,
    }
}

/// The descriptor of `restart_wrapped_server`.
pub fn create_restart_wrapped_server_tool() -> (t: ToolDescriptor)
    ensures
        t@ == spec_builtin_tools()[2],
{
    ToolDescriptor {
        name: RESTART_WRAPPED_SERVER.to_owned(),
        description: Some(RESTART_DESCRIPTION.to_owned()),
        input_schema: EMPTY_SCHEMA.to_owned(),
        definition: None,
    }
}

/// What the tool list written in `text` holds: for each tool its name, its
/// description, its input schema and the whole tool as JSON text; the
/// parser's message if `text` is not a list of tools.
pub uninterp spec fn tool_list_parse(text: Seq<char>) -> Result<Seq<ToolDescriptorView>, Seq<char>>;

/// Whether the JSON written in `text` reads as the result of a tool call.
pub uninterp spec fn reads_as_tool_result(text: Seq<char>) -> bool;

/// Calls `serde_json::from_str` for a vector of `rmcp::model::Tool` and keeps
/// of each tool its name, its description, its input schema and the whole
/// tool, the last two printed with `serde_json::to_string`; where parsing
/// fails, the error's message is handed back. The contract only names the result.
#[verifier::external_body]
pub(crate) fn parse_tool_list(text: &str) -> (r: Result<Vec<ToolDescriptor>, String>)
    ensures
        match r {
            Ok(v) => tool_list_parse(text@) == Ok::<Seq<ToolDescriptorView>, Seq<char>>(
                tools_view(v@),
            ),
            Err(e) => tool_list_parse(text@) == Err::<Seq<ToolDescriptorView>, Seq<char>>(e@),
        },
{
    let tools = serde_json::from_str::<Vec<rmcp::model::Tool>>(text).map_err(|e| e.to_string())?;
    Ok(tools.into_iter().map(|t| ToolDescriptor {
        definition: serde_json::to_string(&t).ok(),
        input_schema: serde_json::to_string(&t.input_schema).unwrap_or_default(),
        name: t.name.into_owned(),
        description: t.description.map(|d| d.into_owned()),
    }).collect())
}

/// Calls `serde_json::from_str` for an `rmcp::model::CallToolResult` and says
/// whether it succeeded. The contract only names the result.
#[verifier::external_body]
pub(crate) fn is_tool_result(text: &str) -> (r: bool)
    ensures
        r == reads_as_tool_result(text@),
{
    serde_json::from_str::<rmcp::model::CallToolResult>(text).is_ok()
}

} // verus!
