//! The tool registry and the forwarding of calls.
//!
//! The registry holds the tools that the child announced, replaced as a
//! whole by each discovery, and lists them ahead of the built-in tools. A
//! call is logged when it begins and once more when its outcome is known.

use crate::clock::Timestamp;
use crate::json::{json_member_text, json_string_content, member, string_content, JsonText};
use crate::logging::entry::ContentView;
use crate::logging::storage::{spec_record, LogStorage, LogStorageView};
use crate::text::opt_view;
use crate::tools::descriptor::{
    create_clear_log_tool, create_restart_wrapped_server_tool, create_show_log_tool,
    is_tool_result, parse_tool_list, reads_as_tool_result, spec_builtin_tools, tool_list_parse,
    tools_view, ToolDescriptor, ToolDescriptorView,
};
use crate::types::RequestId;
use crate::wrappee::{outcome_view, TransportError, TransportErrorView};
use vstd::prelude::*;

verus! {

/// The kinds of failure that a client can be told of.
#[derive(Debug, Clone, Copy, PartialEq, Eq, Structural)]
pub enum ErrorKind {
    /// The child could not be launched.
    Spawn,
    /// The child sent something that is no valid message.
    Protocol,
    /// The child did not answer in time.
    Timeout,
    /// The child's pipes are closed.
    IoClosed,
    /// The child answered a call with an error of its own.
    Tool,
    /// A restart was asked for before any start.
    ConfigMissing,
    /// A call came while no child was running.
    NotInitialized,
    /// The parameters of a built-in tool were not understood.
    InvalidParams,
    /// A start or restart is already under way.
    Busy,
}

/// The JSON-RPC code for parameters that were not understood.
pub const INVALID_PARAMS_CODE: i32 = -32602;

/// The JSON-RPC code for every other failure.
pub const INTERNAL_ERROR_CODE: i32 = -32603;

impl ErrorKind {
    /// The JSON-RPC code under which a failure of this kind is reported.
    pub open spec fn spec_code(self) -> i32 {
        if self == ErrorKind::InvalidParams {
            INVALID_PARAMS_CODE
        } else {
            INTERNAL_ERROR_CODE
        }
    }

    /// The JSON-RPC code under which a failure of this kind is reported:
    /// invalid parameters under their own code, all others as internal errors.
    pub fn code(&self) -> (r: i32)
        ensures
            r == self.spec_code(),
    {
        match self {
            ErrorKind::InvalidParams => INVALID_PARAMS_CODE,
            _ => INTERNAL_ERROR_CODE,
        }
    }
}

/// A failure as a client is told of it. `data` is JSON text.
#[derive(Debug, Clone)]
pub struct ToolError {
    pub kind: ErrorKind,
    pub message: String,
    pub data: Option<String>,
}

/// What a successful call hands back.
#[derive(Debug, Clone)]
pub enum ToolReply {
    /// The child's result reads as a tool result: it is passed on as it is, as JSON text.
    Structured { result: String },
    /// Anything else is passed on as one piece of text.
    Text { text: String },
}

/// A failure, with its strings as sequences of characters.
pub struct ToolErrorView {
    pub kind: ErrorKind,
    pub message: Seq<char>,
    pub data: Option<Seq<char>>,
}

/// A reply, with its strings as sequences of characters.
pub enum ToolReplyView {
    Structured { result: Seq<char> },
    Text { text: Seq<char> },
}

impl View for ToolError {
    type V = ToolErrorView;

    open spec fn view(&self) -> ToolErrorView {
        ToolErrorView { kind: self.kind, message: self.message@, data: opt_view(self.data) }
    }
}

impl View for ToolReply {
    type V = ToolReplyView;

    open spec fn view(&self) -> ToolReplyView {
        match self {
            ToolReply::Structured { result } => ToolReplyView::Structured { result: result@ },
            ToolReply::Text { text } => ToolReplyView::Text { text: text@ },
        }
    }
}

/// The view of what a call ended with.
pub open spec fn reply_view(r: Result<ToolReply, ToolError>) -> Result<ToolReplyView, ToolErrorView> {
    match r {
        Ok(reply) => Ok(reply@),
        Err(e) => Err(e@),
    }
}

/// What was read out of a response of the child.
#[derive(Debug, Clone)]
pub struct ResponseParts {
    /// The member `result`, as JSON text.
    pub result: Option<String>,
    /// Whether that member reads as a tool result.
    pub result_is_tool_result: bool,
    /// The member `error`, as JSON text.
    pub error: Option<String>,
    /// The content of the error's member `message`, if it is a string.
    pub error_message: Option<String>,
    /// The error's member `data`, as JSON text.
    pub error_data: Option<String>,
}

/// What was read out of a response, with its strings as sequences of characters.
pub struct ResponsePartsView {
    pub result: Option<Seq<char>>,
    pub result_is_tool_result: bool,
    pub error: Option<Seq<char>>,
    pub error_message: Option<Seq<char>>,
    pub error_data: Option<Seq<char>>,
}

impl View for ResponseParts {
    type V = ResponsePartsView;

    open spec fn view(&self) -> ResponsePartsView {
        ResponsePartsView {
            result: opt_view(self.result),
            result_is_tool_result: self.result_is_tool_result,
            error: opt_view(self.error),
            error_message: opt_view(self.error_message),
            error_data: opt_view(self.error_data),
        }
    }
}

/// The parts of the response written in `response`.
pub open spec fn spec_response_parts(response: Seq<char>) -> ResponsePartsView {
    let result = json_member_text(response, "result"@);
    let error = json_member_text(response, "error"@);
    ResponsePartsView {
        result,
        result_is_tool_result: match result {
            Some(r) => reads_as_tool_result(r),
            None => false,
        },
        error,
        error_message: match error {
            Some(e) => match json_member_text(e, "message"@) {
                Some(m) => json_string_content(m),
                None => None,
            },
            None => None,
        },
        error_data: match error {
            Some(e) => json_member_text(e, "data"@),
            None => None,
        },
    }
}

/// What the caller of a tool gets for a response: a result is passed on,
/// as it is where it reads as a tool result and as text where it does not;
/// an error becomes a failure with the error's message and data; a response
/// with neither is passed on whole, as text.
pub open spec fn spec_classify(response: Seq<char>, parts: ResponsePartsView) -> Result<
    ToolReplyView,
    ToolErrorView,
> {
    match parts.result {
        Some(result) => if parts.result_is_tool_result {
            Ok(ToolReplyView::Structured { result })
        } else {
            Ok(ToolReplyView::Text { text: result })
        },
        None => match parts.error {
            Some(_) => Err(
                ToolErrorView {
                    kind: ErrorKind::Tool,
                    message: match parts.error_message {
                        Some(m) => m,
                        None => "Unknown error"@,
                    },
                    data: parts.error_data,
                },
            ),
            None => Ok(ToolReplyView::Text { text: response }),
        },
    }
}

/// The kind under which a failed exchange is reported.
pub open spec fn spec_failure_kind(e: TransportErrorView) -> ErrorKind {
    match e {
        TransportErrorView::Timeout { .. } => ErrorKind::Timeout,
        TransportErrorView::Closed => ErrorKind::IoClosed,
        TransportErrorView::Protocol { .. } => ErrorKind::Protocol,
        TransportErrorView::Io { .. } => ErrorKind::IoClosed,
    }
}

/// What the caller of a tool gets for a failed exchange.
pub open spec fn spec_failure(e: TransportErrorView) -> ToolErrorView {
    ToolErrorView {
        kind: spec_failure_kind(e),
        message: "Failed to call tool: "@ + e.message(),
        data: None,
    }
}

/// What the caller of a tool gets, given the outcome of the exchange and
/// what was read out of the response.
pub open spec fn spec_reply(
    outcome: Result<Seq<char>, TransportErrorView>,
    parts: ResponsePartsView,
) -> Result<ToolReplyView, ToolErrorView> {
    match outcome {
        Ok(response) => spec_classify(response, parts),
        Err(e) => Err(spec_failure(e)),
    }
}

/// The one entry that ends a call in the log: the response where the call
/// succeeded, the error where it failed.
pub open spec fn spec_terminal_entry(
    request_id: RequestId,
    name: Seq<char>,
    outcome: Result<Seq<char>, TransportErrorView>,
    parts: ResponsePartsView,
) -> ContentView {
    match spec_reply(outcome, parts) {
        Ok(_) => ContentView::Response {
            tool_name: name,
            request_id: request_id.0,
            response: outcome->Ok_0,
        },
        Err(e) => ContentView::Error {
            tool_name: name,
            request_id: request_id.0,
            error: e.message,
        },
    }
}

/// The parts that belong to an outcome: those of the response, if there is one.
pub open spec fn spec_outcome_parts(outcome: Result<Seq<char>, TransportErrorView>) -> ResponsePartsView {
    match outcome {
        Ok(response) => spec_response_parts(response),
        Err(_) => spec_response_parts(Seq::empty()),
    }
}

/// The log after a call that could not be made was recorded: the request,
/// and the error that refers to it.
pub open spec fn spec_refused_call(
    v: LogStorageView,
    requested_at: Timestamp,
    refused_at: Timestamp,
    name: Seq<char>,
    arguments: Seq<char>,
    message: Seq<char>,
) -> LogStorageView {
    spec_record(
        spec_record(
            v,
            requested_at,
            ContentView::Request { tool_name: name, content: arguments },
        ),
        refused_at,
        ContentView::Error { tool_name: name, request_id: v.next_id, error: message },
    )
}

/// What a discovery finds in a response: the tool list under
/// `result.tools`, parsed; `None` where the response has no such member.
pub open spec fn spec_discovery(response: Seq<char>) -> Option<
    Result<Seq<ToolDescriptorView>, Seq<char>>,
> {
    match json_member_text(response, "result"@) {
        Some(result) => match json_member_text(result, "tools"@) {
            Some(tools) => Some(tool_list_parse(tools)),
            None => None,
        },
        None => None,
    }
}

/// The tools that the registry holds after a discovery found `found`:
/// exactly the tools found where a list was found and parsed, the same as
/// before otherwise.
pub open spec fn spec_tools_after(
    before: Seq<ToolDescriptorView>,
    found: Option<Result<Seq<ToolDescriptorView>, Seq<char>>>,
) -> Seq<ToolDescriptorView> {
    match found {
        Some(Ok(tools)) => tools,
        _ => before,
    }
}

/// The tool list of a response could not be read.
#[derive(Debug, Clone)]
pub struct DiscoveryError {
    /// The parser's message.
    pub message: String,
}

/// The tool registry, with the log that calls are recorded in.
#[derive(Debug)]
pub struct ToolManager {
    /// The tools that the child announced at the last discovery.
    pub wrappee_tools: Vec<ToolDescriptor>,
    /// The log store.
    pub log_storage: LogStorage,
}

/// Reads the parts of a response that decide what a caller gets.
pub fn read_response_parts(response: &str) -> (parts: ResponseParts)
    ensures
        parts@ == spec_response_parts(response@),
{
    let result = member(response, "result");
    let result_is_tool_result = match &result {
        Some(r) => is_tool_result(r.as_str()),
        None => false,
    };
    let error = member(response, "error");
    let error_message = match &error {
        Some(e) => match member(e.as_str(), "message") {
            Some(m) => string_content(m.as_str()),
            None => None,
        },
        None => None,
    };
    let error_data = match &error {
        Some(e) => member(e.as_str(), "data"),
        None => None,
    };
    ResponseParts { result, result_is_tool_result, error, error_message, error_data }
}

/// Decides what the caller of a tool gets for a response, from the parts
/// that were read out of it.
pub fn classify_response(response: String, parts: ResponseParts) -> (r: Result<ToolReply, ToolError>)
    ensures
        reply_view(r) == spec_classify(response@, parts@),
{
    match parts.result {
        Some(result) => {
            if parts.result_is_tool_result {
                Ok(ToolReply::Structured { result })
            } else {
                Ok(ToolReply::Text { text: result })
            }
        },
        None => match parts.error {
            Some(_) => {
                let message = match parts.error_message {
                    Some(m) => m,
                    None => "Unknown error".to_owned(),
                };
                Err(ToolError { kind: ErrorKind::Tool, message, data: parts.error_data })
            },
            None => Ok(ToolReply::Text { text: response }),
        },
    }
}

/// The failure that the caller of a tool gets for a failed exchange.
pub fn failure_of(e: &TransportError) -> (r: ToolError)
    ensures
        r@ == spec_failure(e@),
{
    let kind = match e {
        TransportError::Timeout { .. } => ErrorKind::Timeout,
        TransportError::Closed => ErrorKind::IoClosed,
        TransportError::Protocol { .. } => ErrorKind::Protocol,
        TransportError::Io { .. } => ErrorKind::IoClosed,
    };
    let mut message = "Failed to call tool: ".to_owned();
    message.append(e.message().as_str());
    ToolError { kind, message, data: None }
}

impl ToolManager {
    /// The tools that the child announced, as sequences of characters.
    pub open spec fn spec_wrappee_tools(&self) -> Seq<ToolDescriptorView> {
        tools_view(self.wrappee_tools@)
    }

    /// Everything that a client is shown: the child's tools, then the built-in ones.
    pub open spec fn spec_all_tools(&self) -> Seq<ToolDescriptorView> {
        self.spec_wrappee_tools() + spec_builtin_tools()
    }

    /// A registry without tools of the child, on top of the given log store.
    pub fn new(log_storage: LogStorage) -> (m: Self)
        ensures
            m.spec_wrappee_tools() == Seq::<ToolDescriptorView>::empty(),
            m.log_storage == log_storage,
    {
        let m = ToolManager { wrappee_tools: Vec::new(), log_storage };
        assert(m.spec_wrappee_tools() =~= Seq::<ToolDescriptorView>::empty());
        m
    }

    /// Puts `tools` in the place of the tools held so far.
    pub fn replace_tools(&mut self, tools: Vec<ToolDescriptor>)
        ensures
            final(self).spec_wrappee_tools() == tools_view(tools@),
            final(self).log_storage == old(self).log_storage,
    {
        self.wrappee_tools = tools;
    }

    /// Takes in the child's answer to a request for its tools.
    ///
    /// Where the answer holds a tool list under `result.tools`, the list
    /// replaces the tools held so far, as a whole; if it cannot be read, the
    /// tools stay as they are and the parser's message comes back. An answer
    /// without such a list changes nothing.
    pub fn discover_tools(&mut self, response: &str) -> (r: Result<(), DiscoveryError>)
        ensures
            final(self).log_storage == old(self).log_storage,
            final(self).spec_wrappee_tools() == spec_tools_after(
                old(self).spec_wrappee_tools(),
                spec_discovery(response@),
            ),
            match r {
                Ok(_) => !(spec_discovery(response@) matches Some(Err(_))),
                Err(e) => spec_discovery(response@) == Some(
                    Err::<Seq<ToolDescriptorView>, Seq<char>>(e.message@),
                ),
            },
    {
        let result = match member(response, "result") {
            Some(result) => result,
            None => {
                return Ok(());
            },
        };
        let tools_text = match member(result.as_str(), "tools") {
            Some(tools_text) => tools_text,
            None => {
                return Ok(());
            },
        };
        match parse_tool_list(tools_text.as_str()) {
            Ok(tools) => {
                self.replace_tools(tools);
                Ok(())
            },
            Err(message) => Err(DiscoveryError { message }),
        }
    }

    /// Forgets the child's tools.
    pub fn clear_tools(&mut self)
        ensures
            final(self).spec_wrappee_tools() == Seq::<ToolDescriptorView>::empty(),
            final(self).log_storage == old(self).log_storage,
    {
        self.wrappee_tools.clear();
        assert(self.spec_wrappee_tools() =~= Seq::<ToolDescriptorView>::empty());
    }

    /// Everything that a client is shown: the child's tools in the order in
    /// which it announced them, then `show_log`, `clear_log` and
    /// `restart_wrapped_server`.
    pub fn get_all_tools(&self) -> (r: Vec<ToolDescriptor>)
        ensures
            tools_view(r@) == self.spec_all_tools(),
    {
        let mut all: Vec<ToolDescriptor> = Vec::new();
        let mut i: usize = 0;
        while i < self.wrappee_tools.len()
            invariant
                0 <= i <= self.wrappee_tools.len(),
                all.len() == i,
                forall|j: int| 0 <= j < i ==> all[j]@ == self.wrappee_tools[j]@,
            decreases self.wrappee_tools.len() - i,
        {
            all.push(self.wrappee_tools[i].duplicate());
            i += 1;
        }
        all.push(create_show_log_tool());
        all.push(create_clear_log_tool());
        all.push(create_restart_wrapped_server_tool());
        assert(tools_view(all@) =~= self.spec_all_tools());
        all
    }

    /// Begins a call: records the request and gives the number under which
    /// its outcome is to be recorded. `arguments` is JSON text.
    pub fn begin_tool_call(&mut self, name: &str, arguments: JsonText) -> (id: RequestId)
        requires
            old(self).log_storage@.next_id < usize::MAX,
        ensures
            final(self).spec_wrappee_tools() == old(self).spec_wrappee_tools(),
            id.0 == old(self).log_storage@.next_id,
            exists|t: Timestamp|
                final(self).log_storage@ == spec_record(
                    old(self).log_storage@,
                    t,
                    ContentView::Request { tool_name: name@, content: arguments@ },
                ),
    {
        self.log_storage.add_request(name.to_owned(), arguments)
    }

    /// Records a call that cannot be made: the request, and the error that
    /// refers to it, with the failure's message. No call ends unrecorded.
    pub fn refuse_tool_call(&mut self, name: &str, arguments: JsonText, error: ToolError) -> (r:
        ToolError)
        requires
            old(self).log_storage@.next_id + 1 < usize::MAX,
        ensures
            r == error,
            final(self).spec_wrappee_tools() == old(self).spec_wrappee_tools(),
            exists|requested_at: Timestamp, refused_at: Timestamp|
                final(self).log_storage@ == spec_refused_call(
                    old(self).log_storage@,
                    requested_at,
                    refused_at,
                    name@,
                    arguments@,
                    error.message@,
                ),
    {
        let ghost before = self.log_storage@;
        let id = self.log_storage.add_request(name.to_owned(), arguments);
        let ghost between = self.log_storage@;
        self.log_storage.add_error(id, name.to_owned(), error.message.clone());
        proof {
            let request = ContentView::Request { tool_name: name@, content: arguments@ };
            let failure = ContentView::Error {
                tool_name: name@,
                request_id: id.0,
                error: error.message@,
            };
            let requested_at = choose|t: Timestamp| between == spec_record(before, t, request);
            let refused_at = choose|t: Timestamp|
                self.log_storage@ == spec_record(between, t, failure);
            assert(self.log_storage@ == spec_refused_call(
                before,
                requested_at,
                refused_at,
                name@,
                arguments@,
                error.message@,
            ));
        }
        error
    }

    /// Ends a call: decides what the caller gets and records the one entry
    /// that ends the call in the log.
    ///
    /// `outcome` is what the exchange with the child gave: its response, as
    /// JSON text, or the failure. A response with a result succeeds and is
    /// recorded as a response; so is one that has neither result nor error.
    /// A response with an error fails with the error's message and data and
    /// is recorded as an error. A failed exchange fails with the failure's
    /// message and is recorded as an error.
    pub fn proxy_tool_call(
        &mut self,
        request_id: RequestId,
        name: &str,
        outcome: Result<JsonText, TransportError>,
    ) -> (r: Result<ToolReply, ToolError>)
        requires
            old(self).log_storage@.next_id < usize::MAX,
        ensures
            final(self).spec_wrappee_tools() == old(self).spec_wrappee_tools(),
            reply_view(r) == spec_reply(
                outcome_view(outcome),
                spec_outcome_parts(outcome_view(outcome)),
            ),
            exists|t: Timestamp|
                final(self).log_storage@ == spec_record(
                    old(self).log_storage@,
                    t,
                    spec_terminal_entry(
                        request_id,
                        name@,
                        outcome_view(outcome),
                        spec_outcome_parts(outcome_view(outcome)),
                    ),
                ),
    {
        match outcome {
            Ok(response) => {
                let parts = read_response_parts(response.as_str());
                let reply = classify_response(response.as_str().to_owned(), parts);
                match &reply {
                    Ok(_) => {
                        self.log_storage.add_response(request_id, name.to_owned(), response);
                    },
                    Err(e) => {
                        self.log_storage.add_error(request_id, name.to_owned(), e.message.clone());
                    },
                }
                reply
            },
            Err(e) => {
                let failure = failure_of(&e);
                self.log_storage.add_error(request_id, name.to_owned(), failure.message.clone());
                Err(failure)
            },
        }
    }
}

/// Discovery replaces: after a discovery that found the tools `a` and one
/// that found the tools `b`, whatever was held before, a client is shown `b`
/// and the three built-in tools, and nothing else.
pub proof fn lemma_discovery_replaces(
    before: Seq<ToolDescriptorView>,
    a: Seq<ToolDescriptorView>,
    b: Seq<ToolDescriptorView>,
)
    ensures
        spec_tools_after(
            spec_tools_after(before, Some(Ok::<Seq<ToolDescriptorView>, Seq<char>>(a))),
            Some(Ok::<Seq<ToolDescriptorView>, Seq<char>>(b)),
        ) + spec_builtin_tools() == b + spec_builtin_tools(),
        (b + spec_builtin_tools()).len() == b.len() + 3,
{
}

/// No call ends silently: whatever the outcome of the exchange, the entry
/// that ends the call is a response or an error that names the request, and
/// it is an error exactly when the caller gets a failure.
pub proof fn lemma_terminal_entry(
    request_id: RequestId,
    name: Seq<char>,
    outcome: Result<Seq<char>, TransportErrorView>,
    parts: ResponsePartsView,
)
    ensures
        match spec_terminal_entry(request_id, name, outcome, parts) {
            ContentView::Response { tool_name, request_id: id, .. } => tool_name == name && id
                == request_id.0 && spec_reply(outcome, parts) is Ok,
            ContentView::Error { tool_name, request_id: id, error } => tool_name == name && id
                == request_id.0 && spec_reply(outcome, parts) is Err && error == spec_reply(
                outcome,
                parts,
            )->Err_0.message,
            _ => false,
        },
{
}

} // verus!
