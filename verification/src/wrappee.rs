//! The line protocol spoken with the child: one JSON-RPC message per line.
//!
//! Spawning the child and moving lines through its pipes is the caller's
//! part. What is sent and how what comes back is read is decided here.

use crate::json::{json_compact_text, json_quoted, quoted, JsonText};
use crate::text::{decimal_text, decimal_u64, opt_view, pairs_view};
use vstd::prelude::*;

verus! {

/// Name under which the proxy introduces itself to the child.
pub const CLIENT_NAME: &'static str = "wrap-mcp";

/// The notification that follows a successful `initialize` exchange.
pub const INITIALIZED_NOTIFICATION: &'static str =
    "{\"jsonrpc\":\"2.0\",\"method\":\"notifications/initialized\"}";

/// The request that asks the child for its tools.
pub const LIST_TOOLS_REQUEST: &'static str =
    "{\"id\":2,\"jsonrpc\":\"2.0\",\"method\":\"tools/list\",\"params\":{}}";

/// Why an exchange with the child failed.
#[derive(Debug, Clone)]
pub enum TransportError {
    /// No response came within the time allowed.
    Timeout { seconds: u64 },
    /// The child's output ended before a response came.
    Closed,
    /// A line from the child was not one JSON message.
    Protocol { message: String },
    /// Writing to the child failed.
    Io { message: String },
}

/// What waiting for the child's next line ended with.
#[derive(Debug, Clone)]
pub enum Received {
    Line(String),
    Closed,
    TimedOut,
}

/// A failure, with its strings as sequences of characters.
pub enum TransportErrorView {
    Timeout { seconds: u64 },
    Closed,
    Protocol { message: Seq<char> },
    Io { message: Seq<char> },
}

impl View for TransportError {
    type V = TransportErrorView;

    open spec fn view(&self) -> TransportErrorView {
        match self {
            TransportError::Timeout { seconds } => TransportErrorView::Timeout { seconds: *seconds },
            TransportError::Closed => TransportErrorView::Closed,
            TransportError::Protocol { message } => TransportErrorView::Protocol {
                message: message@,
            },
            TransportError::Io { message } => TransportErrorView::Io { message: message@ },
        }
    }
}

impl TransportErrorView {
    /// The failure in words.
    pub open spec fn message(self) -> Seq<char> {
        match self {
            TransportErrorView::Timeout { seconds } => "Tool call timed out after "@ + decimal_text(
                seconds as nat,
            ) + " seconds"@,
            TransportErrorView::Closed => "Wrappee stdout closed unexpectedly"@,
            TransportErrorView::Protocol { message } => message,
            TransportErrorView::Io { message } => message,
        }
    }
}

impl TransportError {
    /// The failure in words.
    pub fn message(&self) -> (r: String)
        ensures
            r@ == self@.message(),
    {
        match self {
            TransportError::Timeout { seconds } => {
                let mut r = "Tool call timed out after ".to_owned();
                r.append(decimal_u64(*seconds).as_str());
                r.append(" seconds");
                r
            },
            TransportError::Closed => "Wrappee stdout closed unexpectedly".to_owned(),
            TransportError::Protocol { message } => message.clone(),
            TransportError::Io { message } => message.clone(),
        }
    }
}

/// The environment variables that ask the child to switch its colours off.
pub open spec fn spec_color_environment(disable_colors: bool) -> Seq<(Seq<char>, Seq<char>)> {
    if disable_colors {
        seq![("NO_COLOR"@, "1"@), ("CLICOLOR"@, "0"@), ("RUST_LOG_STYLE"@, "never"@)]
    } else {
        Seq::empty()
    }
}

/// The environment variables to set for the child: three that switch
/// colours off if that is asked for, none otherwise.
pub fn color_environment(disable_colors: bool) -> (r: Vec<(String, String)>)
    ensures
        pairs_view(r@) == spec_color_environment(disable_colors),
{
    let mut r: Vec<(String, String)> = Vec::new();
    if disable_colors {
        r.push(("NO_COLOR".to_owned(), "1".to_owned()));
        r.push(("CLICOLOR".to_owned(), "0".to_owned()));
        r.push(("RUST_LOG_STYLE".to_owned(), "never".to_owned()));
    }
    assert(pairs_view(r@) =~= spec_color_environment(disable_colors));
    r
}

/// The `initialize` request.
pub open spec fn spec_initialize_request(
    protocol_version: Seq<char>,
    client_version: Seq<char>,
) -> Seq<char> {
    "{\"id\":1,\"jsonrpc\":\"2.0\",\"method\":\"initialize\",\"params\":{\"capabilities\":{},\"clientInfo\":{\"name\":"@
        + json_quoted(CLIENT_NAME@) + ",\"version\":"@ + json_quoted(client_version)
        + "},\"protocolVersion\":"@ + json_quoted(protocol_version) + "}}"@
}

/// The `tools/call` request for the tool `name`; `arguments` is JSON text.
pub open spec fn spec_call_tool_request(name: Seq<char>, arguments: Seq<char>) -> Seq<char> {
    "{\"id\":3,\"jsonrpc\":\"2.0\",\"method\":\"tools/call\",\"params\":{\"arguments\":"@
        + arguments + ",\"name\":"@ + json_quoted(name) + "}}"@
}

/// The line that opens the handshake: an `initialize` request with id 1 that
/// carries the protocol version, no capabilities, and the proxy's name and version.
pub fn initialize_request(protocol_version: &str, client_version: &str) -> (r: String)
    ensures
        r@ == spec_initialize_request(protocol_version@, client_version@),
{
    let mut r =
        "{\"id\":1,\"jsonrpc\":\"2.0\",\"method\":\"initialize\",\"params\":{\"capabilities\":{},\"clientInfo\":{\"name\":".to_owned();
    r.append(quoted(CLIENT_NAME).as_str());
    r.append(",\"version\":");
    r.append(quoted(client_version).as_str());
    r.append("},\"protocolVersion\":");
    r.append(quoted(protocol_version).as_str());
    r.append("}}");
    r
}

/// The line that ends the handshake: a notification, to which no response is awaited.
pub fn initialized_notification() -> (r: String)
    ensures
        r@ == INITIALIZED_NOTIFICATION@,
{
    INITIALIZED_NOTIFICATION.to_owned()
}

/// The line that asks for the child's tools: a `tools/list` request with id 2.
pub fn list_tools_request() -> (r: String)
    ensures
        r@ == LIST_TOOLS_REQUEST@,
{
    LIST_TOOLS_REQUEST.to_owned()
}

/// The line that calls a tool: a `tools/call` request with id 3 that carries
/// the tool's name and its arguments, which are JSON text.
pub fn call_tool_request(name: &str, arguments: &str) -> (r: String)
    ensures
        r@ == spec_call_tool_request(name@, arguments@),
{
    let mut r =
        "{\"id\":3,\"jsonrpc\":\"2.0\",\"method\":\"tools/call\",\"params\":{\"arguments\":".to_owned();
    r.append(arguments);
    r.append(",\"name\":");
    r.append(quoted(name).as_str());
    r.append("}}");
    r
}

/// What a wait for the child's next line amounts to, given how the line
/// parsed if there was one: the message as compact JSON, or the failure.
pub open spec fn spec_interpret(
    received: Received,
    parsed: Result<Seq<char>, Seq<char>>,
    timeout_secs: u64,
) -> Result<Seq<char>, TransportErrorView> {
    match received {
        Received::Line(_) => match parsed {
            Ok(t) => Ok(t),
            Err(m) => Err(TransportErrorView::Protocol { message: m }),
        },
        Received::Closed => Err(TransportErrorView::Closed),
        Received::TimedOut => Err(TransportErrorView::Timeout { seconds: timeout_secs }),
    }
}

/// The view of a response or failure.
pub open spec fn outcome_view(r: Result<JsonText, TransportError>) -> Result<
    Seq<char>,
    TransportErrorView,
> {
    match r {
        Ok(t) => Ok(t@),
        Err(e) => Err(e@),
    }
}

/// The line that a wait ended with, if it ended with one.
pub open spec fn spec_line(received: Received) -> Seq<char> {
    match received {
        Received::Line(l) => l@,
        _ => Seq::empty(),
    }
}

/// Reads what a wait for the child's next line ended with. A line must be
/// one complete JSON message, else the exchange fails as a protocol error;
/// a closed channel and an expired wait fail as such.
pub fn interpret_received(received: Received, timeout_secs: u64) -> (r: Result<
    JsonText,
    TransportError,
>)
    ensures
        outcome_view(r) == spec_interpret(
            received,
            json_compact_text(spec_line(received)),
            timeout_secs,
        ),
{
    match received {
        Received::Line(line) => match JsonText::parse(line.as_str()) {
            Ok(t) => Ok(t),
            Err(message) => Err(TransportError::Protocol { message }),
        },
        Received::Closed => Err(TransportError::Closed),
        Received::TimedOut => Err(TransportError::Timeout { seconds: timeout_secs }),
    }
}

/// The requests that await a response.
#[derive(Debug, Clone, Copy, PartialEq, Eq, Structural)]
pub enum Exchange {
    Initialize,
    ListTools,
    CallTool,
}

/// What a session with the child is waiting for.
#[derive(Debug, Clone, Copy, PartialEq, Eq, Structural)]
pub enum Awaiting {
    Nothing,
    ResponseTo(Exchange),
}

/// Why a request may not be sent now.
#[derive(Debug, Clone, Copy, PartialEq, Eq, Structural)]
pub enum SessionError {
    /// The handshake has not been made.
    NotInitialized,
    /// The handshake has been made already.
    AlreadyInitialized,
    /// Another request awaits its response.
    Busy,
}

/// The session with one child: whether the handshake is made, and which
/// request is outstanding. Responses carry no usable number, so at most one
/// request is outstanding at any time.
#[derive(Debug, Clone, Copy, PartialEq, Eq, Structural)]
pub struct WrappeeClient {
    pub pid: u32,
    pub timeout_secs: u64,
    pub initialized: bool,
    pub awaiting: Awaiting,
}

/// Session and answer after a request of the given kind was asked for.
pub open spec fn spec_request(s: WrappeeClient, exchange: Exchange) -> (
    WrappeeClient,
    Result<(), SessionError>,
) {
    if s.awaiting != Awaiting::Nothing {
        (s, Err(SessionError::Busy))
    } else if exchange == Exchange::Initialize && s.initialized {
        (s, Err(SessionError::AlreadyInitialized))
    } else if exchange != Exchange::Initialize && !s.initialized {
        (s, Err(SessionError::NotInitialized))
    } else {
        (WrappeeClient { awaiting: Awaiting::ResponseTo(exchange), ..s }, Ok(()))
    }
}

/// Session after a wait for the outstanding response has ended, well or
/// not: nothing is outstanding any more, and a handshake that was answered
/// is made.
pub open spec fn spec_after_wait(s: WrappeeClient, answered: bool) -> WrappeeClient {
    WrappeeClient {
        awaiting: Awaiting::Nothing,
        initialized: s.initialized || (answered && s.awaiting == Awaiting::ResponseTo(
            Exchange::Initialize,
        )),
        ..s
    }
}

/// The line to send after a wait, without awaiting a response to it: the
/// notification that ends the handshake, after the handshake was answered.
pub open spec fn spec_follow_up(s: WrappeeClient, answered: bool) -> Option<Seq<char>> {
    if answered && s.awaiting == Awaiting::ResponseTo(Exchange::Initialize) {
        Some(INITIALIZED_NOTIFICATION@)
    } else {
        None
    }
}

impl WrappeeClient {
    /// The session with a child that was just launched: no handshake yet,
    /// nothing outstanding.
    pub fn new(pid: u32, timeout_secs: u64) -> (s: Self)
        ensures
            s == (WrappeeClient {
                pid,
                timeout_secs,
                initialized: false,
                awaiting: Awaiting::Nothing,
            }),
    {
        WrappeeClient { pid, timeout_secs, initialized: false, awaiting: Awaiting::Nothing }
    }

    /// The child's process id.
    pub fn get_pid(&self) -> (r: Option<u32>)
        ensures
            r == Some(self.pid),
    {
        Some(self.pid)
    }

    fn open_exchange(&mut self, exchange: Exchange) -> (r: Result<(), SessionError>)
        ensures
            (*final(self), r) == spec_request(*old(self), exchange),
    {
        match self.awaiting {
            Awaiting::ResponseTo(_) => {
                return Err(SessionError::Busy);
            },
            Awaiting::Nothing => {},
        }
        let opening = match exchange {
            Exchange::Initialize => true,
            _ => false,
        };
        if opening && self.initialized {
            Err(SessionError::AlreadyInitialized)
        } else if !opening && !self.initialized {
            Err(SessionError::NotInitialized)
        } else {
            self.awaiting = Awaiting::ResponseTo(exchange);
            Ok(())
        }
    }

    /// Opens the handshake: gives the `initialize` request to send. It is
    /// admitted once, before any other request.
    pub fn initialize(&mut self, protocol_version: &str, client_version: &str) -> (r: Result<
        String,
        SessionError,
    >)
        ensures
            *final(self) == spec_request(*old(self), Exchange::Initialize).0,
            match r {
                Ok(line) => spec_request(*old(self), Exchange::Initialize).1 is Ok && line@
                    == spec_initialize_request(protocol_version@, client_version@),
                Err(e) => spec_request(*old(self), Exchange::Initialize).1 == Err::<
                    (),
                    SessionError,
                >(e),
            },
    {
        match self.open_exchange(Exchange::Initialize) {
            Ok(_) => Ok(initialize_request(protocol_version, client_version)),
            Err(e) => Err(e),
        }
    }

    /// Gives the `tools/list` request to send. It is admitted after the
    /// handshake, while nothing is outstanding.
    pub fn list_tools(&mut self) -> (r: Result<String, SessionError>)
        ensures
            *final(self) == spec_request(*old(self), Exchange::ListTools).0,
            match r {
                Ok(line) => spec_request(*old(self), Exchange::ListTools).1 is Ok && line@
                    == LIST_TOOLS_REQUEST@,
                Err(e) => spec_request(*old(self), Exchange::ListTools).1 == Err::<
                    (),
                    SessionError,
                >(e),
            },
    {
        match self.open_exchange(Exchange::ListTools) {
            Ok(_) => Ok(list_tools_request()),
            Err(e) => Err(e),
        }
    }

    /// Gives the `tools/call` request to send for the tool `name`;
    /// `arguments` is JSON text. It is admitted after the handshake, while
    /// nothing is outstanding.
    pub fn call_tool(&mut self, name: &str, arguments: &str) -> (r: Result<String, SessionError>)
        ensures
            *final(self) == spec_request(*old(self), Exchange::CallTool).0,
            match r {
                Ok(line) => spec_request(*old(self), Exchange::CallTool).1 is Ok && line@
                    == spec_call_tool_request(name@, arguments@),
                Err(e) => spec_request(*old(self), Exchange::CallTool).1 == Err::<(), SessionError>(
                    e,
                ),
            },
    {
        match self.open_exchange(Exchange::CallTool) {
            Ok(_) => Ok(call_tool_request(name, arguments)),
            Err(e) => Err(e),
        }
    }

    /// Takes in how a wait for the child's next line ended.
    ///
    /// In every state of the session the line comes back as compact JSON,
    /// or the failure does: an expired wait, a closed channel, a line that
    /// is no JSON. Either way nothing is outstanding afterwards; the child is
    /// not touched by a failure. Where the handshake was outstanding and was
    /// answered, the second part of the result is the notification to send
    /// next.
    pub fn wait_for_response(&mut self, received: Received) -> (r: (
        Result<JsonText, TransportError>,
        Option<String>,
    ))
        ensures
            outcome_view(r.0) == spec_interpret(
                received,
                json_compact_text(spec_line(received)),
                old(self).timeout_secs,
            ),
            *final(self) == spec_after_wait(*old(self), r.0 is Ok),
            opt_view(r.1) == spec_follow_up(*old(self), r.0 is Ok),
    {
        let was = self.awaiting;
        self.awaiting = Awaiting::Nothing;
        let outcome = interpret_received(received, self.timeout_secs);
        let opening = match was {
            Awaiting::ResponseTo(Exchange::Initialize) => true,
            _ => false,
        };
        if opening && outcome.is_ok() {
            self.initialized = true;
            (outcome, Some(initialized_notification()))
        } else {
            (outcome, None)
        }
    }
}

/// One request at a time: while a request is outstanding, every further
/// request is refused and changes nothing.
pub proof fn lemma_one_request_at_a_time(s: WrappeeClient, first: Exchange, second: Exchange)
    requires
        spec_request(s, first).1 is Ok,
    ensures
        spec_request(spec_request(s, first).0, second) == (
            spec_request(s, first).0,
            Err::<(), SessionError>(SessionError::Busy),
        ),
{
}

/// The handshake comes first and is made once: before it, nothing but the
/// handshake is admitted; after it was answered, it is not admitted again
/// and the other requests are.
pub proof fn lemma_handshake_first(s: WrappeeClient, exchange: Exchange)
    requires
        s.awaiting == Awaiting::Nothing,
    ensures
        !s.initialized ==> (spec_request(s, exchange).1 is Ok <==> exchange == Exchange::Initialize),
        s.initialized ==> (spec_request(s, exchange).1 is Ok <==> exchange != Exchange::Initialize),
        spec_after_wait(spec_request(s, Exchange::Initialize).0, true).initialized,
{
}

} // verus!
