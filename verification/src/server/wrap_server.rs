//! The server's core: the tool registry with its log, the supervisor, and
//! what ties them to the requests of a client.

use crate::cli::CliOptions;
use crate::clock::Timestamp;
use crate::config::{LogConfig, WrappeeConfig};
use crate::json::JsonText;
use crate::logging::entry::ContentView;
use crate::logging::storage::{spec_record, spec_stored_message, LogStorage, LogStorageView};
use crate::server::wrappee_state::{
    spec_initialize, spec_not_initialized, spec_restart, spec_shutdown, LifecycleAction,
    SpawnConfigView, SupervisorError, SupervisorState, WrappeeState,
};
use crate::text::{str_eq, strings_view};
use crate::tools::descriptor::{
    ToolDescriptorView, CLEAR_LOG, RESTART_WRAPPED_SERVER, SHOW_LOG,
};
use crate::tools::manager::{
    reply_view, spec_outcome_parts, spec_refused_call, spec_reply, spec_terminal_entry, ErrorKind,
    ToolError, ToolErrorView, ToolManager, ToolReply,
};
use crate::wrappee::{outcome_view, TransportError};
use crate::types::RequestId;
use vstd::prelude::*;

verus! {

/// Time, in milliseconds, between two looks for a diagnostic line when none was there.
pub const STDERR_POLL_MILLIS: u64 = 100;

/// What `restart_wrapped_server` answers after a restart that succeeded.
pub const RESTARTED_MESSAGE: &'static str = "\u{2705} Wrapped server restarted successfully";

/// The tools that the proxy answers itself.
#[derive(Debug, Clone, Copy, PartialEq, Eq, Structural)]
pub enum BuiltinTool {
    ShowLog,
    ClearLog,
    RestartWrappedServer,
}

/// Where a call goes.
#[derive(Debug, Clone, Copy, PartialEq, Eq, Structural)]
pub enum Route {
    /// To a tool of the proxy itself.
    Builtin(BuiltinTool),
    /// To the child.
    Forward,
}

/// What is to be done with a call.
#[derive(Debug, Clone)]
pub enum Dispatch {
    /// The call is for a built-in tool: read its parameters and run it.
    Builtin(BuiltinTool),
    /// The call is for the child and was recorded under this number: send
    /// it, and hand in the outcome.
    Forward(RequestId),
    /// The call cannot be made.
    Refused(ToolError),
}

/// What a look for a diagnostic line of the child found.
#[derive(Debug, Clone)]
pub enum StderrPoll {
    /// A line.
    Line(String),
    /// Nothing, or no child to look at.
    Empty,
    /// The look failed.
    Failed,
}

/// What the reader of diagnostics does next.
#[derive(Debug, Clone, Copy, PartialEq, Eq, Structural)]
pub enum MonitorAction {
    /// Look again at once.
    Continue,
    /// Look again after this time, unless told to stop meanwhile.
    Wait { millis: u64 },
    /// Stop reading.
    Stop,
}

/// Where a call for the tool `name` goes: the three reserved names to the
/// built-in tools, every other name to the child.
pub open spec fn spec_route(name: Seq<char>) -> Route {
    if name == SHOW_LOG@ {
        Route::Builtin(BuiltinTool::ShowLog)
    } else if name == CLEAR_LOG@ {
        Route::Builtin(BuiltinTool::ClearLog)
    } else if name == RESTART_WRAPPED_SERVER@ {
        Route::Builtin(BuiltinTool::RestartWrappedServer)
    } else {
        Route::Forward
    }
}

/// Where a call for the tool `name` goes.
pub fn route(name: &str) -> (r: Route)
    ensures
        r == spec_route(name@),
{
    if str_eq(name, SHOW_LOG) {
        Route::Builtin(BuiltinTool::ShowLog)
    } else if str_eq(name, CLEAR_LOG) {
        Route::Builtin(BuiltinTool::ClearLog)
    } else if str_eq(name, RESTART_WRAPPED_SERVER) {
        Route::Builtin(BuiltinTool::RestartWrappedServer)
    } else {
        Route::Forward
    }
}

/// The failure for parameters of a built-in tool that could not be read.
pub open spec fn spec_invalid_params(reason: Seq<char>) -> ToolErrorView {
    ToolErrorView {
        kind: ErrorKind::InvalidParams,
        message: "Invalid parameters: "@ + reason,
        data: None,
    }
}

/// The failure for parameters of a built-in tool that could not be read;
/// `reason` is the reader's message.
pub fn invalid_params(reason: &str) -> (e: ToolError)
    ensures
        e@ == spec_invalid_params(reason@),
{
    let mut message = "Invalid parameters: ".to_owned();
    message.append(reason);
    ToolError { kind: ErrorKind::InvalidParams, message, data: None }
}

/// The failure with which a request to the supervisor is refused.
pub open spec fn spec_refusal(e: SupervisorError) -> ToolErrorView {
    match e {
        SupervisorError::ConfigMissing => ToolErrorView {
            kind: ErrorKind::ConfigMissing,
            message: "No wrapped server to restart"@,
            data: None,
        },
        SupervisorError::Busy => ToolErrorView {
            kind: ErrorKind::Busy,
            message: "A start or restart is already under way"@,
            data: None,
        },
    }
}

/// The failure with which a request to the supervisor is refused.
pub fn refusal(e: SupervisorError) -> (r: ToolError)
    ensures
        r@ == spec_refusal(e),
{
    match e {
        SupervisorError::ConfigMissing => ToolError {
            kind: ErrorKind::ConfigMissing,
            message: "No wrapped server to restart".to_owned(),
            data: None,
        },
        SupervisorError::Busy => ToolError {
            kind: ErrorKind::Busy,
            message: "A start or restart is already under way".to_owned(),
            data: None,
        },
    }
}

/// What the caller of `restart_wrapped_server` is told once the restart has
/// come to the given action: success once the new child is served, the
/// failure once the start is reported as failed, nothing before that.
pub open spec fn spec_restart_reply(action: LifecycleAction, failure: Option<Seq<char>>) -> Option<
    Result<Seq<char>, ToolErrorView>,
> {
    match action {
        LifecycleAction::Serve { .. } => Some(Ok(RESTARTED_MESSAGE@)),
        LifecycleAction::Report { .. } => Some(
            Err(
                ToolErrorView {
                    kind: ErrorKind::Spawn,
                    message: "Failed to restart wrapped server: "@ + (match failure {
                        Some(m) => m,
                        None => Seq::empty(),
                    }),
                    data: None,
                },
            ),
        ),
        _ => None,
    }
}

/// The view of what a restart answers.
pub open spec fn restart_reply_view(r: Option<Result<String, ToolError>>) -> Option<
    Result<Seq<char>, ToolErrorView>,
> {
    match r {
        Some(Ok(m)) => Some(Ok(m@)),
        Some(Err(e)) => Some(Err(e@)),
        None => None,
    }
}

/// The server's core.
#[derive(Debug)]
pub struct WrapServer {
    /// The tool registry and the log.
    pub tool_manager: ToolManager,
    /// The supervisor of the child.
    pub wrappee_controller: WrappeeState,
    /// Whether the end was asked for.
    pub shutting_down: bool,
}

impl WrapServer {
    /// A server without a child and without tools of a child, with an empty
    /// log of the configured size.
    pub fn new(log_config: &LogConfig, wrappee_config: &WrappeeConfig) -> (s: Self)
        ensures
            s.tool_manager.spec_wrappee_tools() == Seq::<ToolDescriptorView>::empty(),
            s.tool_manager.log_storage@.entries.len() == 0,
            s.tool_manager.log_storage@.next_id == 1,
            s.tool_manager.log_storage@.max_entries == log_config.log_size,
            s.wrappee_controller@.state == SupervisorState::NoProcess,
            s.wrappee_controller@.spawn is None,
            !s.shutting_down,
    {
        WrapServer {
            tool_manager: ToolManager::new(LogStorage::new(log_config)),
            wrappee_controller: WrappeeState::new(wrappee_config),
            shutting_down: false,
        }
    }

    /// Begins the first start from the command line's options.
    ///
    /// Colour sequences are removed from diagnostic lines, and the child is
    /// asked to switch its colours off, unless the options keep them. The
    /// spawn configuration is stored, and the answer is the launch.
    pub fn initialize_wrappee(&mut self, options: &CliOptions) -> (r: Result<
        LifecycleAction,
        SupervisorError,
    >)
        ensures
            (final(self).wrappee_controller@, r) == spec_initialize(
                old(self).wrappee_controller@,
                SpawnConfigView {
                    command: options.command@,
                    args: strings_view(options.args@),
                    disable_colors: !options.preserve_ansi,
                },
                options.watch_binary,
            ),
            final(self).tool_manager.log_storage@ == (LogStorageView {
                ansi_removal: !options.preserve_ansi,
                ..old(self).tool_manager.log_storage@
            }),
            final(self).tool_manager.spec_wrappee_tools()
                == old(self).tool_manager.spec_wrappee_tools(),
            final(self).shutting_down == old(self).shutting_down,
    {
        let copy = options.duplicate();
        self.tool_manager.log_storage.set_ansi_removal(!copy.preserve_ansi);
        self.wrappee_controller.initialize(
            copy.command,
            copy.args,
            !copy.preserve_ansi,
            copy.watch_binary,
        )
    }

    /// Begins a restart; `arguments` are those of the call that asks for
    /// it. Without a stored spawn configuration, or while a start or restart
    /// is under way, the caller is told so, and the refused call is recorded
    /// with its error.
    pub fn restart_wrapped_server(&mut self, arguments: JsonText) -> (r: Result<
        LifecycleAction,
        ToolError,
    >)
        requires
            old(self).tool_manager.log_storage@.next_id + 1 < usize::MAX,
        ensures
            final(self).wrappee_controller@ == spec_restart(old(self).wrappee_controller@).0,
            final(self).tool_manager.spec_wrappee_tools()
                == old(self).tool_manager.spec_wrappee_tools(),
            final(self).shutting_down == old(self).shutting_down,
            match r {
                Ok(action) => {
                    &&& spec_restart(old(self).wrappee_controller@).1 == Ok::<
                        LifecycleAction,
                        SupervisorError,
                    >(action)
                    &&& final(self).tool_manager.log_storage == old(self).tool_manager.log_storage
                },
                Err(e) => {
                    &&& spec_restart(old(self).wrappee_controller@).1 is Err
                    &&& e@ == spec_refusal(spec_restart(old(self).wrappee_controller@).1->Err_0)
                    &&& exists|requested_at: Timestamp, refused_at: Timestamp|
                        final(self).tool_manager.log_storage@ == spec_refused_call(
                            old(self).tool_manager.log_storage@,
                            requested_at,
                            refused_at,
                            RESTART_WRAPPED_SERVER@,
                            arguments@,
                            e.message@,
                        )
                },
            },
    {
        match self.wrappee_controller.restart() {
            Ok(action) => Ok(action),
            Err(e) => Err(
                self.tool_manager.refuse_tool_call(
                    RESTART_WRAPPED_SERVER,
                    arguments,
                    refusal(e),
                ),
            ),
        }
    }

    /// What the caller of `restart_wrapped_server` is told once the restart
    /// has come to `action`: success once the new child is served, the
    /// failure once the start is reported as failed, nothing before that. A
    /// failure is recorded as a call, with the `arguments` it was made with,
    /// and its error.
    pub fn restart_reply(&mut self, action: LifecycleAction, arguments: JsonText) -> (r: Option<
        Result<String, ToolError>,
    >)
        requires
            old(self).tool_manager.log_storage@.next_id + 1 < usize::MAX,
        ensures
            restart_reply_view(r) == spec_restart_reply(
                action,
                old(self).wrappee_controller@.failure,
            ),
            final(self).wrappee_controller == old(self).wrappee_controller,
            final(self).shutting_down == old(self).shutting_down,
            final(self).tool_manager.spec_wrappee_tools()
                == old(self).tool_manager.spec_wrappee_tools(),
            match r {
                Some(Err(e)) => exists|requested_at: Timestamp, refused_at: Timestamp|
                    final(self).tool_manager.log_storage@ == spec_refused_call(
                        old(self).tool_manager.log_storage@,
                        requested_at,
                        refused_at,
                        RESTART_WRAPPED_SERVER@,
                        arguments@,
                        e.message@,
                    ),
                _ => final(self).tool_manager.log_storage == old(self).tool_manager.log_storage,
            },
    {
        match action {
            LifecycleAction::Serve { .. } => Some(Ok(RESTARTED_MESSAGE.to_owned())),
            LifecycleAction::Report { .. } => {
                let mut message = "Failed to restart wrapped server: ".to_owned();
                match self.wrappee_controller.last_failure() {
                    Some(m) => {
                        message.append(m.as_str());
                    },
                    None => {
                        assert(message@ + Seq::<char>::empty() =~= message@);
                    },
                }
                let error = ToolError { kind: ErrorKind::Spawn, message, data: None };
                Some(
                    Err(
                        self.tool_manager.refuse_tool_call(
                            RESTART_WRAPPED_SERVER,
                            arguments,
                            error,
                        ),
                    ),
                )
            },
            _ => None,
        }
    }

    /// Decides what is to be done with a call: the reserved names go to the
    /// built-in tools, whatever the child offers; every other name goes to
    /// the child and is recorded as a request. If no child is running the
    /// call is refused as `NotInitialized`, and that error is recorded too.
    pub fn call_tool_dynamic(&mut self, name: &str, arguments: JsonText) -> (r: Dispatch)
        requires
            old(self).tool_manager.log_storage@.next_id + 1 < usize::MAX,
        ensures
            final(self).wrappee_controller == old(self).wrappee_controller,
            final(self).shutting_down == old(self).shutting_down,
            final(self).tool_manager.spec_wrappee_tools()
                == old(self).tool_manager.spec_wrappee_tools(),
            match r {
                Dispatch::Builtin(tool) => {
                    &&& spec_route(name@) == Route::Builtin(tool)
                    &&& final(self).tool_manager.log_storage == old(self).tool_manager.log_storage
                },
                Dispatch::Forward(id) => {
                    &&& spec_route(name@) == Route::Forward
                    &&& old(self).wrappee_controller@.state is Running
                    &&& id.0 == old(self).tool_manager.log_storage@.next_id
                    &&& exists|t: Timestamp|
                        final(self).tool_manager.log_storage@ == spec_record(
                            old(self).tool_manager.log_storage@,
                            t,
                            ContentView::Request { tool_name: name@, content: arguments@ },
                        )
                },
                Dispatch::Refused(e) => {
                    &&& spec_route(name@) == Route::Forward
                    &&& !(old(self).wrappee_controller@.state is Running)
                    &&& e@ == spec_not_initialized()
                    &&& exists|requested_at: Timestamp, refused_at: Timestamp|
                        final(self).tool_manager.log_storage@ == spec_refused_call(
                            old(self).tool_manager.log_storage@,
                            requested_at,
                            refused_at,
                            name@,
                            arguments@,
                            spec_not_initialized().message,
                        )
                },
            },
    {
        match route(name) {
            Route::Builtin(tool) => Dispatch::Builtin(tool),
            Route::Forward => match self.wrappee_controller.proxy_tool_call(
                name,
                arguments,
                &mut self.tool_manager,
            ) {
                Ok(id) => Dispatch::Forward(id),
                Err(e) => Dispatch::Refused(e),
            },
        }
    }

    /// Ends a call that went to the child: decides what the caller gets and
    /// records the one entry that ends the call. Whatever the outcome, a
    /// timeout and a closed channel included, the supervisor is not touched:
    /// the child counts as running as before.
    pub fn complete_tool_call(
        &mut self,
        request_id: RequestId,
        name: &str,
        outcome: Result<JsonText, TransportError>,
    ) -> (r: Result<ToolReply, ToolError>)
        requires
            old(self).tool_manager.log_storage@.next_id < usize::MAX,
        ensures
            final(self).wrappee_controller == old(self).wrappee_controller,
            final(self).shutting_down == old(self).shutting_down,
            final(self).tool_manager.spec_wrappee_tools()
                == old(self).tool_manager.spec_wrappee_tools(),
            reply_view(r) == spec_reply(
                outcome_view(outcome),
                spec_outcome_parts(outcome_view(outcome)),
            ),
            exists|t: Timestamp|
                final(self).tool_manager.log_storage@ == spec_record(
                    old(self).tool_manager.log_storage@,
                    t,
                    spec_terminal_entry(
                        request_id,
                        name@,
                        outcome_view(outcome),
                        spec_outcome_parts(outcome_view(outcome)),
                    ),
                ),
    {
        self.tool_manager.proxy_tool_call(request_id, name, outcome)
    }

    /// Takes in what a look for a diagnostic line found: a line is recorded
    /// and the next look follows at once; after an empty look the reader
    /// waits; after a failed look, or once the end was asked for, it stops.
    pub fn take_stderr(&mut self, polled: StderrPoll) -> (action: MonitorAction)
        requires
            old(self).tool_manager.log_storage@.next_id < usize::MAX,
        ensures
            final(self).wrappee_controller == old(self).wrappee_controller,
            final(self).shutting_down == old(self).shutting_down,
            final(self).tool_manager.spec_wrappee_tools()
                == old(self).tool_manager.spec_wrappee_tools(),
            action == (if old(self).shutting_down {
                MonitorAction::Stop
            } else {
                match polled {
                    StderrPoll::Line(_) => MonitorAction::Continue,
                    StderrPoll::Empty => MonitorAction::Wait { millis: STDERR_POLL_MILLIS },
                    StderrPoll::Failed => MonitorAction::Stop,
                }
            }),
            match polled {
                StderrPoll::Line(message) if !old(self).shutting_down => exists|t: Timestamp|
                    final(self).tool_manager.log_storage@ == spec_record(
                        old(self).tool_manager.log_storage@,
                        t,
                        ContentView::Stderr {
                            message: spec_stored_message(
                                old(self).tool_manager.log_storage@,
                                message@,
                            ),
                        },
                    ),
                _ => final(self).tool_manager.log_storage == old(self).tool_manager.log_storage,
            },
    {
        if self.shutting_down {
            return MonitorAction::Stop;
        }
        match polled {
            StderrPoll::Line(message) => {
                self.tool_manager.log_storage.add_stderr(message);
                MonitorAction::Continue
            },
            StderrPoll::Empty => MonitorAction::Wait { millis: STDERR_POLL_MILLIS },
            StderrPoll::Failed => MonitorAction::Stop,
        }
    }

    /// Asks for the end: the reader of diagnostics stops, and a running
    /// child is to be killed.
    pub fn shutdown(&mut self) -> (action: LifecycleAction)
        ensures
            (final(self).wrappee_controller@, action) == spec_shutdown(
                old(self).wrappee_controller@,
            ),
            final(self).shutting_down,
            final(self).tool_manager == old(self).tool_manager,
    {
        self.shutting_down = true;
        self.wrappee_controller.shutdown()
    }
}

/// The built-in tools come first: a call by one of the three reserved names
/// never goes to the child.
pub proof fn lemma_reserved_names(name: Seq<char>)
    ensures
        name == SHOW_LOG@ ==> spec_route(name) == Route::Builtin(BuiltinTool::ShowLog),
        name == CLEAR_LOG@ ==> spec_route(name) == Route::Builtin(BuiltinTool::ClearLog),
        name == RESTART_WRAPPED_SERVER@ ==> spec_route(name) == Route::Builtin(
            BuiltinTool::RestartWrappedServer,
        ),
        spec_route(name) == Route::Forward <==> name != SHOW_LOG@ && name != CLEAR_LOG@ && name
            != RESTART_WRAPPED_SERVER@,
{
    reveal_strlit("show_log");
    reveal_strlit("clear_log");
    reveal_strlit("restart_wrapped_server");
    assert(SHOW_LOG@.len() == 8);
    assert(CLEAR_LOG@.len() == 9);
    assert(RESTART_WRAPPED_SERVER@.len() == 22);
}

} // verus!
