//! The process supervisor: which child is running, how a start and a
//! restart proceed, and what to do when one of their steps has ended.
//!
//! The supervisor performs no step itself. Each request and each report of
//! a finished step moves it to its next state and yields the one action
//! that the caller has to perform next.

use crate::clock::Timestamp;
use crate::config::WrappeeConfig;
use crate::json::JsonText;
use crate::logging::entry::ContentView;
use crate::logging::storage::spec_record;
use crate::text::{clone_strings, opt_view, strings_view};
use crate::tools::descriptor::ToolDescriptorView;
use crate::tools::manager::{
    spec_discovery, spec_refused_call, spec_tools_after, ErrorKind, ToolError, ToolErrorView,
    ToolManager,
};
use crate::types::RequestId;
use vstd::prelude::*;

verus! {

/// Time, in milliseconds, that a restart waits between the end of the old
/// child and the launch of the new one.
pub const RESTART_GRACE_MILLIS: u64 = 500;

/// How the child is launched.
#[derive(Debug, Clone)]
pub struct SpawnConfig {
    pub command: String,
    pub args: Vec<String>,
    pub disable_colors: bool,
}

/// How the child is launched, with its strings as sequences of characters.
pub struct SpawnConfigView {
    pub command: Seq<char>,
    pub args: Seq<Seq<char>>,
    pub disable_colors: bool,
}

impl View for SpawnConfig {
    type V = SpawnConfigView;

    open spec fn view(&self) -> SpawnConfigView {
        SpawnConfigView {
            command: self.command@,
            args: strings_view(self.args@),
            disable_colors: self.disable_colors,
        }
    }
}

/// What a launch was begun for.
#[derive(Debug, Clone, Copy, PartialEq, Eq, Structural)]
pub enum StartKind {
    /// The first start of the proxy.
    Initial { watch_mode: bool },
    /// A start that the file watcher asked for because no child was running.
    FromWatch,
    /// The launch that ends a restart.
    Restart,
}

/// Where a restart stands before its launch.
#[derive(Debug, Clone, Copy, PartialEq, Eq, Structural)]
pub enum RestartStep {
    /// The old child is being killed and waited for.
    Terminating,
    /// The grace period after the old child's end is running.
    Settling,
}

/// The state of the supervisor.
#[derive(Debug, Clone, Copy, PartialEq, Eq, Structural)]
pub enum SupervisorState {
    NoProcess,
    Starting(StartKind),
    Running { pid: u32 },
    Restarting(RestartStep),
}

/// What the caller has to do next.
#[derive(Debug, Clone, Copy, PartialEq, Eq, Structural)]
pub enum LifecycleAction {
    /// Nothing.
    Idle,
    /// Kill the child with this process id, wait for its exit, and report it.
    Terminate { pid: u32 },
    /// Wait this long, and report it.
    Settle { millis: u64 },
    /// Launch the child from the stored spawn configuration, shake hands,
    /// ask for its tools, and report the outcome.
    Launch,
    /// The child runs: keep its handle, read its diagnostics, and tell the
    /// client that the tool list changed if `notify` is set.
    Serve { pid: u32, notify: bool },
    /// The start failed: let go of what was launched and report the failure
    /// that the supervisor holds; if `fatal` is set the proxy cannot go on.
    Report { fatal: bool },
}

/// Why a request to the supervisor was refused.
#[derive(Debug, Clone, Copy, PartialEq, Eq, Structural)]
pub enum SupervisorError {
    /// A restart or start from stored configuration was asked for before
    /// any configuration was stored.
    ConfigMissing,
    /// A start or restart is already under way.
    Busy,
}

/// The process supervisor.
#[derive(Debug)]
pub struct WrappeeState {
    state: SupervisorState,
    spawn: Option<SpawnConfig>,
    failure: Option<String>,
    config: WrappeeConfig,
}

/// What the supervisor holds.
pub struct WrappeeStateView {
    pub state: SupervisorState,
    pub spawn: Option<SpawnConfigView>,
    /// The message of the last failed start.
    pub failure: Option<Seq<char>>,
    /// The time, in seconds, that a call may wait for the child's response.
    pub tool_timeout_secs: u64,
    /// The protocol version that the handshake names.
    pub protocol_version: Seq<char>,
}

/// The view of an optional spawn configuration.
pub open spec fn spawn_view(spawn: Option<SpawnConfig>) -> Option<SpawnConfigView> {
    match spawn {
        Some(s) => Some(s@),
        None => None,
    }
}

/// Whether a failed start of this kind is one that the proxy cannot survive:
/// the first start, unless the binary is being watched.
pub open spec fn spec_fatal(kind: StartKind) -> bool {
    kind == (StartKind::Initial { watch_mode: false })
}

/// Whether the client is told of the new tool list after a start of this kind.
pub open spec fn spec_notifies(kind: StartKind) -> bool {
    !(kind is Initial)
}

/// The spawn configuration after one was offered: the first one stays.
pub open spec fn spec_captured(
    held: Option<SpawnConfigView>,
    offered: SpawnConfigView,
) -> Option<SpawnConfigView> {
    match held {
        Some(_) => held,
        None => Some(offered),
    }
}

/// State and answer after the first start was asked for.
pub open spec fn spec_initialize(v: WrappeeStateView, offered: SpawnConfigView, watch_mode: bool) -> (
    WrappeeStateView,
    Result<LifecycleAction, SupervisorError>,
) {
    if v.state == SupervisorState::NoProcess {
        (
            WrappeeStateView {
                state: SupervisorState::Starting(StartKind::Initial { watch_mode }),
                spawn: spec_captured(v.spawn, offered),
                ..v
            },
            Ok(LifecycleAction::Launch),
        )
    } else {
        (v, Err(SupervisorError::Busy))
    }
}

/// State and answer after the file watcher asked for a start.
pub open spec fn spec_start(v: WrappeeStateView) -> (
    WrappeeStateView,
    Result<LifecycleAction, SupervisorError>,
) {
    if v.spawn is None {
        (v, Err(SupervisorError::ConfigMissing))
    } else if v.state == SupervisorState::NoProcess {
        (
            WrappeeStateView { state: SupervisorState::Starting(StartKind::FromWatch), ..v },
            Ok(LifecycleAction::Launch),
        )
    } else {
        (v, Err(SupervisorError::Busy))
    }
}

/// State and answer after a restart was asked for.
pub open spec fn spec_restart(v: WrappeeStateView) -> (
    WrappeeStateView,
    Result<LifecycleAction, SupervisorError>,
) {
    if v.spawn is None {
        (v, Err(SupervisorError::ConfigMissing))
    } else {
        match v.state {
            SupervisorState::Running { pid } => (
                WrappeeStateView {
                    state: SupervisorState::Restarting(RestartStep::Terminating),
                    ..v
                },
                Ok(LifecycleAction::Terminate { pid }),
            ),
            SupervisorState::NoProcess => (
                WrappeeStateView { state: SupervisorState::Restarting(RestartStep::Settling), ..v },
                Ok(LifecycleAction::Settle { millis: RESTART_GRACE_MILLIS }),
            ),
            _ => (v, Err(SupervisorError::Busy)),
        }
    }
}

/// State and action after the old child's end was reported.
pub open spec fn spec_on_terminated(v: WrappeeStateView) -> (WrappeeStateView, LifecycleAction) {
    if v.state == SupervisorState::Restarting(RestartStep::Terminating) {
        (
            WrappeeStateView { state: SupervisorState::Restarting(RestartStep::Settling), ..v },
            LifecycleAction::Settle { millis: RESTART_GRACE_MILLIS },
        )
    } else {
        (v, LifecycleAction::Idle)
    }
}

/// State, tools and action after the end of the grace period was reported.
pub open spec fn spec_on_settled(v: WrappeeStateView, tools: Seq<ToolDescriptorView>) -> (
    WrappeeStateView,
    Seq<ToolDescriptorView>,
    LifecycleAction,
) {
    if v.state == SupervisorState::Restarting(RestartStep::Settling) {
        (
            WrappeeStateView { state: SupervisorState::Starting(StartKind::Restart), ..v },
            Seq::empty(),
            LifecycleAction::Launch,
        )
    } else {
        (v, tools, LifecycleAction::Idle)
    }
}

/// State, tools and action after a launch was reported to have succeeded,
/// given what the discovery found in the child's tool list.
pub open spec fn spec_on_launched(
    v: WrappeeStateView,
    pid: u32,
    found: Option<Result<Seq<ToolDescriptorView>, Seq<char>>>,
    tools: Seq<ToolDescriptorView>,
) -> (WrappeeStateView, Seq<ToolDescriptorView>, LifecycleAction) {
    match v.state {
        SupervisorState::Starting(kind) => match found {
            Some(Err(message)) => (
                WrappeeStateView {
                    state: SupervisorState::NoProcess,
                    failure: Some(message),
                    ..v
                },
                tools,
                LifecycleAction::Report { fatal: spec_fatal(kind) },
            ),
            _ => (
                WrappeeStateView { state: SupervisorState::Running { pid }, ..v },
                spec_tools_after(tools, found),
                LifecycleAction::Serve { pid, notify: spec_notifies(kind) },
            ),
        },
        _ => (v, tools, LifecycleAction::Idle),
    }
}

/// State and action after a launch was reported to have failed.
pub open spec fn spec_on_launch_failed(v: WrappeeStateView, message: Seq<char>) -> (
    WrappeeStateView,
    LifecycleAction,
) {
    match v.state {
        SupervisorState::Starting(kind) => (
            WrappeeStateView {
                state: SupervisorState::NoProcess,
                failure: Some(message),
                ..v
            },
            LifecycleAction::Report { fatal: spec_fatal(kind) },
        ),
        _ => (v, LifecycleAction::Idle),
    }
}

/// State and action after a shutdown was asked for.
pub open spec fn spec_shutdown(v: WrappeeStateView) -> (WrappeeStateView, LifecycleAction) {
    (
        WrappeeStateView { state: SupervisorState::NoProcess, ..v },
        match v.state {
            SupervisorState::Running { pid } => LifecycleAction::Terminate { pid },
            _ => LifecycleAction::Idle,
        },
    )
}

/// The failure that a caller gets while no child is running.
pub open spec fn spec_not_initialized() -> ToolErrorView {
    ToolErrorView {
        kind: ErrorKind::NotInitialized,
        message: "Wrappee not initialized"@,
        data: None,
    }
}

impl View for WrappeeState {
    type V = WrappeeStateView;

    closed spec fn view(&self) -> WrappeeStateView {
        WrappeeStateView {
            state: self.state,
            spawn: spawn_view(self.spawn),
            failure: opt_view(self.failure),
            tool_timeout_secs: self.config.tool_timeout_secs,
            protocol_version: self.config.protocol_version@,
        }
    }
}

impl WrappeeState {
    /// A supervisor without a child and without a spawn configuration.
    pub fn new(wrappee_config: &WrappeeConfig) -> (s: Self)
        ensures
            s@.state == SupervisorState::NoProcess,
            s@.spawn is None,
            s@.failure is None,
            s@.tool_timeout_secs == wrappee_config.tool_timeout_secs,
            s@.protocol_version == wrappee_config.protocol_version@,
    {
        WrappeeState {
            state: SupervisorState::NoProcess,
            spawn: None,
            failure: None,
            config: WrappeeConfig {
                tool_timeout_secs: wrappee_config.tool_timeout_secs,
                protocol_version: wrappee_config.protocol_version.clone(),
            },
        }
    }

    /// Stores how the child is launched. What was stored first stays: a
    /// later call changes nothing.
    pub fn set_command(&mut self, command: String, args: Vec<String>, disable_colors: bool)
        ensures
            final(self)@ == (WrappeeStateView {
                spawn: spec_captured(
                    old(self)@.spawn,
                    SpawnConfigView { command: command@, args: strings_view(args@), disable_colors },
                ),
                ..old(self)@
            }),
    {
        if self.spawn.is_none() {
            self.spawn = Some(SpawnConfig { command, args, disable_colors });
        }
    }

    /// How the child is launched, if that was stored.
    pub fn get_command(&self) -> (r: Option<(String, Vec<String>, bool)>)
        ensures
            match r {
                Some((command, args, disable_colors)) => self@.spawn == Some(
                    SpawnConfigView { command: command@, args: strings_view(args@), disable_colors },
                ),
                None => self@.spawn is None,
            },
    {
        match &self.spawn {
            Some(s) => Some((s.command.clone(), clone_strings(&s.args), s.disable_colors)),
            None => None,
        }
    }

    /// The state of the supervisor.
    pub fn state(&self) -> (r: SupervisorState)
        ensures
            r == self@.state,
    {
        self.state
    }

    /// Whether a child is running.
    pub fn is_active(&self) -> (r: bool)
        ensures
            r == (self@.state is Running),
    {
        match self.state {
            SupervisorState::Running { .. } => true,
            _ => false,
        }
    }

    /// The process id of the running child, if there is one.
    pub fn get_pid(&self) -> (r: Option<u32>)
        ensures
            r == (match self@.state {
                SupervisorState::Running { pid } => Some(pid),
                _ => None,
            }),
    {
        match self.state {
            SupervisorState::Running { pid } => Some(pid),
            _ => None,
        }
    }

    /// The message of the last failed start.
    pub fn last_failure(&self) -> (r: Option<String>)
        ensures
            opt_view(r) == self@.failure,
    {
        match &self.failure {
            Some(m) => Some(m.clone()),
            None => None,
        }
    }

    /// The time, in seconds, that a call may wait for the child's response.
    pub fn tool_timeout_secs(&self) -> (r: u64)
        ensures
            r == self@.tool_timeout_secs,
    {
        self.config.tool_timeout_secs
    }

    /// The protocol version that the handshake names.
    pub fn protocol_version(&self) -> (r: String)
        ensures
            r@ == self@.protocol_version,
    {
        self.config.protocol_version.clone()
    }

    /// Asks for the first start: stores how the child is launched and
    /// answers with the launch. Refused while anything but `NoProcess` holds.
    pub fn initialize(
        &mut self,
        command: String,
        args: Vec<String>,
        disable_colors: bool,
        watch_mode: bool,
    ) -> (r: Result<LifecycleAction, SupervisorError>)
        ensures
            (final(self)@, r) == spec_initialize(
                old(self)@,
                SpawnConfigView { command: command@, args: strings_view(args@), disable_colors },
                watch_mode,
            ),
    {
        match self.state {
            SupervisorState::NoProcess => {
                self.set_command(command, args, disable_colors);
                self.state = SupervisorState::Starting(StartKind::Initial { watch_mode });
                Ok(LifecycleAction::Launch)
            },
            _ => Err(SupervisorError::Busy),
        }
    }

    /// Asks for a start from the stored spawn configuration, as the file
    /// watcher does when the binary appears and no child is running.
    pub fn start_wrappee(&mut self) -> (r: Result<LifecycleAction, SupervisorError>)
        ensures
            (final(self)@, r) == spec_start(old(self)@),
    {
        if self.spawn.is_none() {
            return Err(SupervisorError::ConfigMissing);
        }
        match self.state {
            SupervisorState::NoProcess => {
                self.state = SupervisorState::Starting(StartKind::FromWatch);
                Ok(LifecycleAction::Launch)
            },
            _ => Err(SupervisorError::Busy),
        }
    }

    /// Asks for a restart. Without a stored spawn configuration it is
    /// refused as `ConfigMissing`. A running child is killed first; without
    /// one the restart goes on with the grace period.
    pub fn restart(&mut self) -> (r: Result<LifecycleAction, SupervisorError>)
        ensures
            (final(self)@, r) == spec_restart(old(self)@),
    {
        if self.spawn.is_none() {
            return Err(SupervisorError::ConfigMissing);
        }
        match self.state {
            SupervisorState::Running { pid } => {
                self.state = SupervisorState::Restarting(RestartStep::Terminating);
                Ok(LifecycleAction::Terminate { pid })
            },
            SupervisorState::NoProcess => {
                self.state = SupervisorState::Restarting(RestartStep::Settling);
                Ok(LifecycleAction::Settle { millis: RESTART_GRACE_MILLIS })
            },
            _ => Err(SupervisorError::Busy),
        }
    }

    /// Takes in that the old child has exited: the grace period begins.
    pub fn on_terminated(&mut self) -> (action: LifecycleAction)
        ensures
            (final(self)@, action) == spec_on_terminated(old(self)@),
    {
        match self.state {
            SupervisorState::Restarting(RestartStep::Terminating) => {
                self.state = SupervisorState::Restarting(RestartStep::Settling);
                LifecycleAction::Settle { millis: RESTART_GRACE_MILLIS }
            },
            _ => LifecycleAction::Idle,
        }
    }

    /// Takes in that the grace period is over: the tools of the old child
    /// are forgotten and the new child is launched.
    pub fn on_settled(&mut self, tool_manager: &mut ToolManager) -> (action: LifecycleAction)
        ensures
            (final(self)@, final(tool_manager).spec_wrappee_tools(), action) == spec_on_settled(
                old(self)@,
                old(tool_manager).spec_wrappee_tools(),
            ),
            final(tool_manager).log_storage == old(tool_manager).log_storage,
    {
        match self.state {
            SupervisorState::Restarting(RestartStep::Settling) => {
                tool_manager.clear_tools();
                self.state = SupervisorState::Starting(StartKind::Restart);
                LifecycleAction::Launch
            },
            _ => LifecycleAction::Idle,
        }
    }

    /// Takes in that the child was launched and has answered the request
    /// for its tools with `tools_response`.
    ///
    /// If the tool list can be taken in, the child counts as running. If it
    /// cannot be read, the start has failed and no child counts as running.
    pub fn on_launched(&mut self, pid: u32, tools_response: &str, tool_manager: &mut ToolManager) -> (action:
        LifecycleAction)
        ensures
            (final(self)@, final(tool_manager).spec_wrappee_tools(), action) == spec_on_launched(
                old(self)@,
                pid,
                spec_discovery(tools_response@),
                old(tool_manager).spec_wrappee_tools(),
            ),
            final(tool_manager).log_storage == old(tool_manager).log_storage,
    {
        match self.state {
            SupervisorState::Starting(kind) => match tool_manager.discover_tools(tools_response) {
                Ok(_) => {
                    self.state = SupervisorState::Running { pid };
                    LifecycleAction::Serve { pid, notify: notifies(kind) }
                },
                Err(e) => {
                    self.state = SupervisorState::NoProcess;
                    self.failure = Some(e.message);
                    LifecycleAction::Report { fatal: is_fatal(kind) }
                },
            },
            _ => LifecycleAction::Idle,
        }
    }

    /// Takes in that the launch failed, with the failure's message.
    pub fn on_launch_failed(&mut self, message: String) -> (action: LifecycleAction)
        ensures
            (final(self)@, action) == spec_on_launch_failed(old(self)@, message@),
    {
        match self.state {
            SupervisorState::Starting(kind) => {
                self.state = SupervisorState::NoProcess;
                self.failure = Some(message);
                LifecycleAction::Report { fatal: is_fatal(kind) }
            },
            _ => LifecycleAction::Idle,
        }
    }

    /// Asks for the end: no child counts as running any more, and a running
    /// one is to be killed.
    pub fn shutdown(&mut self) -> (action: LifecycleAction)
        ensures
            (final(self)@, action) == spec_shutdown(old(self)@),
    {
        let action = match self.state {
            SupervisorState::Running { pid } => LifecycleAction::Terminate { pid },
            _ => LifecycleAction::Idle,
        };
        self.state = SupervisorState::NoProcess;
        action
    }

    /// Admits a call to the child. While a child is running the request is
    /// recorded and its number given. Otherwise the call fails as
    /// `NotInitialized`, and both the request and the error are recorded.
    pub fn proxy_tool_call(&self, name: &str, arguments: JsonText, tool_manager: &mut ToolManager) -> (r:
        Result<RequestId, ToolError>)
        requires
            old(tool_manager).log_storage@.next_id + 1 < usize::MAX,
        ensures
            final(tool_manager).spec_wrappee_tools() == old(tool_manager).spec_wrappee_tools(),
            match r {
                Ok(id) => {
                    &&& self@.state is Running
                    &&& id.0 == old(tool_manager).log_storage@.next_id
                    &&& exists|t: Timestamp|
                        final(tool_manager).log_storage@ == spec_record(
                            old(tool_manager).log_storage@,
                            t,
                            ContentView::Request { tool_name: name@, content: arguments@ },
                        )
                },
                Err(e) => {
                    &&& !(self@.state is Running)
                    &&& e@ == spec_not_initialized()
                    &&& exists|requested_at: Timestamp, refused_at: Timestamp|
                        final(tool_manager).log_storage@ == spec_refused_call(
                            old(tool_manager).log_storage@,
                            requested_at,
                            refused_at,
                            name@,
                            arguments@,
                            spec_not_initialized().message,
                        )
                },
            },
    {
        if self.is_active() {
            Ok(tool_manager.begin_tool_call(name, arguments))
        } else {
            let error = ToolError {
                kind: ErrorKind::NotInitialized,
                message: "Wrappee not initialized".to_owned(),
                data: None,
            };
            let ghost message = error.message@;
            let refused = tool_manager.refuse_tool_call(name, arguments, error);
            proof {
                let (requested_at, refused_at) = choose|a: Timestamp, b: Timestamp|
                    tool_manager.log_storage@ == spec_refused_call(
                        old(tool_manager).log_storage@,
                        a,
                        b,
                        name@,
                        arguments@,
                        message,
                    );
                assert(tool_manager.log_storage@ == spec_refused_call(
                    old(tool_manager).log_storage@,
                    requested_at,
                    refused_at,
                    name@,
                    arguments@,
                    spec_not_initialized().message,
                ));
            }
            Err(refused)
        }
    }
}

fn is_fatal(kind: StartKind) -> (r: bool)
    ensures
        r == spec_fatal(kind),
{
    match kind {
        StartKind::Initial { watch_mode } => !watch_mode,
        _ => false,
    }
}

fn notifies(kind: StartKind) -> (r: bool)
    ensures
        r == spec_notifies(kind),
{
    match kind {
        StartKind::Initial { .. } => false,
        _ => true,
    }
}

/// Restart: from a running child and a stored spawn configuration, the
/// restart kills the old child, waits out the grace period, forgets the old
/// tools and launches; until the launch is reported no child counts as
/// running; and once it is reported, with a tool list that can be taken in,
/// the one child that counts as running is the new one, the tools held are
/// those of its list alone, and the client is told of the change.
pub proof fn lemma_restart(
    v: WrappeeStateView,
    old_pid: u32,
    new_pid: u32,
    old_tools: Seq<ToolDescriptorView>,
    new_tools: Seq<ToolDescriptorView>,
)
    requires
        v.state == (SupervisorState::Running { pid: old_pid }),
        v.spawn is Some,
    ensures
        ({
            let (v1, a1) = spec_restart(v);
            let (v2, a2) = spec_on_terminated(v1);
            let (v3, t3, a3) = spec_on_settled(v2, old_tools);
            let (v4, t4, a4) = spec_on_launched(
                v3,
                new_pid,
                Some(Ok::<Seq<ToolDescriptorView>, Seq<char>>(new_tools)),
                t3,
            );
            &&& a1 == Ok::<LifecycleAction, SupervisorError>(
                LifecycleAction::Terminate { pid: old_pid },
            )
            &&& a2 == (LifecycleAction::Settle { millis: RESTART_GRACE_MILLIS })
            &&& a3 == LifecycleAction::Launch
            &&& a4 == (LifecycleAction::Serve { pid: new_pid, notify: true })
            &&& !(v1.state is Running) && !(v2.state is Running) && !(v3.state is Running)
            &&& t3 == Seq::<ToolDescriptorView>::empty()
            &&& v4.state == (SupervisorState::Running { pid: new_pid })
            &&& t4 == new_tools
            &&& v4.spawn == v.spawn
        }),
{
}

/// A restart that fails leaves no child running: whichever way the launch
/// fails, the supervisor ends in `NoProcess` with the spawn configuration it
/// had, and the failure is not fatal.
pub proof fn lemma_failed_restart(
    v: WrappeeStateView,
    pid: u32,
    message: Seq<char>,
    tools: Seq<ToolDescriptorView>,
)
    requires
        v.state == SupervisorState::Starting(StartKind::Restart),
    ensures
        spec_on_launch_failed(v, message).0.state == SupervisorState::NoProcess,
        spec_on_launch_failed(v, message).0.spawn == v.spawn,
        spec_on_launch_failed(v, message).1 == (LifecycleAction::Report { fatal: false }),
        spec_on_launched(
            v,
            pid,
            Some(Err::<Seq<ToolDescriptorView>, Seq<char>>(message)),
            tools,
        ).0.state == SupervisorState::NoProcess,
        spec_on_launched(
            v,
            pid,
            Some(Err::<Seq<ToolDescriptorView>, Seq<char>>(message)),
            tools,
        ).2 == (LifecycleAction::Report { fatal: false }),
{
}

} // verus!
