//! Debounced restart decisions for the watched binary.
//!
//! The watcher itself lives outside this crate: it reports each filesystem
//! event and each poll tick, together with a monotonic clock reading in
//! milliseconds and whether the binary exists right now. The state machine
//! here decides when a start or a restart is due.

use vstd::prelude::*;

verus! {

/// Quiet time, in milliseconds, that must pass after the last qualifying
/// event before a pending action fires.
pub const DEBOUNCE_MILLIS: u64 = 2000;

/// Interval, in milliseconds, at which the caller is expected to poll.
pub const POLL_MILLIS: u64 = 100;

/// What the filesystem reported about the watched path.
#[derive(Debug, Clone, Copy, PartialEq, Eq, Structural)]
pub enum WatchEventKind {
    Created,
    Modified,
    Removed,
    Other,
}

/// Whether the binary has been seen at all.
#[derive(Debug, Clone, Copy, PartialEq, Eq, Structural)]
pub enum WatchMode {
    /// The binary did not exist when watching began; its parent directory is watched.
    AwaitingFirstCreation,
    /// The binary exists or has existed; it is watched directly.
    Tracking,
}

/// The debounce timer.
#[derive(Debug, Clone, Copy, PartialEq, Eq, Structural)]
pub enum Debounce {
    Idle,
    /// An action is due once more than `DEBOUNCE_MILLIS` have passed since `since`.
    PendingRestart { since: u64 },
}

/// What the caller has to do after a poll tick.
#[derive(Debug, Clone, Copy, PartialEq, Eq, Structural)]
pub enum WatchAction {
    /// Nothing is due.
    Idle,
    /// No process is running: start one from the stored spawn configuration.
    InitialStart,
    /// A process is running: restart it.
    Restart,
}

/// Which path the caller should ask the operating system to watch.
#[derive(Debug, Clone, Copy, PartialEq, Eq, Structural)]
pub enum WatchTarget {
    Binary,
    ParentDirectory,
}

/// One input to the state machine, as recorded in a trace.
#[derive(Debug, Clone, Copy, PartialEq, Eq, Structural)]
pub enum WatchInput {
    Event { kind: WatchEventKind, now: u64, path_exists: bool },
    Tick { now: u64, path_exists: bool, has_process: bool },
}

/// State of the file-watch restarter.
#[derive(Debug, Clone, Copy, PartialEq, Eq, Structural)]
pub struct WatchState {
    pub mode: WatchMode,
    pub file_deleted: bool,
    pub debounce: Debounce,
}

/// The state after a filesystem event.
pub open spec fn spec_on_event(s: WatchState, kind: WatchEventKind, now: u64, path_exists: bool) -> WatchState {
    match kind {
        WatchEventKind::Removed => WatchState {
            mode: s.mode,
            file_deleted: true,
            debounce: Debounce::Idle,
        },
        WatchEventKind::Created => if (s.file_deleted || s.mode == WatchMode::AwaitingFirstCreation)
            && path_exists {
            WatchState {
                mode: WatchMode::Tracking,
                file_deleted: false,
                debounce: Debounce::PendingRestart { since: now },
            }
        } else {
            s
        },
        WatchEventKind::Modified => if !s.file_deleted && s.mode == WatchMode::Tracking {
            WatchState { mode: s.mode, file_deleted: s.file_deleted, debounce: Debounce::PendingRestart { since: now } }
        } else {
            s
        },
        WatchEventKind::Other => s,
    }
}

/// Whether a pending action is due at time `now`.
pub open spec fn spec_due(s: WatchState, now: u64) -> bool {
    match s.debounce {
        Debounce::Idle => false,
        Debounce::PendingRestart { since } => now - since > DEBOUNCE_MILLIS,
    }
}

/// The state after a poll tick: the timer is cleared when the pending
/// action fires, that is when it is due and the binary exists. A tick that
/// finds the binary missing changes nothing: the action stays pending.
pub open spec fn spec_tick_state(s: WatchState, now: u64, path_exists: bool) -> WatchState {
    if spec_due(s, now) && path_exists {
        WatchState { mode: s.mode, file_deleted: s.file_deleted, debounce: Debounce::Idle }
    } else {
        s
    }
}

/// The action that a poll tick asks for.
pub open spec fn spec_tick_action(s: WatchState, now: u64, path_exists: bool, has_process: bool) -> WatchAction {
    if spec_due(s, now) && path_exists {
        if has_process {
            WatchAction::Restart
        } else {
            WatchAction::InitialStart
        }
    } else {
        WatchAction::Idle
    }
}

impl WatchState {
    /// Initial state: tracking when the binary already exists, otherwise
    /// waiting for its first creation. Nothing is pending.
    pub fn new(file_exists: bool) -> (s: Self)
        ensures
            s.mode == (if file_exists {
                WatchMode::Tracking
            } else {
                WatchMode::AwaitingFirstCreation
            }),
            !s.file_deleted,
            s.debounce == Debounce::Idle,
    {
        WatchState {
            mode: if file_exists {
                WatchMode::Tracking
            } else {
                WatchMode::AwaitingFirstCreation
            },
            file_deleted: false,
            debounce: Debounce::Idle,
        }
    }

    /// The path to watch: the binary itself once it exists, its parent
    /// directory while its first creation is awaited.
    pub fn watch_target(&self) -> (t: WatchTarget)
        ensures
            t == (if self.mode == WatchMode::Tracking {
                WatchTarget::Binary
            } else {
                WatchTarget::ParentDirectory
            }),
    {
        match self.mode {
            WatchMode::Tracking => WatchTarget::Binary,
            WatchMode::AwaitingFirstCreation => WatchTarget::ParentDirectory,
        }
    }

    /// Whether an action is scheduled.
    pub fn is_pending(&self) -> (b: bool)
        ensures
            b == (self.debounce != Debounce::Idle),
    {
        match self.debounce {
            Debounce::Idle => false,
            Debounce::PendingRestart { .. } => true,
        }
    }

    /// Takes in one filesystem event.
    ///
    /// A removal marks the file deleted and cancels what was pending. A
    /// creation counts only after a removal or while the first creation is
    /// awaited, and only if the path exists now; it schedules an action and
    /// clears the deleted mark. A modification counts only while the file is
    /// tracked and not deleted; it restarts the timer.
    pub fn on_event(&mut self, kind: WatchEventKind, now: u64, path_exists: bool)
        ensures
            *final(self) == spec_on_event(*old(self), kind, now, path_exists),
    {
        match kind {
            WatchEventKind::Removed => {
                self.file_deleted = true;
                self.debounce = Debounce::Idle;
            },
            WatchEventKind::Created => {
                let awaiting = match self.mode {
                    WatchMode::AwaitingFirstCreation => true,
                    WatchMode::Tracking => false,
                };
                if (self.file_deleted || awaiting) && path_exists {
                    self.mode = WatchMode::Tracking;
                    self.file_deleted = false;
                    self.debounce = Debounce::PendingRestart { since: now };
                }
            },
            WatchEventKind::Modified => {
                let tracking = match self.mode {
                    WatchMode::AwaitingFirstCreation => false,
                    WatchMode::Tracking => true,
                };
                if !self.file_deleted && tracking {
                    self.debounce = Debounce::PendingRestart { since: now };
                }
            },
            WatchEventKind::Other => {},
        }
    }

    /// Takes in one poll tick and says what is due.
    ///
    /// A pending action fires once more than `DEBOUNCE_MILLIS` have passed
    /// since the last qualifying event, if the binary exists at that moment:
    /// the timer is cleared, and a running process is restarted or a missing
    /// one started. If the binary is missing nothing is done and the action
    /// stays pending, to fire at a later tick that finds the binary.
    pub fn on_tick(&mut self, now: u64, path_exists: bool, has_process: bool) -> (action:
        WatchAction)
        ensures
            *final(self) == spec_tick_state(*old(self), now, path_exists),
            action == spec_tick_action(*old(self), now, path_exists, has_process),
    {
        match self.debounce {
            Debounce::Idle => WatchAction::Idle,
            Debounce::PendingRestart { since } => {
                if now > since && now - since > DEBOUNCE_MILLIS && path_exists {
                    self.debounce = Debounce::Idle;
                    if has_process {
                        WatchAction::Restart
                    } else {
                        WatchAction::InitialStart
                    }
                } else {
                    WatchAction::Idle
                }
            },
        }
    }

    /// Takes in one recorded input, event or tick.
    pub fn step(&mut self, input: WatchInput) -> (action: WatchAction)
        ensures
            *final(self) == spec_step(*old(self), input).0,
            action == spec_step(*old(self), input).1,
    {
        match input {
            WatchInput::Event { kind, now, path_exists } => {
                self.on_event(kind, now, path_exists);
                WatchAction::Idle
            },
            WatchInput::Tick { now, path_exists, has_process } => self.on_tick(
                now,
                path_exists,
                has_process,
            ),
        }
    }
}

/// State and action after one input.
pub open spec fn spec_step(s: WatchState, input: WatchInput) -> (WatchState, WatchAction) {
    match input {
        WatchInput::Event { kind, now, path_exists } => (
            spec_on_event(s, kind, now, path_exists),
            WatchAction::Idle,
        ),
        WatchInput::Tick { now, path_exists, has_process } => (
            spec_tick_state(s, now, path_exists),
            spec_tick_action(s, now, path_exists, has_process),
        ),
    }
}

/// Clock reading carried by an input.
pub open spec fn input_time(input: WatchInput) -> u64 {
    match input {
        WatchInput::Event { now, .. } => now,
        WatchInput::Tick { now, .. } => now,
    }
}

/// Whether an input is a filesystem event.
pub open spec fn is_event(input: WatchInput) -> bool {
    input is Event
}

/// State after a whole trace of inputs, taken in order.
pub open spec fn spec_run(s: WatchState, trace: Seq<WatchInput>) -> WatchState
    decreases trace.len(),
{
    if trace.len() == 0 {
        s
    } else {
        spec_step(spec_run(s, trace.drop_last()), trace.last()).0
    }
}

/// The action that input number `k` of the trace asks for.
pub open spec fn spec_action_at(s: WatchState, trace: Seq<WatchInput>, k: int) -> WatchAction {
    spec_step(spec_run(s, trace.take(k)), trace[k]).1
}

/// How many inputs of the trace ask for a start or a restart.
pub open spec fn spec_fired_count(s: WatchState, trace: Seq<WatchInput>) -> nat
    decreases trace.len(),
{
    if trace.len() == 0 {
        0
    } else {
        spec_fired_count(s, trace.drop_last()) + (if spec_step(
            spec_run(s, trace.drop_last()),
            trace.last(),
        ).1 != WatchAction::Idle {
            1nat
        } else {
            0nat
        })
    }
}

/// Clock readings never go back along the trace.
pub open spec fn times_nondecreasing(trace: Seq<WatchInput>) -> bool {
    forall|i: int, j: int|
        0 <= i <= j < trace.len() ==> input_time(#[trigger] trace[i]) <= input_time(
            #[trigger] trace[j],
        )
}

/// Every filesystem event in the trace is a modification.
pub open spec fn only_modifications(trace: Seq<WatchInput>) -> bool {
    forall|i: int|
        0 <= i < trace.len() ==> (#[trigger] trace[i] matches WatchInput::Event { kind, .. }
            ==> kind == WatchEventKind::Modified)
}

/// No event lies strictly between positions `i` and `j`.
pub open spec fn no_event_between(trace: Seq<WatchInput>, i: int, j: int) -> bool {
    forall|k: int| i < k < j ==> !is_event(#[trigger] trace[k])
}

/// Each event follows the event before it by less than the debounce time.
pub open spec fn is_burst(trace: Seq<WatchInput>) -> bool {
    forall|i: int, j: int|
        0 <= i < j < trace.len() && is_event(#[trigger] trace[i]) && is_event(#[trigger] trace[j])
            && no_event_between(trace, i, j) ==> input_time(trace[j]) - input_time(trace[i])
            < DEBOUNCE_MILLIS
}

/// At position `k` every event of the trace lies in the past, by more than
/// the debounce time.
pub open spec fn quiet_at(trace: Seq<WatchInput>, k: int) -> bool {
    forall|i: int|
        0 <= i < trace.len() && is_event(#[trigger] trace[i]) ==> i < k && input_time(trace[k])
            - input_time(trace[i]) > DEBOUNCE_MILLIS
}

/// What holds after the first `n` inputs of a burst of modifications: `e` is
/// the position of the last event so far and `f` the position of the one
/// tick that fired, each -1 if there is none.
spec fn burst_prefix_inv(s: WatchState, trace: Seq<WatchInput>, n: int, e: int, f: int) -> bool {
    let st = spec_run(s, trace.take(n));
    &&& st.mode == s.mode
    &&& st.file_deleted == s.file_deleted
    &&& -1 <= e < n
    &&& -1 <= f < n
    &&& (e >= 0 ==> is_event(trace[e]))
    &&& no_event_between(trace, e, n)
    &&& (s.mode != WatchMode::Tracking || s.file_deleted ==> st.debounce == Debounce::Idle)
    &&& (f == -1 ==> {
        &&& spec_fired_count(s, trace.take(n)) == 0
        &&& (forall|k: int| 0 <= k < n ==> spec_action_at(s, trace, k) == WatchAction::Idle)
        &&& (st.debounce == Debounce::Idle || (e >= 0 && st.debounce == Debounce::PendingRestart {
            since: input_time(trace[e]),
        }))
    })
    &&& (f >= 0 ==> {
        &&& spec_fired_count(s, trace.take(n)) == 1
        &&& 0 <= e < f
        &&& input_time(trace[f]) - input_time(trace[e]) > DEBOUNCE_MILLIS
        &&& st.debounce == Debounce::Idle
        &&& (forall|k: int|
            0 <= k < n && spec_action_at(s, trace, k) != WatchAction::Idle ==> k == f)
    })
}

/// The state, the action and the count after `n` inputs, from those after `n - 1`.
proof fn lemma_run_unfolds(s: WatchState, trace: Seq<WatchInput>, n: int)
    requires
        0 < n <= trace.len(),
    ensures
        spec_run(s, trace.take(n)) == spec_step(spec_run(s, trace.take(n - 1)), trace[n - 1]).0,
        spec_action_at(s, trace, n - 1) == spec_step(
            spec_run(s, trace.take(n - 1)),
            trace[n - 1],
        ).1,
        spec_fired_count(s, trace.take(n)) == spec_fired_count(s, trace.take(n - 1)) + (
        if spec_action_at(s, trace, n - 1) != WatchAction::Idle {
            1nat
        } else {
            0nat
        }),
{
    assert(trace.take(n).drop_last() =~= trace.take(n - 1));
    assert(trace.take(n).last() == trace[n - 1]);
}

/// One more input that is a modification: it becomes the last event, and
/// no tick can have fired before it.
#[verifier::spinoff_prover]
proof fn lemma_burst_event_step(s: WatchState, trace: Seq<WatchInput>, n: int, e: int, f: int)
    requires
        times_nondecreasing(trace),
        only_modifications(trace),
        is_burst(trace),
        0 < n <= trace.len(),
        is_event(trace[n - 1]),
        burst_prefix_inv(s, trace, n - 1, e, f),
    ensures
        burst_prefix_inv(s, trace, n, n - 1, -1),
{
    let m = n - 1;
    lemma_run_unfolds(s, trace, n);
    assert(trace[m] matches WatchInput::Event { kind, .. } && kind == WatchEventKind::Modified);
    if f >= 0 {
        assert(no_event_between(trace, e, m));
        assert(input_time(trace[m]) - input_time(trace[e]) < DEBOUNCE_MILLIS);
        assert(input_time(trace[f]) <= input_time(trace[m]));
        assert(false);
    }
    assert(no_event_between(trace, m, n));
    assert forall|k: int| 0 <= k < n implies spec_action_at(s, trace, k) == WatchAction::Idle by {
        if k < m {
        }
    }
}

/// One more input that is a tick: the last event stays, and the tick is
/// the one that fired if it asks for anything.
#[verifier::spinoff_prover]
proof fn lemma_burst_tick_step(s: WatchState, trace: Seq<WatchInput>, n: int, e: int, f: int) -> (r:
    int)
    requires
        times_nondecreasing(trace),
        0 < n <= trace.len(),
        !is_event(trace[n - 1]),
        burst_prefix_inv(s, trace, n - 1, e, f),
    ensures
        burst_prefix_inv(s, trace, n, e, r),
{
    let m = n - 1;
    lemma_run_unfolds(s, trace, n);
    assert(no_event_between(trace, e, n)) by {
        assert forall|k: int| e < k < n implies !is_event(#[trigger] trace[k]) by {
            if k < m {
            }
        }
    }
    if spec_action_at(s, trace, m) != WatchAction::Idle {
        assert(f == -1);
        assert(e >= 0);
        assert forall|k: int|
            0 <= k < n && spec_action_at(s, trace, k) != WatchAction::Idle implies k == m by {
            if k < m {
            }
        }
        m
    } else {
        if f == -1 {
            assert forall|k: int| 0 <= k < n implies spec_action_at(s, trace, k)
                == WatchAction::Idle by {
                if k < m {
                }
            }
        } else {
            assert forall|k: int|
                0 <= k < n && spec_action_at(s, trace, k) != WatchAction::Idle implies k == f by {
                if k < m {
                }
            }
        }
        f
    }
}

proof fn lemma_burst_prefix(s: WatchState, trace: Seq<WatchInput>, n: int) -> (r: (int, int))
    requires
        s.debounce == Debounce::Idle,
        times_nondecreasing(trace),
        only_modifications(trace),
        is_burst(trace),
        0 <= n <= trace.len(),
    ensures
        burst_prefix_inv(s, trace, n, r.0, r.1),
    decreases n,
{
    if n == 0 {
        assert(trace.take(0) =~= Seq::<WatchInput>::empty());
        (-1, -1)
    } else {
        let (e, f) = lemma_burst_prefix(s, trace, n - 1);
        if is_event(trace[n - 1]) {
            lemma_burst_event_step(s, trace, n, e, f);
            (n - 1, -1)
        } else {
            let fired = lemma_burst_tick_step(s, trace, n, e, f);
            (e, fired)
        }
    }
}

/// Debounce: in a burst of modifications, each less than the debounce time
/// after the one before, at most one tick asks for a start or restart, and
/// it does so only when every modification lies more than the debounce time
/// in the past.
pub proof fn lemma_debounce(s: WatchState, trace: Seq<WatchInput>)
    requires
        s.debounce == Debounce::Idle,
        times_nondecreasing(trace),
        only_modifications(trace),
        is_burst(trace),
    ensures
        spec_fired_count(s, trace) <= 1,
        forall|k: int|
            0 <= k < trace.len() && spec_action_at(s, trace, k) != WatchAction::Idle ==> quiet_at(
                trace,
                k,
            ),
{
    let n = trace.len() as int;
    let (e, f) = lemma_burst_prefix(s, trace, n);
    assert(trace.take(n) =~= trace);
    assert forall|k: int|
        0 <= k < trace.len() && spec_action_at(s, trace, k) != WatchAction::Idle implies quiet_at(
        trace,
        k,
    ) by {
        assert(k == f);
        assert forall|i: int| 0 <= i < trace.len() && is_event(#[trigger] trace[i]) implies i < k
            && input_time(trace[k]) - input_time(trace[i]) > DEBOUNCE_MILLIS by {
            assert(!(e < i < n));
            assert(i <= e);
            assert(input_time(trace[i]) <= input_time(trace[e]));
        }
    }
}

/// Nothing fires against a missing binary: a tick that finds the binary
/// missing asks for nothing and leaves the state as it is, so that a due
/// action stays pending and fires at the next tick that finds the binary.
pub proof fn lemma_missing_binary_keeps_pending(
    s: WatchState,
    now: u64,
    later: u64,
    has_process: bool,
)
    requires
        spec_due(s, now),
        now <= later,
    ensures
        spec_tick_state(s, now, false) == s,
        spec_tick_action(s, now, false, has_process) == WatchAction::Idle,
        spec_tick_action(spec_tick_state(s, now, false), later, true, has_process)
            != WatchAction::Idle,
        spec_tick_state(spec_tick_state(s, now, false), later, true).debounce == Debounce::Idle,
{
}

/// The first creation happens once: a watcher that tracks the binary never
/// goes back to awaiting its first creation, whatever comes in.
pub proof fn lemma_tracking_stays(s: WatchState, input: WatchInput)
    requires
        s.mode == WatchMode::Tracking,
    ensures
        spec_step(s, input).0.mode == WatchMode::Tracking,
{
}

/// A removal followed, after the debounce time, by a creation of a path that
/// exists: the first tick more than the debounce time after the creation asks
/// for exactly one action, a restart if a process is running and a start if
/// none is, and the tick after it asks for nothing.
pub proof fn lemma_removed_then_created(
    s: WatchState,
    removed_at: u64,
    created_at: u64,
    tick_at: u64,
    later_tick_at: u64,
    has_process: bool,
)
    requires
        removed_at <= created_at,
        tick_at - created_at > DEBOUNCE_MILLIS,
        tick_at <= later_tick_at,
    ensures
        ({
            let s1 = spec_on_event(s, WatchEventKind::Removed, removed_at, false);
            let s2 = spec_on_event(s1, WatchEventKind::Created, created_at, true);
            let s3 = spec_tick_state(s2, tick_at, true);
            &&& s2.mode == WatchMode::Tracking
            &&& !s2.file_deleted
            &&& spec_tick_action(s2, tick_at, true, has_process) == (if has_process {
                WatchAction::Restart
            } else {
                WatchAction::InitialStart
            })
            &&& spec_tick_action(s3, later_tick_at, true, has_process) == WatchAction::Idle
        }),
{
}

} // verus!
