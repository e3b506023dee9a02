//! Life cycle of the audio backend.
//!
//! A failure sticks: nothing but the start of a reconnection takes it back, so
//! that the control plane cannot miss it.

use vstd::prelude::*;

use crate::duration::Duration;
use crate::rt_status::{RtStatusFlags, RT_STATUS_PANIC_CAPTURED};
use crate::stream_status::{is_capture, is_playback, names_differ};
use crate::text::same_text;

verus! {

/// Where the backend stands.
#[derive(Debug, Clone, PartialEq, Eq)]
pub enum BackendState {
    /// No stream works yet.
    Starting,
    /// Audio is expected.
    Running,
    /// Alive, but muted.
    Degraded {
        /// Why.
        reason: String,
    },
    /// Waiting before another try.
    Reconnecting {
        /// The try, counted from one.
        attempt: u32,
        /// Tries allowed.
        total_attempts: u32,
        /// The wait before it.
        next_backoff: Duration,
    },
    /// Lost.
    Failed {
        /// The stream on which this was seen.
        stream: String,
        /// Why.
        reason: String,
    },
    /// Shut down.
    Terminated,
}

/// A backend state as mathematical value.
pub enum StateView {
    /// No stream works yet.
    Starting,
    /// Audio is expected.
    Running,
    /// Alive, but muted; the reason.
    Degraded(Seq<char>),
    /// Waiting: the try, the tries allowed, the wait in nanoseconds.
    Reconnecting(u32, u32, nat),
    /// Lost: the stream and the reason.
    Failed(Seq<char>, Seq<char>),
    /// Shut down.
    Terminated,
}

impl View for BackendState {
    type V = StateView;

    open spec fn view(&self) -> StateView {
        match self {
            BackendState::Starting => StateView::Starting,
            BackendState::Running => StateView::Running,
            BackendState::Degraded { reason } => StateView::Degraded(reason@),
            BackendState::Reconnecting { attempt, total_attempts, next_backoff } => {
                StateView::Reconnecting(*attempt, *total_attempts, next_backoff@)
            },
            BackendState::Failed { stream, reason } => StateView::Failed(stream@, reason@),
            BackendState::Terminated => StateView::Terminated,
        }
    }
}

/// Whether a state agrees with the failure flag: a failed state with a raised
/// one, every other but the last with a lowered one.
pub open spec fn flag_agrees(state: StateView, failed: bool) -> bool {
    match state {
        StateView::Failed(_, _) => failed,
        StateView::Terminated => true,
        _ => !failed,
    }
}

impl BackendState {
    /// Whether the state agrees with the failure flag.
    pub fn matches_failed_flag(&self, failed: bool) -> (r: bool)
        ensures
            r == flag_agrees(self@, failed),
    {
        match self {
            BackendState::Failed { .. } => failed,
            BackendState::Starting => !failed,
            BackendState::Running => !failed,
            BackendState::Degraded { .. } => !failed,
            BackendState::Reconnecting { .. } => !failed,
            BackendState::Terminated => true,
        }
    }

    fn copied(&self) -> (r: BackendState)
        ensures
            r@ == self@,
    {
        match self {
            BackendState::Starting => BackendState::Starting,
            BackendState::Running => BackendState::Running,
            BackendState::Degraded { reason } => BackendState::Degraded { reason: reason.clone() },
            BackendState::Reconnecting { attempt, total_attempts, next_backoff } => {
                BackendState::Reconnecting {
                    attempt: *attempt,
                    total_attempts: *total_attempts,
                    next_backoff: *next_backoff,
                }
            },
            BackendState::Failed { stream, reason } => BackendState::Failed {
                stream: stream.clone(),
                reason: reason.clone(),
            },
            BackendState::Terminated => BackendState::Terminated,
        }
    }
}

impl Default for BackendState {
    fn default() -> (r: Self)
        ensures
            r@ == StateView::Starting,
    {
        BackendState::Starting
    }
}

/// A coherent reading of the backend's status.
#[derive(Debug, Clone, PartialEq, Eq)]
pub struct BackendStatusSnapshot {
    /// Whether the backend failed.
    pub failed: bool,
    /// Where it stands.
    pub state: BackendState,
    /// The stream and the reason, once it failed.
    pub failure: Option<(String, String)>,
}

impl BackendStatusSnapshot {
    /// Whether the reading is one that the backend can have: the flag agrees
    /// with the state, and a failed state comes with the stream and the reason.
    pub open spec fn coherent(self) -> bool {
        &&& flag_agrees(self.state@, self.failed)
        &&& self.state is Failed ==> self.failure is Some
    }

    /// Whether the reading is one that the backend can have.
    pub fn invariants_hold(&self) -> (r: bool)
        ensures
            r == self.coherent(),
    {
        let detailed = match self.state {
            BackendState::Failed { .. } => self.failure.is_some(),
            _ => true,
        };
        self.state.matches_failed_flag(self.failed) && detailed
    }
}

/// The activity latches that the audio callbacks read.
#[derive(Clone, Copy, Debug, PartialEq, Eq, Structural)]
pub struct ActivityLatch {
    /// Whether the capture stream is streaming.
    pub capture: bool,
    /// Whether the playback stream is streaming.
    pub playback: bool,
}

/// The backend's status.
///
/// Every change reports whether the control plane is to be woken.
#[derive(Debug)]
pub struct SharedBackendStatus {
    failed: bool,
    capture_active: bool,
    playback_active: bool,
    state: BackendState,
    failure_detail: Option<(String, String)>,
    latch: Option<ActivityLatch>,
}

/// The backend's status as mathematical value.
pub struct BackendView {
    /// Whether the backend failed.
    pub failed: bool,
    /// Whether the capture stream is streaming.
    pub capture_active: bool,
    /// Whether the playback stream is streaming.
    pub playback_active: bool,
    /// Where it stands.
    pub state: StateView,
    /// The stream and the reason of a failure.
    pub detail: Option<(Seq<char>, Seq<char>)>,
    /// What the audio callbacks are told, where they are.
    pub latch: Option<ActivityLatch>,
}

/// A failure detail as mathematical value.
pub open spec fn detail_view(d: Option<(String, String)>) -> Option<(Seq<char>, Seq<char>)> {
    match d {
        Some(x) => Some((x.0@, x.1@)),
        None => None,
    }
}

impl View for SharedBackendStatus {
    type V = BackendView;

    closed spec fn view(&self) -> BackendView {
        BackendView {
            failed: self.failed,
            capture_active: self.capture_active,
            playback_active: self.playback_active,
            state: self.state@,
            detail: detail_view(self.failure_detail),
            latch: self.latch,
        }
    }
}

impl BackendView {
    /// A backend that has just been set up.
    pub open spec fn fresh() -> BackendView {
        BackendView {
            failed: false,
            capture_active: false,
            playback_active: false,
            state: StateView::Starting,
            detail: None,
            latch: None,
        }
    }

    /// What holds of every backend: state and flag agree, a failure has a
    /// detail and nothing else has, and the callbacks are told the truth.
    pub open spec fn coherent(self) -> bool {
        &&& flag_agrees(self.state, self.failed)
        &&& self.failed == (self.detail is Some)
        &&& self.latch is Some ==> self.latch == Some(
            ActivityLatch { capture: self.capture_active, playback: self.playback_active },
        )
    }

    /// The backend with both streams inactive.
    pub open spec fn both_inactive(self) -> BackendView {
        BackendView {
            capture_active: false,
            playback_active: false,
            latch: if self.latch is Some {
                Some(ActivityLatch { capture: false, playback: false })
            } else {
                None
            },
            ..self
        }
    }

    /// The backend with the named stream's activity set.
    pub open spec fn with_activity(self, name: Seq<char>, active: bool) -> BackendView {
        let capture_active = if is_capture(name) { active } else { self.capture_active };
        let playback_active = if is_playback(name) { active } else { self.playback_active };
        BackendView {
            capture_active,
            playback_active,
            latch: match self.latch {
                Some(l) => Some(
                    ActivityLatch {
                        capture: if is_capture(name) { active } else { l.capture },
                        playback: if is_playback(name) { active } else { l.playback },
                    },
                ),
                None => None,
            },
            ..self
        }
    }

    /// The state that the streams' activity leads to: both streaming end a
    /// start or a reconnection, and a stream that stops ends a run.
    pub open spec fn state_by_activity(self) -> StateView {
        let both = self.capture_active && self.playback_active;
        if self.failed {
            self.state
        } else if both && (self.state is Starting || self.state is Reconnecting) {
            StateView::Running
        } else if !both && self.state is Running {
            StateView::Starting
        } else {
            self.state
        }
    }

    /// The backend after the named stream's activity changed.
    pub open spec fn stream_set(self, name: Seq<char>, active: bool) -> BackendView {
        let v = self.with_activity(name, active);
        BackendView { state: v.state_by_activity(), ..v }
    }

    /// The backend after it was found running; a failure sticks.
    pub open spec fn running(self) -> BackendView {
        if self.failed {
            self
        } else {
            BackendView { state: StateView::Running, ..self }
        }
    }

    /// The backend after it was found degraded; a failure sticks.
    pub open spec fn degraded(self, reason: Seq<char>) -> BackendView {
        if self.failed {
            self
        } else {
            BackendView { state: StateView::Degraded(reason), ..self }
        }
    }

    /// The backend after it failed.
    pub open spec fn lost(self, stream: Seq<char>, reason: Seq<char>) -> BackendView {
        BackendView {
            failed: true,
            state: StateView::Failed(stream, reason),
            detail: Some((stream, reason)),
            ..self
        }
    }

    /// The backend after its shutdown.
    pub open spec fn terminated(self) -> BackendView {
        BackendView { state: StateView::Terminated, ..self.both_inactive() }
    }

    /// The backend at the start of a reconnection.
    pub open spec fn reconnecting(self, attempt: u32, total: u32, backoff: nat) -> BackendView {
        BackendView {
            failed: false,
            state: StateView::Reconnecting(attempt, total, backoff),
            detail: None,
            ..self.both_inactive()
        }
    }
}

impl SharedBackendStatus {
    /// A backend that has just been set up, without callbacks to tell.
    pub fn new() -> (r: Self)
        ensures
            r@ == BackendView::fresh(),
            r@.coherent(),
    {
        SharedBackendStatus {
            failed: false,
            capture_active: false,
            playback_active: false,
            state: BackendState::Starting,
            failure_detail: None,
            latch: None,
        }
    }

    /// A backend that has just been set up and tells the audio callbacks that
    /// both streams are inactive.
    pub fn with_rt_status() -> (r: Self)
        ensures
            r@ == (BackendView {
                latch: Some(ActivityLatch { capture: false, playback: false }),
                ..BackendView::fresh()
            }),
            r@.coherent(),
    {
        let mut r = SharedBackendStatus::new();
        r.latch = Some(ActivityLatch { capture: false, playback: false });
        r
    }

    /// Tells the audio callbacks the streams' activity from now on.
    pub fn bind_rt_status(&mut self)
        ensures
            final(self)@ == (BackendView {
                latch: Some(
                    ActivityLatch {
                        capture: old(self)@.capture_active,
                        playback: old(self)@.playback_active,
                    },
                ),
                ..old(self)@
            }),
            old(self)@.coherent() ==> final(self)@.coherent(),
    {
        self.latch = Some(
            ActivityLatch { capture: self.capture_active, playback: self.playback_active },
        );
    }

    /// What the audio callbacks are told, where they are.
    pub fn rt_latch(&self) -> (r: Option<ActivityLatch>)
        ensures
            r == self@.latch,
    {
        self.latch
    }

    /// Whether the backend failed.
    pub fn is_failed(&self) -> (r: bool)
        ensures
            r == self@.failed,
    {
        self.failed
    }

    /// Where the backend stands.
    pub fn state(&self) -> (r: BackendState)
        ensures
            r@ == self@.state,
    {
        self.state.copied()
    }

    /// The stream and the reason of the failure, once it failed.
    pub fn failure(&self) -> (r: Option<(String, String)>)
        ensures
            detail_view(r) == (if self@.failed { self@.detail } else { None }),
    {
        if !self.failed {
            return None;
        }
        match &self.failure_detail {
            Some(d) => Some((d.0.clone(), d.1.clone())),
            None => None,
        }
    }

    /// A coherent reading of the status.
    pub fn snapshot(&self) -> (r: BackendStatusSnapshot)
        ensures
            r.failed == self@.failed,
            r.state@ == self@.state,
            detail_view(r.failure) == (if self@.failed { self@.detail } else { None }),
            self@.coherent() ==> r.coherent(),
    {
        BackendStatusSnapshot {
            failed: self.failed,
            state: self.state.copied(),
            failure: self.failure(),
        }
    }

    /// Sets the named stream's activity. The state follows, unless the backend
    /// failed.
    pub fn set_stream_active(&mut self, stream: &str, active: bool) -> (wake: bool)
        ensures
            final(self)@ == old(self)@.stream_set(stream@, active),
            wake == (final(self)@.state != old(self)@.state),
            old(self)@.coherent() ==> final(self)@.coherent(),
    {
        proof {
            names_differ();
        }
        if same_text(stream, "capture") {
            self.capture_active = active;
            if let Some(l) = self.latch {
                self.latch = Some(ActivityLatch { capture: active, playback: l.playback });
            }
        } else if same_text(stream, "playback") {
            self.playback_active = active;
            if let Some(l) = self.latch {
                self.latch = Some(ActivityLatch { capture: l.capture, playback: active });
            }
        }
        if self.failed {
            return false;
        }
        if self.capture_active && self.playback_active {
            let ends_start = match self.state {
                BackendState::Starting => true,
                BackendState::Reconnecting { .. } => true,
                _ => false,
            };
            if ends_start {
                self.state = BackendState::Running;
            }
            ends_start
        } else {
            let ends_run = match self.state {
                BackendState::Running => true,
                _ => false,
            };
            if ends_run {
                self.state = BackendState::Starting;
            }
            ends_run
        }
    }

    /// The backend works. Nothing happens once it failed.
    pub fn mark_running(&mut self) -> (wake: bool)
        ensures
            final(self)@ == old(self)@.running(),
            wake == !old(self)@.failed,
            old(self)@.coherent() ==> final(self)@.coherent(),
    {
        if self.failed {
            return false;
        }
        self.state = BackendState::Running;
        true
    }

    /// The backend is alive but muted. Nothing happens once it failed.
    pub fn mark_degraded(&mut self, reason: String) -> (wake: bool)
        ensures
            final(self)@ == old(self)@.degraded(reason@),
            wake == !old(self)@.failed,
            old(self)@.coherent() ==> final(self)@.coherent(),
    {
        if self.failed {
            return false;
        }
        self.state = BackendState::Degraded { reason };
        true
    }

    /// The backend failed on a stream.
    pub fn mark_failed(&mut self, stream: &str, reason: String) -> (wake: bool)
        ensures
            final(self)@ == old(self)@.lost(stream@, reason@),
            wake,
            old(self)@.coherent() ==> final(self)@.coherent(),
    {
        self.failure_detail = Some((stream.to_owned(), reason.clone()));
        self.state = BackendState::Failed { stream: stream.to_owned(), reason };
        self.failed = true;
        true
    }

    /// The backend was shut down.
    pub fn mark_terminated(&mut self) -> (wake: bool)
        ensures
            final(self)@ == old(self)@.terminated(),
            wake,
            old(self)@.coherent() ==> final(self)@.coherent(),
    {
        self.state = BackendState::Terminated;
        self.deactivate();
        true
    }

    /// A reconnection starts: the failure is taken back.
    pub fn begin_reconnect(
        &mut self,
        attempt: u32,
        total_attempts: u32,
        next_backoff: Duration,
    ) -> (wake: bool)
        ensures
            final(self)@ == old(self)@.reconnecting(attempt, total_attempts, next_backoff@),
            wake,
            old(self)@.coherent() ==> final(self)@.coherent(),
    {
        self.failed = false;
        self.deactivate();
        self.failure_detail = None;
        self.state = BackendState::Reconnecting { attempt, total_attempts, next_backoff };
        true
    }

    fn deactivate(&mut self)
        ensures
            final(self)@ == old(self)@.both_inactive(),
    {
        self.capture_active = false;
        self.playback_active = false;
        if self.latch.is_some() {
            self.latch = Some(ActivityLatch { capture: false, playback: false });
        }
    }
}

impl Default for SharedBackendStatus {
    fn default() -> (r: Self)
        ensures
            r@ == BackendView::fresh(),
    {
        SharedBackendStatus::new()
    }
}

/// What the audio server says of a stream.
#[derive(Debug, Clone, PartialEq, Eq)]
pub enum StreamState {
    /// It is broken, for this reason.
    Error(String),
    /// It has no connection.
    Unconnected,
    /// It is being connected.
    Connecting,
    /// It is connected and idle.
    Paused,
    /// It carries audio.
    Streaming,
}

/// Whether the stream had a connection.
pub open spec fn was_connected_spec(old_state: StreamState) -> bool {
    old_state is Paused || old_state is Streaming
}

/// The reason given for a lost connection.
pub open spec fn disconnect_reason() -> Seq<char> {
    "stream disconnected from the audio backend"@
}

/// The backend after a stream went from `old_state` to `new_state`.
pub open spec fn stream_observed(
    v: BackendView,
    stream: Seq<char>,
    old_state: StreamState,
    new_state: StreamState,
    shutting_down: bool,
) -> BackendView {
    match new_state {
        StreamState::Error(err) => v.stream_set(stream, false).lost(stream, err@),
        StreamState::Unconnected => if !was_connected_spec(old_state) {
            v
        } else if shutting_down {
            v.stream_set(stream, false)
        } else {
            v.stream_set(stream, false).lost(stream, disconnect_reason())
        },
        StreamState::Connecting => v,
        StreamState::Paused => v.stream_set(stream, false),
        StreamState::Streaming => v.stream_set(stream, true),
    }
}

/// Whether an observation that led the backend from `a` to `b` wakes the control
/// plane: its state changed, or the stream reported a failure while it counts as
/// failed.
pub open spec fn observation_wakes(
    a: BackendView,
    b: BackendView,
    old_state: StreamState,
    new_state: StreamState,
    shutting_down: bool,
) -> bool {
    b.state != a.state || (b.failed && (new_state is Error || (new_state is Unconnected
        && was_connected_spec(old_state) && !shutting_down)))
}

/// Takes down a stream's change. An error, and the loss of a connection other
/// than by our own shutdown, fail the backend. Returns whether the control
/// plane is to be woken.
pub fn observe_stream_state(
    stream: &str,
    old_state: &StreamState,
    new_state: StreamState,
    shutting_down: bool,
    backend: &mut SharedBackendStatus,
) -> (wake: bool)
    ensures
        final(backend)@ == stream_observed(
            old(backend)@,
            stream@,
            *old_state,
            new_state,
            shutting_down,
        ),
        wake == observation_wakes(
            old(backend)@,
            final(backend)@,
            *old_state,
            new_state,
            shutting_down,
        ),
        old(backend)@.coherent() ==> final(backend)@.coherent(),
{
    match new_state {
        StreamState::Error(err) => {
            let _ = backend.set_stream_active(stream, false);
            backend.mark_failed(stream, err)
        },
        StreamState::Unconnected => {
            let connected = match old_state {
                StreamState::Paused => true,
                StreamState::Streaming => true,
                _ => false,
            };
            if !connected {
                return false;
            }
            let changed = backend.set_stream_active(stream, false);
            if shutting_down {
                changed
            } else {
                backend.mark_failed(
                    stream,
                    "stream disconnected from the audio backend".to_owned(),
                )
            }
        },
        StreamState::Connecting => false,
        StreamState::Paused => backend.set_stream_active(stream, false),
        StreamState::Streaming => backend.set_stream_active(stream, true),
    }
}

/// Follows the capture stream from one state to the next.
pub fn state_changed_handler(
    old_state: &StreamState,
    new_state: StreamState,
    shutting_down: bool,
    backend: &mut SharedBackendStatus,
) -> (wake: bool)
    ensures
        final(backend)@ == stream_observed(
            old(backend)@,
            "capture"@,
            *old_state,
            new_state,
            shutting_down,
        ),
        wake == observation_wakes(
            old(backend)@,
            final(backend)@,
            *old_state,
            new_state,
            shutting_down,
        ),
        old(backend)@.coherent() ==> final(backend)@.coherent(),
{
    observe_stream_state("capture", old_state, new_state, shutting_down, backend)
}

/// Follows the playback stream from one state to the next.
pub fn playback_state_changed_handler(
    old_state: &StreamState,
    new_state: StreamState,
    shutting_down: bool,
    backend: &mut SharedBackendStatus,
) -> (wake: bool)
    ensures
        final(backend)@ == stream_observed(
            old(backend)@,
            "playback"@,
            *old_state,
            new_state,
            shutting_down,
        ),
        wake == observation_wakes(
            old(backend)@,
            final(backend)@,
            *old_state,
            new_state,
            shutting_down,
        ),
        old(backend)@.coherent() ==> final(backend)@.coherent(),
{
    observe_stream_state("playback", old_state, new_state, shutting_down, backend)
}

/// The stream name under which a contained panic is reported.
pub open spec fn panic_stream() -> Seq<char> {
    "rt_callback"@
}

/// The reason given for a contained panic.
pub open spec fn panic_reason() -> Seq<char> {
    "panic captured in an RT callback closure (contained — no abort, ordered teardown follows)"@
}

/// Fails the backend when a panic was contained in an audio callback. Returns
/// whether one was.
pub fn observe_rt_panic(status: &RtStatusFlags, backend: &mut SharedBackendStatus) -> (seen: bool)
    ensures
        seen == status.has(RT_STATUS_PANIC_CAPTURED),
        final(backend)@ == if seen {
            old(backend)@.lost(panic_stream(), panic_reason())
        } else {
            old(backend)@
        },
        old(backend)@.coherent() ==> final(backend)@.coherent(),
{
    if status.check_flag(RT_STATUS_PANIC_CAPTURED) {
        backend.mark_failed(
            "rt_callback",
            "panic captured in an RT callback closure (contained — no abort, ordered teardown follows)".to_owned(),
        );
        true
    } else {
        false
    }
}

/// One change of the backend's status.
pub enum BackendEvent {
    /// A stream's activity.
    Stream(Seq<char>, bool),
    /// Found running.
    Running,
    /// Found degraded.
    Degraded(Seq<char>),
    /// Failed.
    Failed(Seq<char>, Seq<char>),
    /// Shut down.
    Terminated,
    /// A reconnection starts.
    Reconnect(u32, u32, nat),
}

impl BackendView {
    /// The backend after one change.
    pub open spec fn after(self, e: BackendEvent) -> BackendView {
        match e {
            BackendEvent::Stream(name, active) => self.stream_set(name, active),
            BackendEvent::Running => self.running(),
            BackendEvent::Degraded(reason) => self.degraded(reason),
            BackendEvent::Failed(stream, reason) => self.lost(stream, reason),
            BackendEvent::Terminated => self.terminated(),
            BackendEvent::Reconnect(attempt, total, backoff) => self.reconnecting(
                attempt,
                total,
                backoff,
            ),
        }
    }

    /// The backend after a row of changes.
    pub open spec fn after_all(self, events: Seq<BackendEvent>) -> BackendView
        decreases events.len(),
    {
        if events.len() == 0 {
            self
        } else {
            self.after_all(events.drop_last()).after(events.last())
        }
    }
}

/// Whatever happens to a backend, its status stays coherent.
pub proof fn backend_stays_coherent(v: BackendView, events: Seq<BackendEvent>)
    requires
        v.coherent(),
    ensures
        v.after_all(events).coherent(),
    decreases events.len(),
{
    if events.len() > 0 {
        backend_stays_coherent(v, events.drop_last());
        names_differ();
    }
}

/// A failure sticks: as long as no reconnection starts, a failed backend stays
/// failed, whatever else is reported.
pub proof fn failure_is_sticky(v: BackendView, events: Seq<BackendEvent>)
    requires
        v.failed,
        forall|i: int| 0 <= i < events.len() ==> !(#[trigger] events[i] is Reconnect),
    ensures
        v.after_all(events).failed,
        v.after_all(events).detail is Some || v.detail is None,
    decreases events.len(),
{
    if events.len() > 0 {
        assert(!(events[events.len() - 1] is Reconnect));
        assert forall|i: int| 0 <= i < events.len() - 1 implies !(#[trigger] events.drop_last()[i] is Reconnect) by {
            assert(events.drop_last()[i] == events[i]);
        }
        failure_is_sticky(v, events.drop_last());
    }
}

/// After a reconnection the backend can be found running again, and a second
/// failure is seen as such.
pub proof fn reconnection_reopens(v: BackendView, attempt: u32, total: u32, backoff: nat)
    ensures
        v.reconnecting(attempt, total, backoff).running().state is Running,
        v.reconnecting(attempt, total, backoff).stream_set("capture"@, true).stream_set(
            "playback"@,
            true,
        ).state is Running,
        forall|s: Seq<char>, r: Seq<char>|
            (#[trigger] v.reconnecting(attempt, total, backoff).running().lost(s, r)).failed,
{
    names_differ();
}

/// A broken stream fails the backend under its own name and reason and counts as
/// inactive; so does the loss of a connection, other than by a shutdown of our
/// own. What was never connected cannot be lost.
pub proof fn lost_stream_fails_the_backend(
    v: BackendView,
    stream: Seq<char>,
    old_state: StreamState,
    new_state: StreamState,
    shutting_down: bool,
)
    ensures
        ({
            let w = stream_observed(v, stream, old_state, new_state, shutting_down);
            let was_connected = old_state is Paused || old_state is Streaming;
            &&& new_state matches StreamState::Error(reason) ==> w.failed && w.detail == Some(
                (stream, reason@),
            ) && w.state == StateView::Failed(stream, reason@)
            &&& new_state is Unconnected && was_connected && !shutting_down ==> w.failed
                && w.detail is Some && (w.detail->0).0 == stream && w.state is Failed
            &&& new_state is Unconnected && !was_connected ==> w == v
            &&& new_state is Connecting ==> w == v
            &&& new_state is Unconnected && was_connected && shutting_down ==> w.failed == v.failed
                && w.detail == v.detail
            &&& new_state is Paused || new_state is Streaming ==> w.failed == v.failed && w.detail
                == v.detail
            &&& stream == "capture"@ && (new_state is Error || new_state is Paused || (new_state
                is Unconnected && was_connected)) ==> !w.capture_active && w.playback_active
                == v.playback_active
            &&& stream == "playback"@ && (new_state is Error || new_state is Paused || (new_state
                is Unconnected && was_connected)) ==> !w.playback_active && w.capture_active
                == v.capture_active
            &&& stream == "capture"@ && new_state is Streaming ==> w.capture_active
                && w.playback_active == v.playback_active
            &&& stream == "playback"@ && new_state is Streaming ==> w.playback_active
                && w.capture_active == v.capture_active
        }),
{
    names_differ();
}

/// A healthy backend runs once both streams carry audio, and no longer once one
/// stops; a degraded one stays degraded, and a shut-down one shut down.
pub proof fn both_streams_make_it_run(v: BackendView, name: Seq<char>, active: bool)
    ensures
        ({
            let w = v.stream_set(name, active);
            let both = w.capture_active && w.playback_active;
            &&& v.failed ==> w.state == v.state
            &&& !v.failed && both && (v.state is Starting || v.state is Reconnecting) ==> w.state
                is Running
            &&& !v.failed && both && v.state is Running ==> w.state is Running
            &&& !v.failed && !both ==> !(w.state is Running)
            &&& v.state is Degraded || v.state is Terminated || v.state is Failed ==> w.state
                == v.state
            &&& w.failed == v.failed && w.detail == v.detail
        }),
{
}

/// A failure names its stream and reason, and leaves the streams as they are.
pub proof fn failure_names_its_cause(v: BackendView, stream: Seq<char>, reason: Seq<char>)
    ensures
        ({
            let w = v.lost(stream, reason);
            &&& w.failed
            &&& w.detail == Some((stream, reason))
            &&& w.state == StateView::Failed(stream, reason)
            &&& w.capture_active == v.capture_active && w.playback_active == v.playback_active
            &&& w.latch == v.latch
        }),
{
}

/// A healthy backend goes where it is found; a failed one stays failed for the
/// same cause.
pub proof fn findings_move_only_a_healthy_backend(v: BackendView, reason: Seq<char>)
    ensures
        v.failed ==> v.running() == v && v.degraded(reason) == v,
        !v.failed ==> v.running().state is Running && v.degraded(reason).state
            == StateView::Degraded(reason),
        v.running().capture_active == v.capture_active,
        v.running().playback_active == v.playback_active,
        v.running().latch == v.latch,
        v.degraded(reason).latch == v.latch,
        v.running().failed == v.failed && v.running().detail == v.detail,
        v.degraded(reason).failed == v.failed && v.degraded(reason).detail == v.detail,
{
}

/// A reconnection takes the failure back, tells how far it is, and waits for
/// both streams anew; a shutdown silences both and keeps what is known of a
/// failure.
pub proof fn reconnection_and_shutdown_silence_both(
    v: BackendView,
    attempt: u32,
    total: u32,
    backoff: nat,
)
    ensures
        ({
            let w = v.reconnecting(attempt, total, backoff);
            &&& !w.failed && w.detail is None
            &&& w.state == StateView::Reconnecting(attempt, total, backoff)
            &&& !w.capture_active && !w.playback_active
            &&& w.latch is Some <==> v.latch is Some
            &&& w.latch matches Some(l) ==> !l.capture && !l.playback
        }),
        ({
            let w = v.terminated();
            &&& w.state is Terminated
            &&& !w.capture_active && !w.playback_active
            &&& w.failed == v.failed && w.detail == v.detail
            &&& w.latch matches Some(l) ==> !l.capture && !l.playback
        }),
        ({
            let w = BackendView::fresh();
            &&& !w.failed && w.detail is None && w.state is Starting
            &&& !w.capture_active && !w.playback_active && w.latch is None
        }),
{
}

/// The failure flag is up in a failed state and in no other but the last, where
/// it keeps what it was; and a failure, and only a failure, has a detail.
pub proof fn flag_and_detail_tell_a_failure(v: BackendView)
    requires
        v.coherent(),
    ensures
        v.state is Failed ==> v.failed,
        v.state is Starting || v.state is Running || v.state is Degraded || v.state
            is Reconnecting ==> !v.failed,
        v.failed <==> v.detail is Some,
        v.latch matches Some(l) ==> l.capture == v.capture_active && l.playback
            == v.playback_active,
{
}

/// The control plane is woken by every change of state, and by every failure
/// that is reported, also a repeated one.
pub proof fn changes_and_failures_wake(
    v: BackendView,
    stream: Seq<char>,
    old_state: StreamState,
    new_state: StreamState,
    shutting_down: bool,
)
    ensures
        ({
            let w = stream_observed(v, stream, old_state, new_state, shutting_down);
            let wakes = observation_wakes(v, w, old_state, new_state, shutting_down);
            &&& w.state != v.state ==> wakes
            &&& new_state is Error ==> wakes
            &&& w == v && !(new_state is Error) && !(new_state is Unconnected) ==> !wakes
        }),
{
    names_differ();
}

/// A snapshot is believed exactly where a failed state comes with the flag and
/// the detail, and a healthy one without the flag.
pub proof fn believed_snapshots_tell_the_truth(s: BackendStatusSnapshot)
    ensures
        s.state is Failed ==> (s.coherent() <==> s.failed && s.failure is Some),
        s.state is Starting || s.state is Running || s.state is Degraded || s.state
            is Reconnecting ==> (s.coherent() <==> !s.failed),
        s.state is Terminated ==> s.coherent(),
        flag_agrees(s.state@, s.failed) || flag_agrees(s.state@, !s.failed),
{
}

} // verus!
