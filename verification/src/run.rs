//! The host's session: one instance of the streams after the other, as long as
//! the reconnection budget lasts.

use vstd::prelude::*;
use vstd::string::*;

use crate::duration::Duration;
use crate::reconnect::{total_wait_is_bounded, ReconnectCycle, ReconnectPolicy};
use crate::rt_status::{RtStatusFlags, RT_STATUS_PANIC_CAPTURED};
use crate::status::{
    observe_rt_panic, panic_reason, panic_stream, BackendView, SharedBackendStatus, };

verus! {

/// Longest time without looking for a shutdown while waiting, in milliseconds.
pub const SLEEP_SLICE_MS: u64 = 25;

/// What ended an instance of the streams, or kept it from starting.
#[derive(Debug, Clone, PartialEq, Eq)]
pub enum InstanceEnd {
    /// The audio server could not be reached, for this reason.
    ConnectFailed(String),
    /// The backend failed on a stream, for a reason.
    BackendFailed(String, String),
    /// The user asked for a shutdown.
    Shutdown,
}

/// What the session does next.
#[derive(Debug, Clone, PartialEq, Eq)]
pub enum NextStep {
    /// Give the startup error to the caller: nothing was running yet.
    StartupError,
    /// Wait, then start another instance.
    Reconnect(Duration),
    /// End with an error on a stream, for a reason.
    Fail(String, String),
    /// End well.
    Finish,
}

/// The reason given when the audio server stays unreachable.
pub open spec fn unreachable_reason(err: Seq<char>) -> Seq<char> {
    "daemon unreachable: "@ + err
}

/// The stream name and the reason under which an instance's end is reported.
pub open spec fn end_report(end: InstanceEnd) -> (Seq<char>, Seq<char>) {
    match end {
        InstanceEnd::ConnectFailed(err) => ("core"@, unreachable_reason(err@)),
        InstanceEnd::BackendFailed(stream, reason) => (stream@, reason@),
        InstanceEnd::Shutdown => (Seq::empty(), Seq::empty()),
    }
}

/// Whether the end is the failure of the very first connection.
pub open spec fn is_startup_failure(end: InstanceEnd, cycle: ReconnectCycle) -> bool {
    end is ConnectFailed && cycle.attempts_spec() == 0
}

/// Whether `step` is what the session does after an instance ended: a failed
/// first connection is an error, a shutdown ends well, and any other loss is
/// answered by another try while the budget lasts, and by an error after.
pub open spec fn next_step_is(end: InstanceEnd, cycle: ReconnectCycle, step: NextStep) -> bool {
    if end is Shutdown {
        step is Finish
    } else if is_startup_failure(end, cycle) {
        step is StartupError
    } else if cycle.can_retry_spec() {
        step matches NextStep::Reconnect(wait) && wait@ == cycle.policy_spec().backoff(
            cycle.attempts_spec() + 1,
        )
    } else {
        step matches NextStep::Fail(stream, reason) && (stream@, reason@) == end_report(end)
    }
}

/// Decides what the session does after an instance ended, and reports a
/// reconnection to the backend's status.
pub fn after_instance(
    end: InstanceEnd,
    cycle: &mut ReconnectCycle,
    backend: &mut SharedBackendStatus,
) -> (step: NextStep)
    ensures
        next_step_is(end, *old(cycle), step),
        final(cycle).policy_spec() == old(cycle).policy_spec(),
        final(cycle).attempts_spec() == old(cycle).attempts_spec() + (if step is Reconnect {
            1int
        } else {
            0
        }),
        final(backend)@ == match step {
            NextStep::Reconnect(wait) => old(backend)@.reconnecting(
                final(cycle).attempts_spec(),
                old(cycle).policy_spec().max_attempts,
                wait@,
            ),
            _ => old(backend)@,
        },
        old(backend)@.coherent() ==> final(backend)@.coherent(),
{
    let (stream, reason) = match end {
        InstanceEnd::Shutdown => {
            return NextStep::Finish;
        },
        InstanceEnd::ConnectFailed(err) => {
            if cycle.attempts_made() == 0 {
                return NextStep::StartupError;
            }
            let mut reason = "daemon unreachable: ".to_owned();
            reason.append(err.as_str());
            ("core".to_owned(), reason)
        },
        InstanceEnd::BackendFailed(stream, reason) => (stream, reason),
    };
    match cycle.begin_attempt() {
        Some(wait) => {
            backend.begin_reconnect(cycle.attempts_made(), cycle.policy().max_attempts, wait);
            NextStep::Reconnect(wait)
        },
        None => NextStep::Fail(stream, reason),
    }
}

/// A step of an interruptible wait.
#[derive(Clone, Copy, Debug, PartialEq, Eq)]
pub enum SleepStep {
    /// A shutdown was asked for: stop waiting.
    Interrupted,
    /// The time is over.
    Elapsed,
    /// Sleep so long, then ask again.
    Sleep(Duration),
}

/// Decides the next step of a wait that is over at `deadline`, both times in
/// nanoseconds of one clock: never a sleep longer than a slice, so that a
/// shutdown is noticed soon, and never one past the deadline.
pub fn sleep_step(shutting_down: bool, now: u128, deadline: u128) -> (r: SleepStep)
    ensures
        r is Interrupted == shutting_down,
        r is Elapsed == (!shutting_down && now >= deadline),
        r matches SleepStep::Sleep(d) ==> 0 < d@ <= SLEEP_SLICE_MS * 1_000_000 && now + d@
            <= deadline && (d@ == SLEEP_SLICE_MS * 1_000_000 || now + d@ == deadline),
{
    if shutting_down {
        return SleepStep::Interrupted;
    }
    if now >= deadline {
        return SleepStep::Elapsed;
    }
    let remaining: u128 = deadline - now;
    let slice = Duration::from_millis(SLEEP_SLICE_MS);
    if remaining < slice.as_nanos() {
        SleepStep::Sleep(Duration::from_nanos(remaining))
    } else {
        SleepStep::Sleep(slice)
    }
}

/// How a session ends.
#[derive(Debug, Clone, PartialEq, Eq)]
pub enum SessionEnd {
    /// Well.
    Clean,
    /// With this error.
    Error(String),
}

/// The error of a failed session.
pub open spec fn session_error(stream: Seq<char>, reason: Seq<char>) -> Seq<char> {
    "PipeWire backend failed ("@ + stream + "): "@ + reason
}

/// Ends the session: the backend counts as shut down, and a failure becomes the
/// host's error.
pub fn finish_session(
    failure: Option<(String, String)>,
    backend: &mut SharedBackendStatus,
) -> (r: SessionEnd)
    ensures
        final(backend)@ == old(backend)@.terminated(),
        match failure {
            None => r is Clean,
            Some(f) => r matches SessionEnd::Error(e) && e@ == session_error(f.0@, f.1@),
        },
        old(backend)@.coherent() ==> final(backend)@.coherent(),
{
    backend.mark_terminated();
    match failure {
        None => SessionEnd::Clean,
        Some((stream, reason)) => {
            let mut out = "PipeWire backend failed (".to_owned();
            out.append(stream.as_str());
            out.append("): ");
            out.append(reason.as_str());
            SessionEnd::Error(out)
        },
    }
}

/// What one round of the control loop comes to.
#[derive(Debug, Clone, PartialEq, Eq)]
pub enum ControlRound {
    /// The instance is over.
    End(InstanceEnd),
    /// Serve the requests of the audio callback, and announce this rate, where
    /// one is running.
    Work(Option<u32>),
}

/// The backend as a round finds it: failed, where a panic was contained.
pub open spec fn backend_in_round(s: RtStatusFlags, v: BackendView) -> BackendView {
    if s.has(RT_STATUS_PANIC_CAPTURED) {
        v.lost(panic_stream(), panic_reason())
    } else {
        v
    }
}

/// Begins a round of the control loop. A shutdown comes first, then a failure
/// of the backend; a panic that was contained in a callback is one.
pub fn begin_round(
    shutting_down: bool,
    status: &RtStatusFlags,
    backend: &mut SharedBackendStatus,
) -> (r: ControlRound)
    ensures
        old(backend)@.coherent() ==> final(backend)@.coherent(),
        final(backend)@ == if shutting_down {
            old(backend)@
        } else {
            backend_in_round(*status, old(backend)@)
        },
        r matches ControlRound::End(InstanceEnd::Shutdown) <==> shutting_down,
        (r matches ControlRound::End(InstanceEnd::BackendFailed(stream, reason)) && Some(
            (stream@, reason@),
        ) == final(backend)@.detail) <==> !shutting_down && final(backend)@.failed && final(backend)@.detail is Some,
        r matches ControlRound::Work(rate) ==> rate == (if status.active_rate != 0 {
            Some(status.active_rate)
        } else {
            None
        }),
        r is Work <==> !shutting_down && !(final(backend)@.failed && final(backend)@.detail
            is Some),
{
    if shutting_down {
        return ControlRound::End(InstanceEnd::Shutdown);
    }
    observe_rt_panic(status, backend);
    match backend.failure() {
        Some((stream, reason)) => ControlRound::End(InstanceEnd::BackendFailed(stream, reason)),
        None => ControlRound::Work(
            if status.active_rate != 0 {
                Some(status.active_rate)
            } else {
                None
            },
        ),
    }
}

/// Whether an end is answered by a reconnection, `made` tries having been made
/// before.
pub open spec fn reconnects(end: InstanceEnd, policy: ReconnectPolicy, made: int) -> bool {
    !(end is Shutdown) && !(end is ConnectFailed && made == 0) && !policy.is_disabled_spec()
        && made < policy.max_attempts
}

/// Whether the session goes on through all these ends, in order.
pub open spec fn survives(ends: Seq<InstanceEnd>, policy: ReconnectPolicy, made: int) -> bool
    decreases ends.len(),
{
    ends.len() == 0 || (reconnects(ends[0], policy, made) && survives(
        ends.drop_first(),
        policy,
        made + 1,
    ))
}

/// The session reconnects after an end exactly where `reconnects` says so.
pub proof fn step_follows_the_budget(end: InstanceEnd, cycle: ReconnectCycle, step: NextStep)
    requires
        next_step_is(end, cycle, step),
    ensures
        (step is Reconnect) == reconnects(end, cycle.policy_spec(), cycle.attempts_spec() as int),
{
}

/// A session survives at most as many ends as its policy allows tries, however
/// they come, and waits at most so many times the longest wait.
pub proof fn session_is_bounded(ends: Seq<InstanceEnd>, policy: ReconnectPolicy, made: nat)
    requires
        survives(ends, policy, made as int),
    ensures
        ends.len() == 0 || made + ends.len() <= policy.max_attempts,
        policy.backoff_sum(made + ends.len()) <= (made + ends.len()) * policy.max_backoff@,
    decreases ends.len(),
{
    if ends.len() > 0 {
        session_is_bounded(ends.drop_first(), policy, made + 1);
    }
    total_wait_is_bounded(policy, made + ends.len());
}

/// A policy without second tries never reconnects.
pub proof fn fail_fast_never_reconnects(end: InstanceEnd, cycle: ReconnectCycle, step: NextStep)
    requires
        next_step_is(end, cycle, step),
        cycle.policy_spec().is_disabled_spec(),
    ensures
        !(step is Reconnect),
{
}

/// A shutdown ends the session well; a connection that never was is a startup
/// error; any other loss is tried again, after the wait of the next try, while
/// tries are allowed and left, and named as the session's failure after.
pub proof fn losses_are_tried_again_within_the_budget(
    end: InstanceEnd,
    cycle: ReconnectCycle,
    step: NextStep,
)
    requires
        next_step_is(end, cycle, step),
    ensures
        ({
            let policy = cycle.policy_spec();
            let made = cycle.attempts_spec();
            let left = policy.enabled && made < policy.max_attempts;
            &&& end is Shutdown <==> step is Finish
            &&& end is ConnectFailed && made == 0 <==> step is StartupError
            &&& end is BackendFailed && left ==> step is Reconnect
            &&& end is ConnectFailed && made > 0 && left ==> step is Reconnect
            &&& (end is BackendFailed || (end is ConnectFailed && made > 0)) && !left ==> step
                is Fail
            &&& step matches NextStep::Reconnect(wait) ==> wait@ <= policy.max_backoff@ && (made
                == 0 && policy.initial_backoff@ <= policy.max_backoff@ ==> wait@
                == policy.initial_backoff@)
            &&& step is Fail && end is BackendFailed ==> step->Fail_0@ == end->BackendFailed_0@
                && step->Fail_1@ == end->BackendFailed_1@
        }),
{
    crate::reconnect::waits_double_up_to_the_ceiling(cycle.policy_spec(), 1);
    crate::reconnect::backoff_is_bounded(cycle.policy_spec(), cycle.attempts_spec() + 1);
}

/// A contained panic fails the backend, and nothing else does in a round.
pub proof fn contained_panic_fails_the_backend(s: RtStatusFlags, v: BackendView)
    ensures
        s.has(RT_STATUS_PANIC_CAPTURED) ==> backend_in_round(s, v).failed && backend_in_round(
            s,
            v,
        ).detail is Some && backend_in_round(s, v).state is Failed,
        !s.has(RT_STATUS_PANIC_CAPTURED) ==> backend_in_round(s, v) == v,
{
}

} // verus!
