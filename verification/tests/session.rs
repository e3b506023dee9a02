use nam_audio_pipe::duration::Duration;
use nam_audio_pipe::reconnect::{ReconnectCycle, ReconnectPolicy, PRODUCTION_MAX_ATTEMPTS};
use nam_audio_pipe::rt_status::{RtStatusFlags, RT_STATUS_PANIC_CAPTURED};
use nam_audio_pipe::run::{
    after_instance, begin_round, finish_session, sleep_step, ControlRound, InstanceEnd, NextStep,
    SessionEnd, SleepStep,
};
use nam_audio_pipe::status::{BackendState, SharedBackendStatus};
use nam_audio_pipe::wakeup::{wait_limit, wakeup_came, ControlPlaneWakeup};

#[test]
fn production_defaults_are_bounded_and_enabled() {
    let policy = ReconnectPolicy::production();
    assert!(policy.enabled);
    assert_eq!(policy.max_attempts, 3);
    assert_eq!(policy.initial_backoff, Duration::from_millis(250));
    assert_eq!(policy.max_backoff, Duration::from_millis(1000));
    assert!(!policy.is_disabled());
    assert_eq!(ReconnectPolicy::default(), policy);
}

#[test]
fn fail_fast_policy_is_disabled() {
    let policy = ReconnectPolicy::fail_fast();
    assert!(!policy.enabled);
    assert_eq!(policy.max_attempts, 0);
    assert!(policy.is_disabled());
    assert_eq!(policy.total_backoff_budget(), Duration::zero());
}

#[test]
fn backoff_schedule_follows_progressive_doubling_capped_at_max() {
    let policy = ReconnectPolicy::production();
    assert_eq!(policy.backoff_for_attempt(1), Duration::from_millis(250));
    assert_eq!(policy.backoff_for_attempt(2), Duration::from_millis(500));
    assert_eq!(policy.backoff_for_attempt(3), Duration::from_millis(1000));
    assert_eq!(policy.backoff_for_attempt(4), Duration::from_millis(1000));
    assert_eq!(policy.backoff_for_attempt(100), Duration::from_millis(1000));
}

#[test]
fn backoff_never_overflows_for_any_attempt_number() {
    let policy = ReconnectPolicy::production();
    for attempt in [u32::MAX, 1u32 << 30, 1u32 << 31] {
        let backoff = policy.backoff_for_attempt(attempt);
        assert!(backoff <= policy.max_backoff);
        assert!(backoff.as_millis() > 0);
    }
}

#[test]
fn custom_policy_respects_initial_and_max_backoff() {
    let policy = ReconnectPolicy {
        max_attempts: 4,
        initial_backoff: Duration::from_millis(100),
        max_backoff: Duration::from_millis(300),
        enabled: true,
    };
    assert_eq!(policy.backoff_for_attempt(1), Duration::from_millis(100));
    assert_eq!(policy.backoff_for_attempt(2), Duration::from_millis(200));
    assert_eq!(policy.backoff_for_attempt(3), Duration::from_millis(300));
    assert_eq!(policy.backoff_for_attempt(4), Duration::from_millis(300));
}

#[test]
fn total_backoff_budget_is_the_hard_time_ceiling() {
    let policy = ReconnectPolicy::production();
    assert_eq!(policy.total_backoff_budget(), Duration::from_millis(1750));
}

#[test]
fn cycle_hands_out_exactly_max_attempts_backoffs_then_none() {
    let mut cycle = ReconnectCycle::new(ReconnectPolicy::production());
    assert!(cycle.can_retry());
    assert_eq!(cycle.attempts_made(), 0);

    assert_eq!(cycle.begin_attempt(), Some(Duration::from_millis(250)));
    assert_eq!(cycle.begin_attempt(), Some(Duration::from_millis(500)));
    assert_eq!(cycle.begin_attempt(), Some(Duration::from_millis(1000)));
    assert_eq!(cycle.attempts_made(), 3);

    assert!(!cycle.can_retry());
    assert_eq!(cycle.begin_attempt(), None);
    assert_eq!(cycle.begin_attempt(), None, "budget exhausted: no more retries");
}

#[test]
fn cycle_with_disabled_policy_never_retries() {
    let mut cycle = ReconnectCycle::new(ReconnectPolicy::fail_fast());
    assert!(!cycle.can_retry());
    assert_eq!(cycle.begin_attempt(), None);
    assert_eq!(cycle.attempts_made(), 0);
}

#[test]
fn simulated_reconnect_recovers_without_losing_carried_state() {
    let mut cycle = ReconnectCycle::new(ReconnectPolicy::production());
    let mut generation = 0u64;
    let mut failed_once = true;

    let mut attempts = 0u32;
    let outcome: Result<u64, &str> = loop {
        let Some(_backoff) = cycle.begin_attempt() else {
            break Err("reconnect budget exhausted");
        };
        attempts += 1;
        generation += 1;
        if failed_once {
            failed_once = false;
            continue;
        }
        break Ok(generation);
    };

    assert_eq!(outcome, Ok(2), "audio resumes with the carried state intact");
    assert_eq!(attempts, 2, "recovery consumed exactly 2 of the 3 attempts");
    assert_eq!(cycle.attempts_made(), 2);
    assert!(cycle.can_retry(), "remaining budget is preserved for later drops");
}

#[test]
fn simulated_exhaustion_terminates_cleanly_with_error_outcome() {
    let mut cycle = ReconnectCycle::new(ReconnectPolicy::production());
    let mut attempts = 0u32;
    let outcome: Result<(), &str> = loop {
        let Some(backoff) = cycle.begin_attempt() else {
            break Err("daemon unreachable after all retries");
        };
        attempts += 1;
        assert!(backoff <= Duration::from_millis(1000));
    };

    assert!(outcome.is_err());
    assert_eq!(attempts, PRODUCTION_MAX_ATTEMPTS);
    assert_eq!(cycle.attempts_made(), PRODUCTION_MAX_ATTEMPTS);
    assert!(!cycle.can_retry());
}

#[test]
fn simulated_stream_setup_failure_stages_during_reconnect_route_through_budget() {
    for stage in ["capture_setup", "playback_setup", "stream_connect"] {
        let mut cycle = ReconnectCycle::new(ReconnectPolicy::production());
        let mut backend_status = SharedBackendStatus::new();
        assert_eq!(cycle.attempts_made(), 0);

        let backoff1 = cycle.begin_attempt().expect("attempt 1 backoff");
        backend_status.begin_reconnect(cycle.attempts_made(), 3, backoff1);
        assert_eq!(cycle.attempts_made(), 1);

        let setup_err = format!("simulated {stage} error");
        let step = after_instance(
            InstanceEnd::ConnectFailed(setup_err),
            &mut cycle,
            &mut backend_status,
        );
        assert_eq!(cycle.attempts_made(), 2);
        assert_eq!(step, NextStep::Reconnect(Duration::from_millis(500)));
        assert!(matches!(backend_status.state(), BackendState::Reconnecting { attempt: 2, .. }));

        assert!(cycle.can_retry());
    }
}

#[test]
fn stream_setup_failure_on_initial_attempt_fails_fast() {
    let mut cycle = ReconnectCycle::new(ReconnectPolicy::production());
    assert_eq!(cycle.attempts_made(), 0);

    let setup_failed_on_startup = cycle.attempts_made() == 0;
    assert!(setup_failed_on_startup, "initial attempt must trigger immediate error return");

    let mut backend = SharedBackendStatus::new();
    let end = InstanceEnd::ConnectFailed("no daemon".to_string());
    assert_eq!(after_instance(end, &mut cycle, &mut backend), NextStep::StartupError);
    assert_eq!(cycle.attempts_made(), 0);
    assert_eq!(backend.state(), BackendState::Starting);
}

#[test]
fn session_reconnects_until_the_budget_is_spent() {
    let mut cycle = ReconnectCycle::new(ReconnectPolicy::production());
    let mut backend = SharedBackendStatus::new();
    for millis in [250u64, 500, 1000] {
        let lost = InstanceEnd::BackendFailed("capture".to_string(), "gone".to_string());
        assert_eq!(
            after_instance(lost, &mut cycle, &mut backend),
            NextStep::Reconnect(Duration::from_millis(millis))
        );
    }
    let lost = InstanceEnd::ConnectFailed("refused".to_string());
    let step = after_instance(lost, &mut cycle, &mut backend);
    assert_eq!(
        step,
        NextStep::Fail("core".to_string(), "daemon unreachable: refused".to_string())
    );
    assert_eq!(after_instance(InstanceEnd::Shutdown, &mut cycle, &mut backend), NextStep::Finish);
}

#[test]
fn fail_fast_session_ends_on_the_first_failure() {
    let mut cycle = ReconnectCycle::new(ReconnectPolicy::for_session(true));
    let mut backend = SharedBackendStatus::new();
    let lost = InstanceEnd::BackendFailed("playback".to_string(), "xrun".to_string());
    assert_eq!(
        after_instance(lost, &mut cycle, &mut backend),
        NextStep::Fail("playback".to_string(), "xrun".to_string())
    );
    assert_eq!(ReconnectPolicy::for_session(false), ReconnectPolicy::production());
}

#[test]
fn a_finished_session_reports_its_failure() {
    let mut backend = SharedBackendStatus::new();
    assert_eq!(finish_session(None, &mut backend), SessionEnd::Clean);
    assert_eq!(backend.state(), BackendState::Terminated);
    let failure = Some(("capture".to_string(), "lost".to_string()));
    assert_eq!(
        finish_session(failure, &mut backend),
        SessionEnd::Error("PipeWire backend failed (capture): lost".to_string())
    );
}

#[test]
fn waiting_goes_by_slices_and_stops_for_a_shutdown() {
    assert_eq!(sleep_step(true, 0, 100), SleepStep::Interrupted);
    assert_eq!(sleep_step(false, 100, 100), SleepStep::Elapsed);
    assert_eq!(
        sleep_step(false, 0, 250_000_000),
        SleepStep::Sleep(Duration::from_millis(25))
    );
    assert_eq!(
        sleep_step(false, 240_000_000, 250_000_000),
        SleepStep::Sleep(Duration::from_millis(10))
    );
}

#[test]
fn backoff_never_shrinks_and_counts_from_one() {
    let policy = ReconnectPolicy::production();
    assert_eq!(policy.backoff_for_attempt(0), Duration::from_millis(250));
    let mut last = Duration::zero();
    for attempt in 1u32..40 {
        let backoff = policy.backoff_for_attempt(attempt);
        assert!(last <= backoff);
        last = backoff;
    }
}

#[test]
fn wakeup_times_out_when_no_notification() {
    let wakeup = ControlPlaneWakeup::new();
    let t0 = std::time::Instant::now();
    let notified = wakeup.wait_timeout(Duration::from_millis(20));
    let elapsed = t0.elapsed();

    assert!(!notified, "should report timed out");
    assert!(
        elapsed >= std::time::Duration::from_millis(18),
        "timeout returned too early: {elapsed:?}"
    );
}

#[test]
fn a_notification_without_a_waiter_is_not_kept() {
    let wakeup = ControlPlaneWakeup::new();
    wakeup.clone().notify();
    assert!(!wakeup.wait_timeout(Duration::from_millis(1)));
}

#[test]
fn waits_double_to_the_nanosecond() {
    let policy = ReconnectPolicy {
        max_attempts: 4,
        initial_backoff: Duration::from_nanos(1_500_000),
        max_backoff: Duration::from_nanos(5_000_001),
        enabled: true,
    };
    assert_eq!(policy.backoff_for_attempt(0), Duration::from_nanos(1_500_000));
    assert_eq!(policy.backoff_for_attempt(1), Duration::from_nanos(1_500_000));
    assert_eq!(policy.backoff_for_attempt(2), Duration::from_millis(3));
    assert_eq!(policy.backoff_for_attempt(3), Duration::from_nanos(5_000_001));
    assert_eq!(policy.backoff_for_attempt(u32::MAX), Duration::from_nanos(5_000_001));
    assert_eq!(policy.total_backoff_budget(), Duration::from_nanos(14_500_002));
    let idle = ReconnectPolicy { initial_backoff: Duration::zero(), ..policy };
    assert_eq!(idle.backoff_for_attempt(u32::MAX), Duration::zero());
    let endless = ReconnectPolicy {
        max_attempts: 3,
        initial_backoff: Duration::from_nanos(u128::MAX),
        max_backoff: Duration::from_nanos(u128::MAX),
        enabled: true,
    };
    assert_eq!(endless.backoff_for_attempt(2), Duration::from_nanos(u128::MAX));
    assert_eq!(endless.total_backoff_budget(), Duration::from_nanos(u128::MAX));
}

#[test]
fn a_wait_is_bounded_and_tells_a_wakeup_from_a_timeout() {
    assert_eq!(wait_limit(Duration::from_millis(100)), (0, 100_000_000));
    assert_eq!(wait_limit(Duration::from_millis(u64::MAX)), (18_446_744_073_709_551, 615_000_000));
    assert_eq!(wait_limit(Duration::from_nanos(u128::MAX)), (u64::MAX, 999_999_999));
    assert!(wakeup_came(Some(false)));
    assert!(!wakeup_came(Some(true)));
    assert!(!wakeup_came(None));
}

#[test]
fn a_round_ends_the_instance_or_serves_it() {
    let mut status = RtStatusFlags::new();
    let mut backend = SharedBackendStatus::new();
    assert_eq!(begin_round(false, &status, &mut backend), ControlRound::Work(None));
    status.active_rate = 44100;
    assert_eq!(begin_round(false, &status, &mut backend), ControlRound::Work(Some(44100)));
    backend.mark_failed("capture", "gone".to_string());
    assert_eq!(
        begin_round(true, &status, &mut backend),
        ControlRound::End(InstanceEnd::Shutdown)
    );
    assert_eq!(
        begin_round(false, &status, &mut backend),
        ControlRound::End(InstanceEnd::BackendFailed("capture".to_string(), "gone".to_string()))
    );
    status.set_flag(RT_STATUS_PANIC_CAPTURED);
    let mut healthy = SharedBackendStatus::new();
    match begin_round(false, &status, &mut healthy) {
        ControlRound::End(InstanceEnd::BackendFailed(stream, _)) => {
            assert_eq!(stream, "rt_callback");
        }
        other => panic!("the panic went unseen: {other:?}"),
    }
    assert!(healthy.is_failed());
}
