use nam_audio_pipe::duration::Duration;
use nam_audio_pipe::rt_status::{
    RtStatusFlags, RT_STATUS_HOST_CONTRACT_VIOLATION, RT_STATUS_PANIC_CAPTURED,
};
use nam_audio_pipe::status::{
    observe_rt_panic, observe_stream_state, playback_state_changed_handler, state_changed_handler,
    ActivityLatch, BackendState, BackendStatusSnapshot, SharedBackendStatus, StreamState,
};
use nam_audio_pipe::stream_status::{
    mark_format_contract_ok, mark_stream_active, reject_negotiated_format_violation,
    StreamStatusFlags,
};

fn failure(stream: &str, reason: &str) -> Option<(String, String)> {
    Some((stream.to_string(), reason.to_string()))
}

#[test]
fn new_defaults_to_starting_and_healthy() {
    let backend = SharedBackendStatus::new();
    assert_eq!(backend.state(), BackendState::Starting);
    assert!(!backend.is_failed());
    assert_eq!(backend.failure(), None);
}

#[test]
fn mark_running_and_degraded_are_observable() {
    let mut backend = SharedBackendStatus::new();
    backend.mark_running();
    assert_eq!(backend.state(), BackendState::Running);
    assert!(!backend.is_failed());

    backend.mark_degraded("SPA format contract violated on capture: NotStereo(1)".to_string());
    assert_eq!(
        backend.state(),
        BackendState::Degraded {
            reason: "SPA format contract violated on capture: NotStereo(1)".into(),
        }
    );
    assert!(!backend.is_failed());
}

#[test]
fn mark_failed_is_sticky_and_exposes_detail() {
    let mut backend = SharedBackendStatus::new();
    backend.mark_failed("capture", "daemon disconnected".to_string());
    assert!(backend.is_failed());
    assert_eq!(backend.failure(), failure("capture", "daemon disconnected"));
    assert_eq!(
        backend.state(),
        BackendState::Failed {
            stream: "capture".into(),
            reason: "daemon disconnected".into(),
        }
    );

    backend.mark_running();
    backend.mark_degraded("late recovery attempt".to_string());
    assert!(backend.is_failed());
    assert_eq!(backend.failure(), failure("capture", "daemon disconnected"));
}

#[test]
fn mark_terminated_closes_lifecycle() {
    let mut backend = SharedBackendStatus::new();
    backend.mark_running();
    backend.mark_terminated();
    assert_eq!(backend.state(), BackendState::Terminated);
}

#[test]
fn begin_reconnect_clears_failure_and_publishes_reconnecting() {
    let mut backend = SharedBackendStatus::new();
    backend.mark_failed("capture", "daemon restart".to_string());
    assert!(backend.is_failed());

    backend.begin_reconnect(1, 3, Duration::from_millis(250));
    assert!(!backend.is_failed(), "sticky failure cleared for recovery");
    assert_eq!(backend.failure(), None, "failure detail cleared for recovery");
    assert_eq!(
        backend.state(),
        BackendState::Reconnecting {
            attempt: 1,
            total_attempts: 3,
            next_backoff: Duration::from_millis(250),
        }
    );
}

#[test]
fn successful_reconnect_returns_backend_to_running() {
    let mut backend = SharedBackendStatus::new();
    backend.mark_failed("playback", "stream disconnected from the audio backend".to_string());
    backend.begin_reconnect(1, 3, Duration::from_millis(250));
    backend.mark_running();
    assert_eq!(backend.state(), BackendState::Running);
    assert!(!backend.is_failed());
}

#[test]
fn failure_after_successful_reconnect_is_observable_again() {
    let mut backend = SharedBackendStatus::new();
    backend.begin_reconnect(1, 3, Duration::from_millis(250));
    backend.mark_running();
    observe_stream_state(
        "capture",
        &StreamState::Streaming,
        StreamState::Error("daemon died again".into()),
        false,
        &mut backend,
    );
    assert!(backend.is_failed());
    assert_eq!(backend.failure(), failure("capture", "daemon died again"));
}

#[test]
fn observe_error_transitions_to_failed() {
    let mut backend = SharedBackendStatus::new();
    observe_stream_state(
        "capture",
        &StreamState::Streaming,
        StreamState::Error("connection reset by peer".into()),
        false,
        &mut backend,
    );
    assert!(backend.is_failed());
    assert_eq!(backend.failure(), failure("capture", "connection reset by peer"));
}

#[test]
fn observe_unconnected_after_streaming_marks_failed() {
    let mut backend = SharedBackendStatus::new();
    observe_stream_state(
        "playback",
        &StreamState::Streaming,
        StreamState::Unconnected,
        false,
        &mut backend,
    );
    assert!(backend.is_failed());
    assert_eq!(
        backend.failure(),
        failure("playback", "stream disconnected from the audio backend")
    );
}

#[test]
fn observe_unconnected_after_paused_marks_failed() {
    let mut backend = SharedBackendStatus::new();
    observe_stream_state(
        "capture",
        &StreamState::Paused,
        StreamState::Unconnected,
        false,
        &mut backend,
    );
    assert!(backend.is_failed());
    assert!(backend.failure().is_some());
}

#[test]
fn observe_initial_unconnected_transition_is_not_fatal() {
    let mut backend = SharedBackendStatus::new();
    observe_stream_state(
        "capture",
        &StreamState::Unconnected,
        StreamState::Connecting,
        false,
        &mut backend,
    );
    assert!(!backend.is_failed());
    assert_eq!(backend.state(), BackendState::Starting);
}

#[test]
fn observe_streaming_transition_marks_running() {
    let mut backend = SharedBackendStatus::new();
    for stream in ["playback", "capture"] {
        observe_stream_state(
            stream,
            &StreamState::Paused,
            StreamState::Streaming,
            false,
            &mut backend,
        );
    }
    assert_eq!(backend.state(), BackendState::Running);
    assert!(!backend.is_failed());
}

#[test]
fn observe_pause_transition_is_transient() {
    let mut backend = SharedBackendStatus::new();
    backend.mark_running();
    observe_stream_state(
        "capture",
        &StreamState::Streaming,
        StreamState::Paused,
        false,
        &mut backend,
    );
    assert!(!backend.is_failed());
    assert_eq!(backend.state(), BackendState::Starting);
}

#[test]
fn a_disconnection_of_our_own_is_no_failure() {
    let mut backend = SharedBackendStatus::new();
    backend.set_stream_active("capture", true);
    backend.set_stream_active("playback", true);
    let wake = observe_stream_state(
        "capture",
        &StreamState::Streaming,
        StreamState::Unconnected,
        true,
        &mut backend,
    );
    assert!(wake);
    assert!(!backend.is_failed());
    assert_eq!(backend.state(), BackendState::Starting);
}

#[test]
fn every_interleaving_of_transitions_stays_coherent() {
    for first in 0u32..6 {
        for second in 0u32..6 {
            for third in 0u32..6 {
                let mut backend = SharedBackendStatus::with_rt_status();
                for step in [first, second, third] {
                    match step {
                        0 => backend.mark_failed("capture", "restart".to_string()),
                        1 => backend.mark_running(),
                        2 => backend.mark_degraded("violation".to_string()),
                        3 => backend.begin_reconnect(1, 3, Duration::from_millis(1)),
                        4 => backend.set_stream_active("capture", true),
                        _ => backend.set_stream_active("playback", true),
                    };
                    assert!(backend.snapshot().invariants_hold());
                }
            }
        }
    }
}

#[test]
fn the_activity_latches_follow_the_streams() {
    let mut backend = SharedBackendStatus::new();
    assert_eq!(backend.rt_latch(), None);
    backend.set_stream_active("capture", true);
    backend.bind_rt_status();
    assert_eq!(backend.rt_latch(), Some(ActivityLatch { capture: true, playback: false }));
    backend.set_stream_active("playback", true);
    assert_eq!(backend.rt_latch(), Some(ActivityLatch { capture: true, playback: true }));
    backend.begin_reconnect(1, 3, Duration::zero());
    assert_eq!(backend.rt_latch(), Some(ActivityLatch { capture: false, playback: false }));
    let mut streams = StreamStatusFlags::new();
    mark_stream_active(&mut streams, "playback", false);
    assert!(!streams.is_audio_unmuted());
}

#[test]
fn a_contained_panic_fails_the_backend() {
    let mut status = RtStatusFlags::new();
    let mut backend = SharedBackendStatus::new();
    assert!(!observe_rt_panic(&status, &mut backend));
    assert!(!backend.is_failed());
    status.set_flag(RT_STATUS_PANIC_CAPTURED);
    assert!(observe_rt_panic(&status, &mut backend));
    assert_eq!(
        backend.failure(),
        failure(
            "rt_callback",
            "panic captured in an RT callback closure (contained — no abort, ordered teardown follows)"
        )
    );
}

#[test]
fn single_stream_format_ok_does_not_unmute_or_mark_both_active() {
    let mut rt = StreamStatusFlags::default();
    rt.capture_format_ok = 0;
    rt.playback_format_ok = 0;
    let mut backend = SharedBackendStatus::new();

    mark_format_contract_ok(&mut rt, "capture");
    backend.set_stream_active("capture", true);

    assert!(!rt.is_audio_unmuted());
    assert_ne!(backend.state(), BackendState::Running);

    let mut rt2 = StreamStatusFlags::default();
    rt2.capture_format_ok = 0;
    rt2.playback_format_ok = 0;
    let mut backend2 = SharedBackendStatus::new();
    mark_format_contract_ok(&mut rt2, "playback");
    backend2.set_stream_active("playback", true);

    assert!(!rt2.is_audio_unmuted());
    assert_ne!(backend2.state(), BackendState::Running);

    mark_format_contract_ok(&mut rt, "playback");
    backend.set_stream_active("playback", true);

    assert!(rt.is_audio_unmuted());
    assert_eq!(backend.state(), BackendState::Running);
}

#[test]
fn invalid_stream_format_rejection_prevents_unmute() {
    let mut status = RtStatusFlags::default();
    let mut rt = StreamStatusFlags::default();
    let mut backend = SharedBackendStatus::new();

    mark_format_contract_ok(&mut rt, "capture");
    backend.set_stream_active("capture", true);

    reject_negotiated_format_violation(&mut status, &mut rt, "playback");
    backend.set_stream_active("playback", true);

    assert!(!rt.is_audio_unmuted());
    assert!(status.check_flag(RT_STATUS_HOST_CONTRACT_VIOLATION));

    let mut status2 = RtStatusFlags::default();
    let mut rt2 = StreamStatusFlags::default();
    let mut backend2 = SharedBackendStatus::new();

    mark_format_contract_ok(&mut rt2, "playback");
    backend2.set_stream_active("playback", true);
    reject_negotiated_format_violation(&mut status2, &mut rt2, "capture");
    backend2.set_stream_active("capture", true);

    assert!(!rt2.is_audio_unmuted());
}

#[test]
fn each_stream_reports_its_own_loss() {
    let mut backend = SharedBackendStatus::new();
    assert!(state_changed_handler(
        &StreamState::Streaming,
        StreamState::Error("gone".into()),
        false,
        &mut backend,
    ));
    assert_eq!(backend.failure(), failure("capture", "gone"));
    let mut backend = SharedBackendStatus::new();
    assert!(playback_state_changed_handler(
        &StreamState::Streaming,
        StreamState::Unconnected,
        false,
        &mut backend,
    ));
    assert_eq!(
        backend.failure(),
        failure("playback", "stream disconnected from the audio backend")
    );
}

#[test]
fn a_failed_snapshot_needs_its_flag_and_its_detail() {
    let failed = BackendState::Failed { stream: "capture".to_string(), reason: "x".to_string() };
    let snapshot = |flag: bool, state: &BackendState, failure: Option<(String, String)>| {
        BackendStatusSnapshot { failed: flag, state: state.clone(), failure }.invariants_hold()
    };
    assert!(snapshot(true, &failed, failure("capture", "x")));
    assert!(!snapshot(true, &failed, None));
    assert!(!snapshot(false, &failed, failure("capture", "x")));
    assert!(snapshot(false, &BackendState::Running, None));
    assert!(!snapshot(true, &BackendState::Running, None));
    assert!(snapshot(true, &BackendState::Terminated, None));
    assert!(snapshot(false, &BackendState::Terminated, None));
}
