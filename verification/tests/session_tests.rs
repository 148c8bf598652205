use audio_capture::{
    is_supported, start_capture, stop_capture, AudioCaptureState, BackendKind, CaptureError,
    StartAction, StartEvent,
};

fn active_session() -> AudioCaptureState {
    let mut state = AudioCaptureState::new();
    state.set_backend(BackendKind::EventDriven);
    let action = start_capture(&mut state, 5, 0).expect("start must succeed");
    assert!(matches!(action, StartAction::BeginBackend));
    let confirmed = state.confirm_start(StartEvent::Ready {
        sample_rate: 48000,
        channels: 2,
    });
    assert!(confirmed.is_ok());
    state
}

#[test]
fn append_preserves_order_and_drops_nothing() {
    let mut state = active_session();
    let first: Vec<u32> = vec![1, 2, 3];
    let second: Vec<u32> = vec![];
    let third: Vec<u32> = vec![4, 5];
    state.append_samples(&first);
    state.append_samples(&second);
    state.append_samples(&third);
    assert_eq!(state.samples, vec![1, 2, 3, 4, 5]);
}

#[test]
fn append_chunks_concatenates_in_order() {
    let mut state = active_session();
    let chunks: Vec<Vec<u32>> = vec![vec![7, 8], vec![], vec![9], vec![10, 11, 12]];
    state.append_chunks(&chunks);
    assert_eq!(state.samples, vec![7, 8, 9, 10, 11, 12]);
}

#[test]
fn stop_before_any_start_is_empty_capture() {
    let mut state = AudioCaptureState::new();
    let r = stop_capture(&mut state);
    assert!(matches!(r, Err(CaptureError::EmptyCapture)));
}

#[test]
fn stop_with_zero_samples_is_empty_capture_not_empty_success() {
    let mut state = active_session();
    let r = stop_capture(&mut state);
    assert!(matches!(r, Err(CaptureError::EmptyCapture)));
    assert!(!state.active);
}

#[test]
fn start_is_idempotent_and_spawns_one_backend() {
    let mut state = AudioCaptureState::new();
    state.set_backend(BackendKind::PollLoop);
    let mut backend_starts: u32 = 0;

    let first = start_capture(&mut state, 5, 0).expect("first start must succeed");
    if matches!(first, StartAction::BeginBackend) {
        backend_starts += 1;
    }
    let second = start_capture(&mut state, 5, 10).expect("second start must succeed");
    if matches!(second, StartAction::BeginBackend) {
        backend_starts += 1;
    }
    assert!(matches!(second, StartAction::AlreadyActive));
    assert_eq!(backend_starts, 1);

    let _ = stop_capture(&mut state);
    let third = start_capture(&mut state, 5, 20).expect("start after stop must succeed");
    assert!(matches!(third, StartAction::BeginBackend));
}

#[test]
fn timeout_fires_after_max_duration_and_stop_runs_once() {
    let mut state = AudioCaptureState::new();
    state.set_backend(BackendKind::EventDriven);
    let action = start_capture(&mut state, 1, 1000).expect("start must succeed");
    assert!(matches!(action, StartAction::BeginBackend));

    assert!(!state.timeout_due(1999));
    assert!(state.timeout_due(2000));

    // The timeout guard and a manual stop race; the first consumer wins and
    // the second finds the signal gone.
    assert!(state.request_stop());
    assert!(!state.request_stop());

    let r = stop_capture(&mut state);
    assert!(matches!(r, Err(CaptureError::EmptyCapture)));
    assert!(!state.active);
}

#[test]
fn start_without_backend_is_unsupported() {
    let mut state = AudioCaptureState::new();
    let r = start_capture(&mut state, 5, 0);
    assert!(matches!(r, Err(CaptureError::UnsupportedPlatform)));
    assert!(!is_supported(BackendKind::Unavailable));
    assert!(is_supported(BackendKind::EventDriven));
    assert!(is_supported(BackendKind::PollLoop));
}

#[test]
fn backend_error_takes_priority_over_success() {
    let mut state = active_session();
    state.append_samples(&vec![0x3F800000, 0x3F800000]);
    state.record_error(String::from("Failed to start stream: device lost"));
    let r = stop_capture(&mut state);
    match r {
        Err(CaptureError::NativeApiError(m)) => {
            assert_eq!(m, "Failed to start stream: device lost");
        }
        other => panic!("expected a native error, got {:?}", other),
    }
}

#[test]
fn failed_native_start_falls_back_to_idle() {
    let mut state = AudioCaptureState::new();
    state.set_backend(BackendKind::EventDriven);
    start_capture(&mut state, 5, 0).expect("start must succeed");
    let r = state.confirm_start(StartEvent::Failed(String::from("access denied")));
    match r {
        Err(CaptureError::NativeApiError(m)) => assert_eq!(m, "access denied"),
        other => panic!("expected a native error, got {:?}", other),
    }
    assert!(!state.active);
    assert!(!state.stop_armed);
}

#[test]
fn no_source_reported_as_no_audio_source() {
    let mut state = AudioCaptureState::new();
    state.set_backend(BackendKind::EventDriven);
    start_capture(&mut state, 5, 0).expect("start must succeed");
    let r = state.confirm_start(StartEvent::NoSource);
    assert!(matches!(r, Err(CaptureError::NoAudioSource)));
    assert!(!state.active);
}

#[test]
fn unsupported_native_format_is_refused() {
    let mut state = AudioCaptureState::new();
    state.set_backend(BackendKind::PollLoop);
    start_capture(&mut state, 5, 0).expect("start must succeed");
    let r = state.confirm_start(StartEvent::Ready {
        sample_rate: 48000,
        channels: 6,
    });
    assert!(matches!(r, Err(CaptureError::NativeApiError(_))));
    assert!(!state.active);
}

#[test]
fn reset_clears_samples_and_error_only() {
    let mut state = active_session();
    state.append_samples(&vec![1, 2, 3]);
    state.record_error(String::from("late failure"));
    state.reset();
    assert!(state.samples.is_empty());
    assert!(state.error.is_none());
    assert_eq!(state.sample_rate, 48000);
    assert_eq!(state.channels, 2);
}

#[test]
fn snapshot_copies_samples_and_format() {
    let mut state = active_session();
    state.append_samples(&vec![5, 6, 7]);
    let (samples, rate, channels) = state.snapshot();
    assert_eq!(samples, vec![5, 6, 7]);
    assert_eq!(rate, 48000);
    assert_eq!(channels, 2);
    // The snapshot is a copy: the session still holds its own samples.
    assert_eq!(state.samples, vec![5, 6, 7]);
}

#[test]
fn error_messages_are_human_readable() {
    assert_eq!(
        CaptureError::EmptyCapture.message(),
        "No audio samples captured"
    );
    assert_eq!(
        CaptureError::NativeApiError(String::from("boom")).message(),
        "boom"
    );
    assert_eq!(
        CaptureError::UnsupportedPlatform.message(),
        "System audio capture is not supported on this platform"
    );
}
