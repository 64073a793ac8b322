use ascii_vision::camera::{
    CameraCapture, CaptureError, CaptureStep, StartStep, StopStep,
};

#[test]
fn start_before_initialize_fails() {
    let cam = CameraCapture::new();
    assert!(!cam.is_active());
    assert_eq!(cam.start(), Err(CaptureError::NotInitialized));
}

#[test]
fn failed_device_open_is_reported() {
    let mut cam = CameraCapture::new();
    assert_eq!(cam.initialize(false), Err(CaptureError::DeviceOpenError));
    assert_eq!(cam.start(), Err(CaptureError::NotInitialized));
}

#[test]
fn start_twice_opens_stream_once() {
    let mut cam = CameraCapture::new();
    assert_eq!(cam.initialize(true), Ok(()));
    assert!(!cam.is_active());
    // first start asks for the one stream open
    assert_eq!(cam.start(), Ok(StartStep::OpenStream));
    assert_eq!(cam.on_stream_opened(true), Ok(()));
    assert!(cam.is_active());
    // second start succeeds without asking for another open
    assert_eq!(cam.start(), Ok(StartStep::AlreadyActive));
    assert!(cam.is_active());
}

#[test]
fn failed_stream_open_stays_idle() {
    let mut cam = CameraCapture::new();
    cam.initialize(true).unwrap();
    assert_eq!(cam.start(), Ok(StartStep::OpenStream));
    assert_eq!(cam.on_stream_opened(false), Err(CaptureError::StreamError));
    assert!(!cam.is_active());
    // still idle, so a retry asks for the stream again
    assert_eq!(cam.start(), Ok(StartStep::OpenStream));
}

#[test]
fn stop_twice_is_safe() {
    let mut cam = CameraCapture::new();
    cam.initialize(true).unwrap();
    cam.start().unwrap();
    cam.on_stream_opened(true).unwrap();
    assert!(cam.is_active());
    // first stop closes the stream; after the successful close, Idle
    assert_eq!(cam.stop(), StopStep::CloseStream);
    cam.on_stream_closed(true);
    assert!(!cam.is_active());
    // second stop is a no-op and the engine stays Idle
    assert_eq!(cam.stop(), StopStep::NotActive);
    assert!(!cam.is_active());
    assert_eq!(cam.start(), Ok(StartStep::OpenStream));
}

#[test]
fn failed_stream_close_stays_active_for_retry() {
    let mut cam = CameraCapture::new();
    cam.initialize(true).unwrap();
    cam.start().unwrap();
    cam.on_stream_opened(true).unwrap();
    assert_eq!(cam.stop(), StopStep::CloseStream);
    cam.on_stream_closed(false);
    assert!(cam.is_active());
    // the caller can retry
    assert_eq!(cam.stop(), StopStep::CloseStream);
    cam.on_stream_closed(true);
    assert!(!cam.is_active());
}

#[test]
fn capture_rate_limit() {
    let mut cam = CameraCapture::new();
    cam.initialize(true).unwrap();
    assert_eq!(cam.capture_frame(0), CaptureStep::Inactive);
    cam.start().unwrap();
    cam.on_stream_opened(true).unwrap();
    // no frame recorded yet: a read is admitted at once
    assert_eq!(cam.capture_frame(0), CaptureStep::ReadFrame);
    cam.on_frame_ok(100);
    assert_eq!(cam.capture_frame(120), CaptureStep::RateLimited);
    assert_eq!(cam.capture_frame(149), CaptureStep::RateLimited);
    assert_eq!(cam.capture_frame(150), CaptureStep::ReadFrame);
    // a clock that went backwards never admits an early read
    assert_eq!(cam.capture_frame(50), CaptureStep::RateLimited);
}

#[test]
fn cleanup_is_idempotent() {
    let mut cam = CameraCapture::new();
    cam.initialize(true).unwrap();
    cam.start().unwrap();
    cam.on_stream_opened(true).unwrap();
    assert!(cam.cleanup());
    assert!(!cam.is_active());
    assert_eq!(cam.start(), Err(CaptureError::NotInitialized));
    assert!(!cam.cleanup());
    assert!(!cam.is_active());
}

#[test]
fn force_stop_always_leaves_inactive() {
    let mut cam = CameraCapture::new();
    cam.initialize(true).unwrap();
    cam.start().unwrap();
    cam.on_stream_opened(true).unwrap();
    assert!(cam.force_stop());
    assert!(!cam.is_active());
    assert!(!cam.force_stop());
    assert!(!cam.is_active());
}

#[test]
fn fault_requires_reinitialize() {
    let mut cam = CameraCapture::new();
    cam.initialize(true).unwrap();
    cam.record_fault("device unplugged".to_string());
    assert!(!cam.is_active());
    assert_eq!(cam.start(), Err(CaptureError::NotInitialized));
    assert_eq!(cam.initialize(true), Ok(()));
    assert_eq!(cam.start(), Ok(StartStep::OpenStream));
}

#[test]
fn stream_open_flag_tracks_active() {
    let mut cam = CameraCapture::new();
    assert!(!cam.is_stream_open());
    cam.initialize(true).unwrap();
    cam.start().unwrap();
    cam.on_stream_opened(true).unwrap();
    assert!(cam.is_stream_open());
}

#[test]
fn list_cameras_filters_duplicates_and_virtual() {
    let raw = vec![
        (0u32, "FaceTime HD".to_string()),
        (1u32, "OBS Virtual Camera".to_string()),
        (2u32, "FaceTime HD".to_string()),
    ];
    let out = CameraCapture::list_cameras(&raw);
    assert_eq!(out, vec![(0u32, "FaceTime HD".to_string())]);
}

#[test]
fn list_cameras_keeps_original_indices() {
    let raw = vec![
        (0u32, "Cam A".to_string()),
        (1u32, "dummy loopback".to_string()),
        (2u32, "Cam B".to_string()),
        (3u32, "Cam A".to_string()),
    ];
    let out = CameraCapture::list_cameras(&raw);
    assert_eq!(
        out,
        vec![(0u32, "Cam A".to_string()), (2u32, "Cam B".to_string())]
    );
}

#[test]
fn list_cameras_marker_match_is_case_insensitive() {
    let raw = vec![
        (0u32, "My VIRTUAL Device".to_string()),
        (1u32, "DuMmY cam".to_string()),
        (2u32, "Real Cam".to_string()),
    ];
    let out = CameraCapture::list_cameras(&raw);
    assert_eq!(out, vec![(2u32, "Real Cam".to_string())]);
}

#[test]
fn list_cameras_empty_input() {
    let raw: Vec<(u32, String)> = Vec::new();
    let out = CameraCapture::list_cameras(&raw);
    assert!(out.is_empty());
}
