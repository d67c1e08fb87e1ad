//! Capture-pipeline behaviour: the start/stop state machine, the frame
//! counters, the sink registry, and the frame-assembly helpers.

use streamslate::capture::{
    assemble_frame, frame_size_matches, timestamp_ns, CaptureConfig, CaptureError,
    CapturePipeline, SinkKind, StreamHandler,
};

#[test]
fn starting_twice_yields_already_running() {
    // The second start is refused and the first capture's counters and
    // sinks are untouched.
    let mut p = CapturePipeline::new(true, false);
    assert!(p.start(true).is_ok());
    assert!(p.register_sink(SinkKind::Ndi).is_ok());
    let deliver = p.accept_frame(true);
    assert!(deliver);
    p.record_delivery(true);

    let r = p.start(true);
    assert_eq!(r, Err(CaptureError::AlreadyRunning));
    assert!(p.is_running());
    assert_eq!(p.frame_count(), 1);
    assert_eq!(p.frames_sent(), 1);
    assert!(p.ndi_registered);
}

#[test]
fn failed_target_resolution_keeps_idle() {
    let mut p = CapturePipeline::new(false, false);
    let r = p.start(false);
    assert_eq!(r, Err(CaptureError::TargetResolutionFailed));
    assert!(!p.is_running());
    assert_eq!(p.frame_count(), 0);
}

#[test]
fn stop_when_idle_is_a_noop() {
    let mut p = CapturePipeline::new(true, true);
    let torn_down = p.stop();
    assert!(torn_down.is_empty());
    assert!(!p.is_running());
    assert_eq!(p.frame_count(), 0);
    assert_eq!(p.frames_sent(), 0);
}

#[test]
fn stop_clears_counters_and_sinks() {
    let mut p = CapturePipeline::new(true, true);
    assert!(p.start(true).is_ok());
    assert!(p.register_sink(SinkKind::Ndi).is_ok());
    assert!(p.register_sink(SinkKind::Syphon).is_ok());
    assert!(p.accept_frame(true));
    p.record_delivery(true);
    p.record_delivery(true);

    let torn_down = p.stop();
    assert_eq!(torn_down, vec![SinkKind::Ndi, SinkKind::Syphon]);
    assert!(!p.is_running());
    assert_eq!(p.frame_count(), 0);
    assert_eq!(p.frames_sent(), 0);
    assert!(!p.ndi_registered);
    assert!(!p.syphon_registered);
}

#[test]
fn empty_payload_never_counts() {
    let mut p = CapturePipeline::new(false, false);
    assert!(p.start(true).is_ok());
    let deliver = p.accept_frame(false);
    assert!(!deliver);
    assert_eq!(p.frame_count(), 0);
    assert!(p.accept_frame(true));
    assert_eq!(p.frame_count(), 1);
}

#[test]
fn sink_registration_is_exclusive_per_kind() {
    let mut p = CapturePipeline::new(true, true);
    assert_eq!(p.register_sink(SinkKind::Ndi), Err(CaptureError::NotCapturing));
    assert!(p.start(true).is_ok());
    assert!(p.register_sink(SinkKind::Ndi).is_ok());
    assert_eq!(p.register_sink(SinkKind::Ndi), Err(CaptureError::SinkAlreadyRegistered));
    assert!(p.register_sink(SinkKind::Syphon).is_ok());
    assert!(p.unregister_sink(SinkKind::Ndi));
    assert!(!p.unregister_sink(SinkKind::Ndi));
    assert!(p.register_sink(SinkKind::Ndi).is_ok());
}

#[test]
fn fan_out_order_is_fixed() {
    let mut p = CapturePipeline::new(true, true);
    assert!(p.start(true).is_ok());
    assert!(p.register_sink(SinkKind::Syphon).is_ok());
    assert!(p.register_sink(SinkKind::Ndi).is_ok());
    assert_eq!(p.fan_out_order(), vec![SinkKind::Ndi, SinkKind::Syphon]);
}

#[test]
fn status_reflects_the_pipeline() {
    let mut p = CapturePipeline::new(true, false);
    assert!(p.start(true).is_ok());
    assert!(p.register_sink(SinkKind::Ndi).is_ok());
    let s = p.status();
    assert!(s.is_capturing);
    assert!(s.ndi_available);
    assert!(s.ndi_running);
    assert!(!s.syphon_available);
    assert!(!s.syphon_running);
    assert_eq!(s.target_fps, 30);
}

#[test]
fn test_ndi_feature_flag() {
    // Sink availability is a property of the build configuration handed
    // in at construction, and is reported back unchanged.
    let p = CapturePipeline::new(true, false);
    assert!(p.is_ndi_available());
    assert!(!p.is_syphon_available());
    let p = CapturePipeline::new(false, true);
    assert!(!p.is_ndi_available());
    assert!(p.is_syphon_available());
}

#[test]
fn stream_handler_counts_samples() {
    let mut h = StreamHandler::new();
    assert_eq!(h.frame_count(), 0);
    h.record_sample();
    h.record_sample();
    assert_eq!(h.frame_count(), 2);
}

#[test]
fn default_capture_config() {
    let c = CaptureConfig::default();
    assert_eq!(c.fps, 30);
    assert_eq!(c.width, 1920);
    assert_eq!(c.height, 1080);
    assert!(c.show_cursor);
}

#[test]
fn timestamp_conversion_is_exact() {
    // 30 ticks on a 30 Hz timescale is exactly one second.
    assert_eq!(timestamp_ns(30, 30), 1_000_000_000);
    assert_eq!(timestamp_ns(3, 600), 5_000_000);
    assert_eq!(timestamp_ns(-5, 600), 0);
    assert_eq!(timestamp_ns(7, 0), 7_000_000_000);
    assert_eq!(timestamp_ns(i64::MAX, 1), u64::MAX);
}

#[test]
fn assemble_frame_cases() {
    let f = assemble_frame(false, false, false, 9, 9, 9, vec![1, 2, 3], 30, 30);
    assert!(f.data.is_empty());
    assert_eq!((f.width, f.height, f.bytes_per_row), (0, 0, 0));
    assert_eq!(f.timestamp_ns, 1_000_000_000);

    let f = assemble_frame(true, false, false, 9, 9, 9, vec![1, 2, 3], 0, 30);
    assert!(f.data.is_empty());
    assert_eq!((f.width, f.height, f.bytes_per_row), (0, 0, 0));

    let f = assemble_frame(true, true, false, 640, 480, 0, vec![], 0, 30);
    assert!(f.data.is_empty());
    assert_eq!((f.width, f.height, f.bytes_per_row), (640, 480, 0));

    let f = assemble_frame(true, true, true, 2, 1, 8, vec![0; 8], 0, 30);
    assert_eq!(f.data.len(), 8);
    assert_eq!((f.width, f.height, f.bytes_per_row), (2, 1, 8));
}

#[test]
fn frame_size_check_is_exact() {
    assert!(frame_size_matches(8, 2, 1));
    assert!(!frame_size_matches(7, 2, 1));
    assert!(frame_size_matches(0, 0, 1080));
    assert!(!frame_size_matches(1, 0, 1080));
}
