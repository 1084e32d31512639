use focusgo_capture::capture::{
    capture_directory, capture_payload, capture_screen_with_provider, RawCaptureFrame,
    ScreenCaptureProvider,
};

struct MockScreenCaptureProvider {
    result: Result<RawCaptureFrame, String>,
}

impl ScreenCaptureProvider for MockScreenCaptureProvider {
    fn capture_monitor(&self, _monitor_id: Option<u32>) -> Result<RawCaptureFrame, String> {
        self.result.clone()
    }
}

fn two_by_two_frame() -> RawCaptureFrame {
    RawCaptureFrame {
        monitor_id: Some(1),
        monitor_x: 0,
        monitor_y: 0,
        width: 2,
        height: 2,
        pixel_format: "rgba8".to_string(),
        bytes: vec![
            255, 0, 0, 255, //
            0, 255, 0, 255, //
            0, 0, 255, 255, //
            255, 255, 255, 255,
        ],
    }
}

#[test]
fn propagates_provider_errors() {
    let provider = MockScreenCaptureProvider { result: Err("mock-capture-failure".to_string()) };

    let error = capture_screen_with_provider(&provider, Some(99), "/tmp/focus-go-test")
        .expect_err("capture should fail");

    assert_eq!(error, "mock-capture-failure");
}

#[test]
fn capture_payload_describes_the_frame() {
    let provider = MockScreenCaptureProvider { result: Ok(two_by_two_frame()) };
    let (payload, pixels) =
        capture_screen_with_provider(&provider, Some(1), "/tmp/base").expect("capture should pass");

    assert_eq!(payload.monitor_id, Some(1));
    assert_eq!(payload.width, 2);
    assert_eq!(payload.height, 2);
    assert_eq!(payload.pixel_format, "rgba8");
    assert_eq!(payload.transfer_mode, "file-backed");
    assert_eq!(payload.bytes_len, 16);
    assert_eq!(pixels, two_by_two_frame().bytes);
    assert_eq!(payload.capture_id.len(), 36);
    assert_eq!(
        payload.image_path,
        format!("/tmp/base/focus-go-ai-screenshot-tool/captures/{}.png", payload.capture_id)
    );
}

#[test]
fn each_capture_gets_a_fresh_id() {
    let provider = MockScreenCaptureProvider { result: Ok(two_by_two_frame()) };
    let (first, _) = capture_screen_with_provider(&provider, None, "/tmp").unwrap();
    let (second, _) = capture_screen_with_provider(&provider, None, "/tmp").unwrap();
    assert_ne!(first.capture_id, second.capture_id);
}

#[test]
fn short_buffer_fails_to_decode() {
    let mut frame = two_by_two_frame();
    frame.bytes.truncate(15);
    let error = capture_payload(frame, "id".to_string(), "/tmp").expect_err("buffer is short");
    assert_eq!(error, "Failed to decode RGBA buffer");
}

#[test]
fn long_buffer_fails_to_decode() {
    let mut frame = two_by_two_frame();
    frame.bytes.push(0);
    let error = capture_payload(frame, "id".to_string(), "/tmp").expect_err("buffer is long");
    assert_eq!(error, "Failed to decode RGBA buffer");
}

#[test]
fn payload_path_joins_directory_and_id() {
    let (payload, _) = capture_payload(two_by_two_frame(), "abc".to_string(), "/var/cap/").unwrap();
    assert_eq!(payload.image_path, "/var/cap/abc.png");
    assert_eq!(payload.capture_id, "abc");
}

#[test]
fn capture_directory_lies_under_base() {
    assert_eq!(capture_directory("/tmp"), "/tmp/focus-go-ai-screenshot-tool/captures");
    assert_eq!(capture_directory("/tmp/"), "/tmp/focus-go-ai-screenshot-tool/captures");
}
