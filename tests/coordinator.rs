use camera_capture::{push_decimal, App, CameraResult, DecodedImage};

/// An 8 by 8 opaque grey picture, as the decoder hands it over.
fn grey_picture() -> Result<DecodedImage, String> {
    Ok(DecodedImage { width: 8, height: 8, pixels: vec![0xff80_8080; 64] })
}

fn undecodable() -> Result<DecodedImage, String> {
    Err(String::from("JpgDecode(FormatStatic(\"No more bytes\"))"))
}

/// Bytes standing for an encoded photo of `n` bytes.
fn photo_bytes(n: usize) -> Vec<u8> {
    (0..n).map(|i| i as u8).collect()
}

fn decimal(n: u64) -> String {
    let mut s = String::new();
    push_decimal(&mut s, n);
    s
}

#[test]
fn new_app_is_idle_with_prompt() {
    let app = App::new();
    assert!(!app.capture_in_progress);
    assert_eq!(app.status, "Press the button to capture a photo");
    assert!(app.image.is_none());
    assert!(!app.image_visible);
}

#[test]
fn first_request_opens_camera() {
    let mut app = App::new();
    assert!(app.request_capture());
    assert!(app.capture_in_progress);
    assert_eq!(app.status, "Opening camera...");
}

#[test]
fn requests_while_capturing_are_all_rejected() {
    let mut app = App::new();
    assert!(app.request_capture());
    assert!(app.on_availability(true));
    for _ in 0..5 {
        assert!(!app.request_capture());
        assert!(app.capture_in_progress);
        assert_eq!(app.status, "Capture already in progress...");
    }
}

#[test]
fn two_requests_in_a_row_issue_one_capture() {
    let mut app = App::new();
    let mut captures = 0;
    let mut rejections = 0;
    for _ in 0..2 {
        if app.request_capture() {
            if app.on_availability(true) {
                captures += 1;
            }
        } else {
            rejections += 1;
        }
    }
    assert_eq!(captures, 1);
    assert_eq!(rejections, 1);
    assert_eq!(app.status, "Capture already in progress...");
}

#[test]
fn unavailable_camera_returns_to_idle() {
    let mut app = App::new();
    assert!(app.request_capture());
    assert!(!app.on_availability(false));
    assert!(!app.capture_in_progress);
    assert_eq!(app.status, "Camera not available on this device");
    assert!(app.request_capture());
}

#[test]
fn availability_without_request_issues_nothing() {
    let mut app = App::new();
    assert!(!app.on_availability(true));
    assert!(!app.capture_in_progress);
    assert_eq!(app.status, "Press the button to capture a photo");
}

#[test]
fn issue_failure_reports_and_returns_to_idle() {
    let mut app = App::new();
    assert!(app.request_capture());
    assert!(app.on_availability(true));
    app.on_issue_failed("PermissionDenied");
    assert!(!app.capture_in_progress);
    assert_eq!(app.status, "Failed to open camera: PermissionDenied");
}

#[test]
fn valid_photo_is_shown_with_summary() {
    let data = photo_bytes(141);
    let n = data.len();
    let mut app = App::new();
    assert!(app.request_capture());
    assert!(app.on_availability(true));
    let shown = app.on_capture_result(&CameraResult::Success { width: 640, height: 480, data }, grey_picture());
    assert!(shown);
    assert!(!app.capture_in_progress);
    assert!(app.image_visible);
    assert!(app.status.contains("640"));
    assert!(app.status.contains("480"));
    assert!(app.status.contains(&n.to_string()));
    assert_eq!(app.status, "Captured: 640x480, 141 bytes");
}

#[test]
fn decoded_picture_is_held() {
    let mut app = App::new();
    app.on_capture_result(&CameraResult::Success { width: 640, height: 480, data: photo_bytes(10) }, grey_picture());
    let img = app.image.as_ref().unwrap();
    assert_eq!(img.width, 8);
    assert_eq!(img.height, 8);
    assert_eq!(img.pixels.len(), 64);
}

#[test]
fn malformed_photo_stays_hidden() {
    let mut app = App::new();
    assert!(app.request_capture());
    assert!(app.on_availability(true));
    let shown = app.on_capture_result(&CameraResult::Success { width: 640, height: 480, data: vec![1, 2, 3, 4] }, undecodable());
    assert!(!shown);
    assert!(!app.capture_in_progress);
    assert!(!app.image_visible);
    assert!(app.image.is_none());
    assert_eq!(app.status, "Failed to load image: JpgDecode(FormatStatic(\"No more bytes\"))");
}

#[test]
fn malformed_photo_keeps_earlier_picture() {
    let mut app = App::new();
    assert!(app.on_capture_result(&CameraResult::Success { width: 8, height: 8, data: photo_bytes(20) }, grey_picture()));
    assert!(!app.on_capture_result(&CameraResult::Success { width: 8, height: 8, data: vec![0xff, 0xd8] }, undecodable()));
    assert!(app.image_visible);
    assert_eq!(app.image.as_ref().unwrap().width, 8);
}

#[test]
fn cancelled_capture_leaves_picture_as_before() {
    let mut app = App::new();
    assert!(app.request_capture());
    assert!(app.on_availability(true));
    assert!(!app.on_capture_result(&CameraResult::Cancelled, grey_picture()));
    assert_eq!(app.status, "Capture cancelled");
    assert!(!app.image_visible);
    assert!(app.image.is_none());
    assert!(!app.capture_in_progress);

    assert!(app.on_capture_result(&CameraResult::Success { width: 8, height: 8, data: photo_bytes(20) }, grey_picture()));
    assert!(app.request_capture());
    assert!(app.on_availability(true));
    app.on_capture_result(&CameraResult::Cancelled, undecodable());
    assert_eq!(app.status, "Capture cancelled");
    assert!(app.image_visible);
}

#[test]
fn capture_error_is_reported() {
    let mut app = App::new();
    assert!(app.request_capture());
    assert!(app.on_availability(true));
    assert!(!app.on_capture_result(&CameraResult::Error(String::from("Timeout")), grey_picture()));
    assert_eq!(app.status, "Error: Timeout");
    assert!(!app.capture_in_progress);
}

#[test]
fn results_are_taken_in_post_order() {
    let mut app = App::new();
    assert!(app.request_capture());
    let results = vec![
        (CameraResult::Success { width: 8, height: 8, data: photo_bytes(30) }, grey_picture()),
        (CameraResult::Cancelled, undecodable()),
        (CameraResult::Error(String::from("late")), undecodable()),
    ];
    assert!(app.on_capture_results(results));
    assert_eq!(app.status, "Error: late");
    assert!(app.image_visible);
    assert!(!app.capture_in_progress);
}

#[test]
fn no_results_change_nothing() {
    let mut app = App::new();
    assert!(app.request_capture());
    assert!(!app.on_capture_results(Vec::new()));
    assert!(app.capture_in_progress);
    assert_eq!(app.status, "Opening camera...");
}

#[test]
fn decimal_writing() {
    assert_eq!(decimal(0), "0");
    assert_eq!(decimal(7), "7");
    assert_eq!(decimal(10), "10");
    assert_eq!(decimal(480), "480");
    assert_eq!(decimal(1234567890), "1234567890");
    assert_eq!(decimal(u64::MAX), "18446744073709551615");
    let mut s = String::from("n=");
    push_decimal(&mut s, 42);
    assert_eq!(s, "n=42");
}
