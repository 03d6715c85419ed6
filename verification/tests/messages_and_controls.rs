use flutter_rust_windows_embedder::controls::{
    control_action, control_response, handle_window_control_message, post_target, ControlAction, ControlRequest,
    WindowControls, WindowControlsRegistry, WM_APP_CLOSE, WM_APP_MAXIMIZE, WM_APP_MINIMIZE, WM_APP_RESTORE,
    WINDOW_CONTROL_CHANNEL,
};
use flutter_rust_windows_embedder::egl::{device_removed_reason_to_string, egl_error_to_string};
use flutter_rust_windows_embedder::error::FlutterEmbedderError;
use flutter_rust_windows_embedder::messages::{
    check_dart_post, check_dart_post_string, dart_post_result, hot_restart_message, overlay_post_result, request_frame_result, window_metrics, WindowMetrics,
    root_isolate_messages, shutdown_result, PendingPlatformMessage, SendableFlutterEngine,
};
use flutter_rust_windows_embedder::text::{decimal_string, has_interior_nul};
use std::sync::atomic::{AtomicBool, AtomicIsize, AtomicU64};
use std::sync::Arc;

fn controls(hwnd: isize) -> WindowControls {
    WindowControls::new(Arc::new(AtomicBool::new(false)), Arc::new(AtomicIsize::new(hwnd)), Arc::new(AtomicU64::new(0)))
}

fn op_text(r: Result<(), FlutterEmbedderError>) -> String {
    match r {
        Err(FlutterEmbedderError::OperationFailed(m)) => m,
        other => panic!("unexpected {other:?}"),
    }
}

#[test]
fn error_messages() {
    assert_eq!(
        FlutterEmbedderError::InitializationFailed("x".to_string()).message(),
        "Flutter Initialization Failed: x"
    );
    assert_eq!(FlutterEmbedderError::OperationFailed("y".to_string()).message(), "Flutter Operation Failed: y");
    assert_eq!(
        FlutterEmbedderError::EngineNotRunning.message(),
        "Flutter engine is not running or handle is null."
    );
    assert_eq!(FlutterEmbedderError::InvalidHandle.message(), "Invalid Flutter overlay handle provided.");
}

#[test]
fn root_isolate_queues_metrics_then_lifecycle() {
    let msgs = root_isolate_messages(1920, 1080, -5, 7);
    assert_eq!(msgs.len(), 2);
    assert_eq!(msgs[0].channel, "flutter/window");
    assert_eq!(
        String::from_utf8(msgs[0].payload_bytes.clone()).unwrap(),
        r#"{"method":"setWindowMetrics","args":{"viewId":0,"width":1920,"height":1080,"devicePixelRatio":1.0,"left":-5,"top":7}}"#
    );
    assert_eq!(msgs[1].channel, "flutter/lifecycle");
    assert_eq!(msgs[1].payload_bytes, b"AppLifecycleState.resumed".to_vec());
}

#[test]
fn hot_restart_goes_on_the_lifecycle_channel() {
    let m = hot_restart_message();
    assert_eq!(m.channel, "app/lifecycle");
    assert_eq!(m.payload_bytes, b"hot.restart".to_vec());
    let raw = PendingPlatformMessage::new("c", &[1, 2, 3]);
    assert_eq!(raw.payload_bytes, vec![1, 2, 3]);
}

#[test]
fn dart_post_checks() {
    assert!(matches!(check_dart_post(SendableFlutterEngine(0), 5), Err(FlutterEmbedderError::EngineNotRunning)));
    assert_eq!(
        op_text(check_dart_post(SendableFlutterEngine(1), 0)),
        "Dart port not registered. Call `register_dart_port` first."
    );
    assert!(check_dart_post(SendableFlutterEngine(1), 9).is_ok());
    assert_eq!(op_text(check_dart_post_string("a\0b", SendableFlutterEngine(1), 9)), "String contains null bytes.");
    assert!(check_dart_post_string("ok", SendableFlutterEngine(1), 9).is_ok());
    assert!(dart_post_result(0).is_ok());
    assert_eq!(op_text(dart_post_result(2)), "Failed to post Dart object with code: 2");
}

#[test]
fn engine_call_outcomes() {
    assert!(matches!(
        request_frame_result(SendableFlutterEngine(0), "ui", 0),
        Err(FlutterEmbedderError::EngineNotRunning)
    ));
    assert!(request_frame_result(SendableFlutterEngine(1), "ui", 0).is_ok());
    assert_eq!(
        op_text(request_frame_result(SendableFlutterEngine(1), "ui", 3)),
        "FlutterEngineScheduleFrame FAILED for 'ui': 3"
    );
    assert!(shutdown_result(SendableFlutterEngine(0), "ui", 5).is_ok());
    assert!(shutdown_result(SendableFlutterEngine(1), "ui", 0).is_ok());
    assert_eq!(op_text(shutdown_result(SendableFlutterEngine(1), "ui", 1)), "FlutterEngineShutdown failed for 'ui': 1");
}

#[test]
fn text_helpers() {
    assert_eq!(decimal_string(0), "0");
    assert_eq!(decimal_string(-1234), "-1234");
    assert_eq!(decimal_string(i64::MIN), "-9223372036854775808");
    assert!(has_interior_nul("a\0"));
    assert!(!has_interior_nul("abc"));
}

#[test]
fn egl_and_device_error_names() {
    assert_eq!(egl_error_to_string(0x3000), "EGL_SUCCESS");
    assert_eq!(egl_error_to_string(0x300E), "EGL_CONTEXT_LOST");
    assert_eq!(egl_error_to_string(42), "Unknown EGL error");
    assert_eq!(device_removed_reason_to_string(0x887A_0006u32 as i32), "DXGI_ERROR_DEVICE_REMOVED");
    assert_eq!(device_removed_reason_to_string(0x887A_0007u32 as i32), "DXGI_ERROR_DEVICE_HUNG (GPU timeout/TDR)");
    assert_eq!(device_removed_reason_to_string(0), "S_OK (no error)");
    assert_eq!(device_removed_reason_to_string(1), "Unknown error");
}

#[test]
fn window_controls_post_to_existing_windows_only() {
    let gone = controls(0);
    assert!(gone.minimize().is_none());
    assert!(gone.close().is_none());
    assert!(gone.close_requested());
    let c = controls(77);
    assert_eq!(c.minimize().map(|p| (p.hwnd, p.msg)), Some((77, WM_APP_MINIMIZE)));
    assert_eq!(c.maximize().map(|p| p.msg), Some(WM_APP_MAXIMIZE));
    assert_eq!(c.restore().map(|p| p.msg), Some(WM_APP_RESTORE));
    assert_eq!(c.close().map(|p| p.msg), Some(WM_APP_CLOSE));
    assert!(c.close_requested());
    c.note_present();
    c.note_present();
    let shared = c.share();
    assert_eq!(shared.present_count(), 2);
    shared.set_hwnd(0);
    assert_eq!(c.hwnd_value(), 0);
    assert!(post_target(0, WM_APP_CLOSE).is_none());
}

#[test]
fn registry_reads_back_what_was_written() {
    let mut reg = WindowControlsRegistry::new();
    assert!(reg.lookup_window_controls(3).is_none());
    reg.register_window_controls(3, controls(30));
    reg.register_window_controls(4, controls(40));
    assert_eq!(reg.lookup_window_controls(3).unwrap().hwnd_value(), 30);
    reg.register_window_controls(3, controls(31));
    assert_eq!(reg.lookup_window_controls(3).unwrap().hwnd_value(), 31);
    reg.unregister_window_controls(3);
    assert!(reg.lookup_window_controls(3).is_none());
    assert_eq!(reg.lookup_window_controls(4).unwrap().hwnd_value(), 40);
}

#[test]
fn control_requests() {
    assert_eq!(WINDOW_CONTROL_CHANNEL, "flutter_embedder/satellite_window");
    assert!(matches!(control_action("minimize", &None), ControlAction::Minimize));
    assert!(matches!(control_action("startDrag", &None), ControlAction::StartDrag));
    assert!(matches!(control_action("setTitle", &Some("T".to_string())), ControlAction::SetTitle(t) if t == "T"));
    assert!(matches!(control_action("setTitle", &None), ControlAction::Nothing));
    assert!(matches!(control_action("isMaximized", &None), ControlAction::QueryMaximized));
    assert!(matches!(control_action("bogus", &None), ControlAction::Nothing));

    let mut reg = WindowControlsRegistry::new();
    reg.register_window_controls(2, controls(20));
    let req = Some(ControlRequest { view_id: Some(2), method: "close".to_string(), title: None });
    let (c, a) = handle_window_control_message(&req, &reg).unwrap();
    assert_eq!(c.hwnd_value(), 20);
    assert!(matches!(a, ControlAction::Close));
    let unknown = Some(ControlRequest { view_id: Some(9), method: "close".to_string(), title: None });
    assert!(handle_window_control_message(&unknown, &reg).is_none());
    assert!(handle_window_control_message(&None, &reg).is_none());

    assert_eq!(control_response(false, true), b"{}".to_vec());
    assert_eq!(control_response(true, true), br#"{"isMaximized":true}"#.to_vec());
    assert_eq!(control_response(true, false), br#"{"isMaximized":false}"#.to_vec());
}

#[test]
fn posting_to_an_overlay_maps_failures_to_invalid_handle() {

    assert!(overlay_post_result(Some(Ok(()))).is_ok());
    assert!(matches!(overlay_post_result(None), Err(FlutterEmbedderError::InvalidHandle)));
    assert!(matches!(
        overlay_post_result(Some(Err(FlutterEmbedderError::EngineNotRunning))),
        Err(FlutterEmbedderError::InvalidHandle)
    ));
}

#[test]
fn window_metrics_of_an_overlay() {
    assert_eq!(window_metrics(SendableFlutterEngine(0), 1, 2, 3, 4), None);
    assert_eq!(
        window_metrics(SendableFlutterEngine(8), 10, 20, 1920, 1080),
        Some(WindowMetrics { width: 1920, height: 1080, left: 10, top: 20 })
    );
    let m = window_metrics(SendableFlutterEngine(8), -5, 0, 1, 1).unwrap();
    assert_eq!(m.left, (-5i64) as usize);
}
