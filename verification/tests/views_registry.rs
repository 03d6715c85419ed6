use flutter_rust_windows_embedder::error::{FlutterEmbedderError, RendererType};
use flutter_rust_windows_embedder::frame::DamageRect;
use flutter_rust_windows_embedder::views::{
    add_view_error, check_add_view, check_remove_view, code_text, resize_metrics_result, AddViewFailure,
    ViewCopy, ViewRegistry, IMPLICIT_VIEW_ID,
};

fn op_failed_text(e: FlutterEmbedderError) -> String {
    match e {
        FlutterEmbedderError::OperationFailed(s) => s,
        other => panic!("unexpected error {other:?}"),
    }
}

#[test]
fn add_view_checks() {
    assert!(matches!(
        check_add_view(false, RendererType::OpenGL, true, 10, 10),
        Err(FlutterEmbedderError::EngineNotRunning)
    ));
    assert_eq!(
        op_failed_text(check_add_view(true, RendererType::Software, true, 10, 10).unwrap_err()),
        "add_view requires the OpenGL renderer with the compositor active"
    );
    assert_eq!(
        op_failed_text(check_add_view(true, RendererType::OpenGL, false, 10, 10).unwrap_err()),
        "add_view requires the OpenGL renderer with the compositor active"
    );
    assert_eq!(
        op_failed_text(check_add_view(true, RendererType::OpenGL, true, 0, 10).unwrap_err()),
        "add_view: width/height must be non-zero"
    );
    assert!(check_add_view(true, RendererType::OpenGL, true, 10, 10).is_ok());
}

#[test]
fn add_view_failure_messages() {
    assert_eq!(
        op_failed_text(add_view_error(&AddViewFailure::AngleDevice("gone".to_string()))),
        "angle device unavailable: gone"
    );
    assert_eq!(op_failed_text(add_view_error(&AddViewFailure::NoAngleState)), "no ANGLE state on host overlay");
    assert_eq!(
        op_failed_text(add_view_error(&AddViewFailure::SharedTexture("E_FAIL".to_string()))),
        "shared texture failed: E_FAIL"
    );
    assert_eq!(op_failed_text(add_view_error(&AddViewFailure::OpenShared)), "OpenSharedResource failed for new view");
    assert_eq!(code_text("code ", -2), "code -2");
}

#[test]
fn remove_view_checks() {
    assert!(matches!(check_remove_view(false, 3), Err(FlutterEmbedderError::EngineNotRunning)));
    assert_eq!(
        op_failed_text(check_remove_view(true, IMPLICIT_VIEW_ID).unwrap_err()),
        "cannot remove the implicit view (view 0)"
    );
    assert!(check_remove_view(true, 3).is_ok());
}

#[test]
fn view_ids_are_positive_and_never_reused() {
    let mut r = ViewRegistry::new();
    let a = r.begin_add_view(true, 800, 600);
    assert_eq!(r.finish_add_view(a, 0, true).unwrap(), a);
    let b = r.begin_add_view(false, 640, 480);
    assert!(a > 0 && b > a);
    assert_eq!(r.secondary_view_ids(), vec![a, b]);
    assert!(r.finish_remove_view(a, 0).is_ok());
    let c = r.begin_add_view(true, 1, 1);
    assert!(c > b);
    assert_eq!(r.secondary_view_ids(), vec![b, c]);
}

#[test]
fn failed_add_forgets_the_view() {
    let mut r = ViewRegistry::new();
    let a = r.begin_add_view(true, 800, 600);
    assert_eq!(op_failed_text(r.finish_add_view(a, 3, true).unwrap_err()), "FlutterEngineAddView failed to start: 3");
    assert!(r.secondary_view_ids().is_empty());
    let b = r.begin_add_view(true, 800, 600);
    assert_eq!(op_failed_text(r.finish_add_view(b, 0, false).unwrap_err()), "engine reported add_view failed");
    assert_eq!(r.view_texture_size(b), None);
}

#[test]
fn failed_remove_keeps_the_view() {
    let mut r = ViewRegistry::new();
    let a = r.begin_add_view(true, 800, 600);
    assert_eq!(op_failed_text(r.finish_remove_view(a, 1).unwrap_err()), "FlutterEngineRemoveView failed to start: 1");
    assert_eq!(r.secondary_view_ids(), vec![a]);
}

#[test]
fn resize_view_outcomes() {
    let mut r = ViewRegistry::new();
    let a = r.begin_add_view(true, 800, 600);
    assert_eq!(op_failed_text(r.resize_view(a, 0, 5).unwrap_err()), "resize_view: zero dimension");
    assert!(matches!(r.resize_view(a + 1, 5, 5), Err(FlutterEmbedderError::InvalidHandle)));
    assert!(r.resize_view(a, 1024, 768).is_ok());
    assert_eq!(r.view_size(a), Some((1024, 768)));
    assert!(resize_metrics_result(0).is_ok());
    assert_eq!(op_failed_text(resize_metrics_result(7).unwrap_err()), "resize metrics failed: 7");
}

#[test]
fn view_tick_copies_new_frames() {
    let mut r = ViewRegistry::new();
    let a = r.begin_add_view(false, 100, 50);
    assert!(r.begin_view_tick(a).is_none());
    r.record_view_present(a, Vec::new());
    assert_eq!(r.view_frame_counter(a), 1);
    let prep = r.begin_view_tick(a).unwrap();
    assert_eq!(prep.presented, 1);
    assert_eq!(prep.recreate_host_texture, None);
    assert!(!prep.reopen_shared);
    assert!(matches!(r.finish_view_tick(a, prep.presented), Some(ViewCopy::Full)));
    assert!(r.begin_view_tick(a).is_none());

    r.set_texture_size(a, 200, 100);
    r.record_view_present(a, vec![DamageRect { left: 150, top: 0, right: 400, bottom: 10 }]);
    let prep = r.begin_view_tick(a).unwrap();
    assert_eq!(prep.recreate_host_texture, Some((200, 100)));
    assert!(prep.reopen_shared);
    assert!(r.finish_view_tick(a, prep.presented).is_none());
    r.note_view_prepared(a, true, true);
    match r.finish_view_tick(a, prep.presented) {
        Some(ViewCopy::Regions(boxes)) => {
            assert_eq!(boxes, vec![DamageRect { left: 150, top: 0, right: 200, bottom: 10 }])
        }
        _ => panic!("expected a region copy"),
    }
    assert_eq!(r.view_frame_counter(a + 5), 0);
}
