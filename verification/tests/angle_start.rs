use flutter_rust_windows_embedder::egl::{build_display_attributes, config_attributes, EglState};
use flutter_rust_windows_embedder::egl_start::{
    conclude_recovery, AngleStart, AngleStartAction, AngleStartEvent, AngleStartMode, AngleStartPhase,
};

fn fail_text(a: AngleStartAction) -> String {
    match a {
        AngleStartAction::Fail(m) => m,
        other => panic!("expected a failure, got {:?}", other),
    }
}

fn up_to_config(mode: AngleStartMode) -> AngleStart {
    let (mut s, a) = AngleStart::start(mode, false);
    assert!(matches!(a, AngleStartAction::LoadSharedEgl));
    let a = s.step(AngleStartEvent::SharedLoaded(Ok(())));
    if mode == AngleStartMode::Fresh {
        assert!(matches!(a, AngleStartAction::LookUpPlatformDisplay));
        match s.step(AngleStartEvent::ProcLookedUp { found: true }) {
            AngleStartAction::GetDisplay { attributes } => assert_eq!(attributes, build_display_attributes(false)),
            other => panic!("unexpected {:?}", other),
        }
    } else {
        assert!(matches!(a, AngleStartAction::GetDisplay { .. }));
    }
    assert!(matches!(s.step(AngleStartEvent::DisplayGot { display: 0x10, error: 0x3000 }), AngleStartAction::Initialize { display: 0x10 }));
    assert!(matches!(s.step(AngleStartEvent::Initialized { ok: true, error: 0x3000 }), AngleStartAction::QueryDevice { display: 0x10 }));
    assert!(matches!(
        s.step(AngleStartEvent::DeviceQueried { ok: true, device: 0x20, error: 0x3000 }),
        AngleStartAction::QueryD3d11Device { device: 0x20 }
    ));
    match s.step(AngleStartEvent::D3d11Queried { ok: true, device: 0x30, error: 0x3000 }) {
        AngleStartAction::ChooseConfig { display, attributes } => {
            assert_eq!(display, 0x10);
            assert_eq!(attributes, config_attributes());
        }
        other => panic!("unexpected {:?}", other),
    }
    s
}

#[test]
fn fresh_start_reaches_a_ready_display() {
    let mut s = up_to_config(AngleStartMode::Fresh);
    match s.step(AngleStartEvent::ConfigChosen { ok: true, config: 0x40, count: 1 }) {
        AngleStartAction::Ready { display, config, d3d11_device } => {
            assert_eq!((display, config, d3d11_device), (0x10, 0x40, 0x30));
            let egl = EglState::new(display);
            assert_eq!(egl.display, 0x10);
            assert!(!egl.device_lost);
        }
        other => panic!("unexpected {:?}", other),
    }
    assert_eq!(s.phase, AngleStartPhase::Done);
}

#[test]
fn fresh_start_errors() {
    let (mut s, _) = AngleStart::start(AngleStartMode::Fresh, false);
    assert_eq!(fail_text(s.step(AngleStartEvent::SharedLoaded(Err("no libEGL".to_string())))), "no libEGL");
    let (mut s, _) = AngleStart::start(AngleStartMode::Fresh, false);
    s.step(AngleStartEvent::SharedLoaded(Ok(())));
    assert_eq!(fail_text(s.step(AngleStartEvent::ProcLookedUp { found: false })), "eglGetPlatformDisplayEXT not available");
    let (mut s, _) = AngleStart::start(AngleStartMode::Fresh, true);
    s.step(AngleStartEvent::SharedLoaded(Ok(())));
    s.step(AngleStartEvent::ProcLookedUp { found: true });
    assert_eq!(fail_text(s.step(AngleStartEvent::DisplayGot { display: 0, error: 0x3001 })), "Failed to get EGL display.");
    let mut s = up_to_config(AngleStartMode::Fresh);
    assert_eq!(fail_text(s.step(AngleStartEvent::ConfigChosen { ok: true, config: 0, count: 0 })), "eglChooseConfig failed.");
}

#[test]
fn fresh_start_rejects_a_null_d3d11_device() {
    let (mut s, _) = AngleStart::start(AngleStartMode::Fresh, false);
    s.step(AngleStartEvent::SharedLoaded(Ok(())));
    s.step(AngleStartEvent::ProcLookedUp { found: true });
    s.step(AngleStartEvent::DisplayGot { display: 1, error: 0 });
    assert_eq!(fail_text(s.step(AngleStartEvent::Initialized { ok: false, error: 0 })), "Failed to initialize EGL.");
    let (mut s, _) = AngleStart::start(AngleStartMode::Fresh, false);
    s.step(AngleStartEvent::SharedLoaded(Ok(())));
    s.step(AngleStartEvent::ProcLookedUp { found: true });
    s.step(AngleStartEvent::DisplayGot { display: 1, error: 0 });
    s.step(AngleStartEvent::Initialized { ok: true, error: 0 });
    s.step(AngleStartEvent::DeviceQueried { ok: true, device: 2, error: 0 });
    assert_eq!(fail_text(s.step(AngleStartEvent::D3d11Queried { ok: true, device: 0, error: 0 })), "ANGLE created a null D3D11 device.");
}

#[test]
fn recovery_errors_name_the_egl_code() {
    let (mut s, _) = AngleStart::start(AngleStartMode::Recovery, false);
    assert!(matches!(s.step(AngleStartEvent::SharedLoaded(Ok(()))), AngleStartAction::GetDisplay { .. }));
    assert_eq!(
        fail_text(s.step(AngleStartEvent::DisplayGot { display: 0, error: 0x3008 })),
        "Failed to get new EGL display during recovery: EGL_BAD_DISPLAY (0x3008)"
    );
    let (mut s, _) = AngleStart::start(AngleStartMode::Recovery, false);
    s.step(AngleStartEvent::SharedLoaded(Ok(())));
    s.step(AngleStartEvent::DisplayGot { display: 5, error: 0x3000 });
    assert_eq!(
        fail_text(s.step(AngleStartEvent::Initialized { ok: false, error: 0x300E })),
        "Failed to initialize new EGL display during recovery: EGL_CONTEXT_LOST (0x300E)"
    );
    let mut s = up_to_config(AngleStartMode::Recovery);
    assert_eq!(
        fail_text(s.step(AngleStartEvent::ConfigChosen { ok: false, config: 0, count: 1 })),
        "eglChooseConfig failed during recovery."
    );
}

#[test]
fn recovery_swaps_in_the_new_display() {
    let mut egl = EglState::new(7);
    egl.device_lost = true;
    let (contexts, display) = egl.begin_reinitialize();
    assert!(contexts.is_empty());
    assert_eq!(display, Some(7));
    assert_eq!(conclude_recovery(&mut egl, AngleStartAction::Fail("x".to_string())), Err("x".to_string()));
    assert!(egl.device_lost);
    assert_eq!(egl.display, 0);
    let mut s = up_to_config(AngleStartMode::Recovery);
    let ready = s.step(AngleStartEvent::ConfigChosen { ok: true, config: 3, count: 1 });
    assert_eq!(conclude_recovery(&mut egl, ready), Ok(()));
    assert!(!egl.device_lost);
    assert_eq!(egl.display, 0x10);
}
