use flutter_rust_windows_embedder::egl::build_opengl_renderer_config;
use flutter_rust_windows_embedder::engine_dll::{DllCache, LoadRetry, RetryDecision, ENGINE_DLL_NAME, MAX_LOAD_ATTEMPTS};
use flutter_rust_windows_embedder::error::{FlutterEmbedderError, RendererType};
use flutter_rust_windows_embedder::locale::split_locale;
use flutter_rust_windows_embedder::startup::{
    dart_arguments, init_error, renderer_arg, software_pixel_buffer, InitEvent, InitFlow, InitPhase, InitStep,
    OpenGlSlot,
};

fn init_message(step: &InitStep) -> Option<String> {
    match step {
        InitStep::Finished(Err(FlutterEmbedderError::InitializationFailed(m))) => Some(m.clone()),
        _ => None,
    }
}

#[test]
fn opengl_start_claims_the_slot() {
    let mut slot = OpenGlSlot::new();
    let (mut flow, first) = InitFlow::start(800, 600, Some(vec!["--flag".to_string()]));
    assert!(matches!(first, InitStep::LoadEngineDll));
    assert!(matches!(flow.step(&mut slot, InitEvent::DllLoaded(true)), InitStep::ReadSwapChain));
    assert!(matches!(
        flow.step(&mut slot, InitEvent::SwapChainRead(true)),
        InitStep::InitOpenGl { width: 800, height: 600 }
    ));
    assert!(slot.claimed);
    assert!(matches!(flow.step(&mut slot, InitEvent::OpenGlReady(true)), InitStep::OpenSharedOnHost));
    assert!(matches!(flow.step(&mut slot, InitEvent::SharedOpened(true)), InitStep::LoadAotData));
    assert!(matches!(
        flow.step(&mut slot, InitEvent::AotLoaded(true)),
        InitStep::RunEngine { renderer: RendererType::OpenGL, compositor: true, debug_build: false, ref dart_args }
            if *dart_args == vec!["--flag".to_string(), "--renderer=opengl".to_string()]
    ));
    assert!(matches!(
        flow.step(&mut slot, InitEvent::EngineRan(true)),
        InitStep::Finished(Ok(RendererType::OpenGL))
    ));
    assert_eq!(flow.phase, InitPhase::Done);

    let (mut second, _) = InitFlow::start(320, 200, None);
    second.step(&mut slot, InitEvent::DllLoaded(true));
    assert!(matches!(
        second.step(&mut slot, InitEvent::SwapChainRead(true)),
        InitStep::BuildSoftware { width: 320, height: 200 }
    ));
    assert!(matches!(second.step(&mut slot, InitEvent::SoftwareBuilt), InitStep::LoadAotData));
    assert!(matches!(
        second.step(&mut slot, InitEvent::AotLoaded(false)),
        InitStep::RunEngine { renderer: RendererType::Software, compositor: false, debug_build: true, ref dart_args }
            if *dart_args == vec!["--renderer=software".to_string()]
    ));
}

#[test]
fn failed_opengl_falls_back_and_frees_the_slot() {
    let mut slot = OpenGlSlot::new();
    let (mut flow, _) = InitFlow::start(800, 600, None);
    flow.step(&mut slot, InitEvent::DllLoaded(true));
    flow.step(&mut slot, InitEvent::SwapChainRead(true));
    assert!(matches!(
        flow.step(&mut slot, InitEvent::OpenGlReady(false)),
        InitStep::BuildSoftware { width: 800, height: 600 }
    ));
    assert!(!slot.claimed);

    let (mut other, _) = InitFlow::start(800, 600, None);
    other.step(&mut slot, InitEvent::DllLoaded(true));
    other.step(&mut slot, InitEvent::SwapChainRead(true));
    assert!(matches!(other.step(&mut slot, InitEvent::OpenGlReady(true)), InitStep::OpenSharedOnHost));
    assert!(matches!(other.step(&mut slot, InitEvent::SharedOpened(false)), InitStep::BuildSoftware { .. }));
    assert!(!slot.claimed);
}

#[test]
fn start_failures_give_the_initialization_error() {
    let text = "Engine handle was null after internal init.";
    let mut slot = OpenGlSlot::new();
    let (mut a, _) = InitFlow::start(800, 600, None);
    assert_eq!(init_message(&a.step(&mut slot, InitEvent::DllLoaded(false))).as_deref(), Some(text));
    let (mut b, _) = InitFlow::start(0, 600, None);
    assert_eq!(init_message(&b.step(&mut slot, InitEvent::DllLoaded(true))).as_deref(), Some(text));
    let (mut c, _) = InitFlow::start(800, 600, None);
    c.step(&mut slot, InitEvent::DllLoaded(true));
    assert_eq!(init_message(&c.step(&mut slot, InitEvent::SwapChainRead(false))).as_deref(), Some(text));
    assert!(!slot.claimed);
    let (mut d, _) = InitFlow::start(800, 600, None);
    d.step(&mut slot, InitEvent::DllLoaded(true));
    d.step(&mut slot, InitEvent::SwapChainRead(true));
    d.step(&mut slot, InitEvent::OpenGlReady(true));
    d.step(&mut slot, InitEvent::SharedOpened(true));
    d.step(&mut slot, InitEvent::AotLoaded(true));
    assert_eq!(init_message(&d.step(&mut slot, InitEvent::EngineRan(false))).as_deref(), Some(text));
    assert!(matches!(init_error(), FlutterEmbedderError::InitializationFailed(_)));
}

#[test]
fn out_of_order_event_repeats_the_pending_step() {
    let mut slot = OpenGlSlot::new();
    let (mut flow, _) = InitFlow::start(800, 600, None);
    assert!(matches!(flow.step(&mut slot, InitEvent::SoftwareBuilt), InitStep::LoadEngineDll));
    assert_eq!(flow.phase, InitPhase::AwaitDll);
}

#[test]
fn renderer_arguments() {
    assert_eq!(renderer_arg(RendererType::OpenGL), "--renderer=opengl");
    assert_eq!(renderer_arg(RendererType::Software), "--renderer=software");
    assert_eq!(
        dart_arguments(Some(vec!["--a".to_string()]), RendererType::Software),
        vec!["--a".to_string(), "--renderer=software".to_string()]
    );
    assert_eq!(dart_arguments(None, RendererType::OpenGL), vec!["--renderer=opengl".to_string()]);
}

#[test]
fn software_buffer_is_rgba_sized_and_zeroed() {
    let buf = software_pixel_buffer(4, 3);
    assert_eq!(buf.len(), 48);
    assert!(buf.iter().all(|b| *b == 0));
}

#[test]
fn slot_claim_and_release() {
    let mut slot = OpenGlSlot::new();
    assert!(slot.try_claim());
    assert!(!slot.try_claim());
    slot.release();
    assert!(slot.try_claim());
}

#[test]
fn dll_retry_gives_up_after_fifty_tries() {
    assert_eq!(ENGINE_DLL_NAME, "flutter_engine.dll");
    let mut r = LoadRetry::new();
    for _ in 0..(MAX_LOAD_ATTEMPTS - 1) {
        assert!(matches!(r.note_failure("C:\\x\\flutter_engine.dll"), RetryDecision::Retry { delay_ms: 100 }));
    }
    match r.note_failure("C:\\x\\flutter_engine.dll") {
        RetryDecision::GiveUp(m) => assert_eq!(m, "Failed to load C:\\x\\flutter_engine.dll after 50 attempts"),
        other => panic!("expected to give up, got {other:?}"),
    }
}

#[test]
fn dll_cache_loads_each_directory_once() {
    let mut cache: DllCache<u32> = DllCache::new();
    assert!(cache.lookup("C:\\a").is_none());
    cache.insert("C:\\a".to_string(), 1);
    cache.insert("C:\\b".to_string(), 2);
    assert_eq!(cache.lookup("C:\\a"), Some(&1));
    assert_eq!(cache.lookup("C:\\b"), Some(&2));
    assert!(cache.lookup("C:\\c").is_none());
}

#[test]
fn locale_names_split_into_language_and_country() {
    assert_eq!(split_locale("en-US"), Some(("en".to_string(), "US".to_string())));
    assert_eq!(split_locale("DE-de"), Some(("de".to_string(), "DE".to_string())));
    assert_eq!(split_locale("fr"), Some(("fr".to_string(), String::new())));
    assert_eq!(split_locale("zh-Hant-TW"), Some(("zh".to_string(), "HANT".to_string())));
    assert_eq!(split_locale(""), None);
}

#[test]
fn opengl_renderer_callbacks() {
    let c = build_opengl_renderer_config();
    assert!(c.make_current && c.clear_current && c.make_resource_current && c.fbo_callback);
    assert!(c.present_with_info && c.populate_existing_damage && c.gl_proc_resolver);
    assert!(!c.present && !c.fbo_reset_after_present && !c.surface_transformation);
    assert!(!c.gl_external_texture_frame_callback && !c.fbo_with_frame_info_callback);
}
