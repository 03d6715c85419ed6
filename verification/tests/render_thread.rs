use flutter_rust_windows_embedder::clock::AnimationClock;
use flutter_rust_windows_embedder::egl::{EglState, EGL_CONTEXT_LOST, EGL_TRUE};
use flutter_rust_windows_embedder::make_current::{MakeCurrentAction, MakeCurrentEvent, MakeCurrentFlow, MakeCurrentPhase};
use flutter_rust_windows_embedder::metrics::pointer_pos_bits;
use flutter_rust_windows_embedder::satellite::pack_size;

#[test]
fn first_call_resizes_creates_the_context_and_binds() {
    let mut egl = EglState::new(1);
    egl.pending_resize = Some((640, 480));
    egl.install_pbuffer(10);
    egl.install_pbuffer(11);
    let (mut flow, a) = MakeCurrentFlow::start(&mut egl, 7);
    assert!(matches!(a, MakeCurrentAction::RecreateResources { width: 640, height: 480 }));
    assert_eq!(egl.pending_resize, None);
    assert!(matches!(flow.step(&mut egl, MakeCurrentEvent::Recreated), MakeCurrentAction::AcquireMutex));
    assert!(matches!(flow.step(&mut egl, MakeCurrentEvent::Acquired), MakeCurrentAction::CreateContext));
    match flow.step(&mut egl, MakeCurrentEvent::ContextCreated(99)) {
        MakeCurrentAction::Bind { destroy } => assert_eq!(destroy, vec![10]),
        other => panic!("unexpected {:?}", other),
    }
    assert!(egl.old_pbuffers.is_empty());
    assert_eq!(egl.context, 99);
    assert_eq!(egl.main_thread, Some(7));
    assert!(matches!(
        flow.step(&mut egl, MakeCurrentEvent::MadeCurrent { result: EGL_TRUE, error: 0 }),
        MakeCurrentAction::Finish(true)
    ));
    assert_eq!(flow.phase, MakeCurrentPhase::Done);
}

#[test]
fn later_calls_refuse_other_threads_and_lost_devices() {
    let mut egl = EglState::new(1);
    let (mut flow, a) = MakeCurrentFlow::start(&mut egl, 7);
    assert!(matches!(a, MakeCurrentAction::AcquireMutex));
    flow.step(&mut egl, MakeCurrentEvent::Acquired);
    flow.step(&mut egl, MakeCurrentEvent::ContextCreated(5));
    let (mut other, _) = MakeCurrentFlow::start(&mut egl, 8);
    assert!(matches!(other.step(&mut egl, MakeCurrentEvent::Acquired), MakeCurrentAction::Finish(false)));
    let (mut same, _) = MakeCurrentFlow::start(&mut egl, 7);
    assert!(matches!(same.step(&mut egl, MakeCurrentEvent::Acquired), MakeCurrentAction::Bind { .. }));
    assert!(matches!(
        same.step(&mut egl, MakeCurrentEvent::MadeCurrent { result: 0, error: EGL_CONTEXT_LOST }),
        MakeCurrentAction::Finish(false)
    ));
    assert!(egl.device_lost);
    let (mut after, _) = MakeCurrentFlow::start(&mut egl, 7);
    assert!(matches!(after.step(&mut egl, MakeCurrentEvent::Acquired), MakeCurrentAction::Finish(false)));
}

#[test]
fn failed_context_creation_marks_the_device_lost() {
    let mut egl = EglState::new(1);
    let (mut flow, _) = MakeCurrentFlow::start(&mut egl, 3);
    flow.step(&mut egl, MakeCurrentEvent::Acquired);
    assert!(matches!(flow.step(&mut egl, MakeCurrentEvent::ContextCreated(0)), MakeCurrentAction::Finish(false)));
    assert!(egl.device_lost);
    assert_eq!(egl.context, 0);
}

#[test]
fn animation_clock_pauses_and_resumes() {
    let mut c = AnimationClock::new(1000);
    assert_eq!(c.time(1500), 500);
    c.pause(1600);
    assert_eq!(c.time(5000), 600);
    c.pause(7000);
    assert_eq!(c.time(9000), 600);
    c.resume(10_000);
    assert_eq!(c.time(10_000), 600);
    assert_eq!(c.time(10_250), 850);
    c.resume(20_000);
    assert_eq!(c.time(20_000), 10_600);
}

#[test]
fn pointer_position_bits_round_trip() {
    assert_eq!(pointer_pos_bits(0), None);
    let (x, y) = (12.5f32, -3.0f32);
    let word = pack_size(x.to_bits(), y.to_bits());
    let (bx, by) = pointer_pos_bits(word).unwrap();
    assert_eq!((f32::from_bits(bx), f32::from_bits(by)), (x, y));
}
