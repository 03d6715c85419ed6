use flutter_rust_windows_embedder::error::RendererType;
use flutter_rust_windows_embedder::frame::{
    copy_box, copy_regions, resize_pixel_buffer, DamageRect, FrameSync, TickPlan,
};
use flutter_rust_windows_embedder::egl::EglState;
use flutter_rust_windows_embedder::egl_start::AngleStartAction;
use flutter_rust_windows_embedder::recovery::{DeviceRecovery, RecoveryEvent, RecoveryPhase, RecoveryStep};

fn rect(left: u32, top: u32, right: u32, bottom: u32) -> DamageRect {
    DamageRect { left, top, right, bottom }
}

fn gl_overlay(w: u32, h: u32) -> FrameSync<u8> {
    FrameSync::new(RendererType::OpenGL, w, h)
}

#[test]
fn copy_box_clamps_to_texture() {
    assert_eq!(copy_box(rect(10, 20, 5000, 30), 800, 600), Some(rect(10, 20, 800, 30)));
    assert_eq!(copy_box(rect(900, 0, 1000, 10), 800, 600), None);
    assert_eq!(copy_box(rect(5, 5, 5, 10), 800, 600), None);
    assert_eq!(copy_box(rect(0, 0, 800, 600), 800, 600), Some(rect(0, 0, 800, 600)));
}

#[test]
fn copy_regions_drops_empty_and_keeps_order() {
    let damage = vec![rect(0, 0, 10, 10), rect(700, 700, 900, 900), rect(790, 590, 900, 700)];
    let boxes = copy_regions(&damage, 800, 600);
    assert_eq!(boxes, vec![rect(0, 0, 10, 10), rect(790, 590, 800, 600)]);
    for b in &boxes {
        assert!(b.left < b.right && b.top < b.bottom && b.right <= 800 && b.bottom <= 600);
    }
}

#[test]
fn new_overlay_has_no_frame_and_wants_full_repaint() {
    let mut s = gl_overlay(800, 600);
    assert_eq!(s.presented_frame_count(), Some(0));
    assert!(!s.has_first_frame());
    assert_eq!(s.existing_damage(), 0);
    assert!(!s.full_repaint);
}

#[test]
fn software_renderer_has_no_frame_counter() {
    let mut s: FrameSync<u8> = FrameSync::new(RendererType::Software, 10, 10);
    assert_eq!(s.presented_frame_count(), None);
    assert!(!s.has_first_frame());
    s.note_software_frame();
    assert!(s.has_first_frame());
    assert_eq!(s.plan_tick(false, false, true), TickPlan::UploadSoftware);
}

#[test]
fn present_replaces_buffer_damage_and_accumulates_frame_damage() {
    let mut s = gl_overlay(800, 600);
    s.record_present(vec![1, 2], vec![rect(0, 0, 1, 1)]);
    s.record_present(vec![3], vec![rect(2, 2, 3, 3)]);
    assert_eq!(s.buffer_damage, vec![3]);
    assert_eq!(s.frame_damage, vec![rect(0, 0, 1, 1), rect(2, 2, 3, 3)]);
    assert_eq!(s.presented, 2);
    assert!(s.has_first_frame());
}

#[test]
fn full_repaint_is_reported_once() {
    let mut s = gl_overlay(800, 600);
    s.record_present(vec![7, 8, 9], Vec::new());
    s.request_full_repaint();
    assert_eq!(s.existing_damage(), 0);
    assert_eq!(s.existing_damage(), 3);
}

#[test]
fn tick_copies_damage_once() {
    let mut s = gl_overlay(800, 600);
    s.record_present(Vec::new(), vec![rect(0, 0, 100, 100), rect(750, 550, 900, 900)]);
    let p = s.plan_tick(false, false, true);
    assert_eq!(p, TickPlan::CopyRegions(vec![rect(0, 0, 100, 100), rect(750, 550, 800, 600)]));
    assert_eq!(s.copied, s.presented);
    assert!(s.frame_damage.is_empty());
    assert_eq!(s.plan_tick(false, false, true), TickPlan::Idle);
}

#[test]
fn tick_without_damage_acknowledges() {
    let mut s = gl_overlay(800, 600);
    s.record_present(Vec::new(), Vec::new());
    assert_eq!(s.plan_tick(false, false, true), TickPlan::Acknowledge);
    assert_eq!(s.plan_tick(false, false, true), TickPlan::Idle);
}

#[test]
fn tick_waits_while_device_lost_or_texture_closed() {
    let mut s = gl_overlay(800, 600);
    s.record_present(Vec::new(), vec![rect(0, 0, 1, 1)]);
    assert_eq!(s.plan_tick(false, true, true), TickPlan::Idle);
    assert_eq!(s.plan_tick(false, false, false), TickPlan::Idle);
    assert_eq!(s.frame_damage.len(), 1);
    assert_eq!(s.copied, 0);
}

#[test]
fn hidden_overlay_keeps_secondary_views_going() {
    let mut s = gl_overlay(800, 600);
    s.visible = false;
    s.record_present(Vec::new(), Vec::new());
    assert_eq!(s.plan_tick(false, false, true), TickPlan::Idle);
    assert_eq!(s.plan_tick(true, false, true), TickPlan::HiddenHandoff { acknowledge: true });
    assert_eq!(s.plan_tick(true, false, true), TickPlan::HiddenHandoff { acknowledge: false });
}

#[test]
fn resize_software_overlay() {
    let mut s: FrameSync<u8> = FrameSync::new(RendererType::Software, 800, 600);
    assert!(s.plan_resize(0, 0, (0, 0, 800, 600), false, true, true, false, true).is_none());
    let w = s.plan_resize(0, 0, (10, 20, 1024, 768), false, true, true, false, true).unwrap();
    assert_eq!(w.pixel_buffer_len, Some(1024 * 768 * 4));
    assert_eq!(w.pending_gl_resize, None);
    assert!(w.send_metrics);
    assert_eq!((s.width, s.height), (1024, 768));
}

#[test]
fn forced_resize_of_gl_overlay_asks_full_repaint() {
    let mut s = gl_overlay(800, 600);
    s.existing_damage();
    let w = s.plan_resize(0, 0, (0, 0, 800, 600), true, true, false, true, false).unwrap();
    assert_eq!(w.pending_gl_resize, Some((800, 600)));
    assert_eq!(w.pixel_buffer_len, None);
    assert!(!w.send_metrics);
    assert!(s.full_repaint);
}

#[test]
fn resize_without_device_only_takes_the_size() {
    let mut s = gl_overlay(800, 600);
    s.existing_damage();
    let w = s.plan_resize(0, 0, (0, 0, 640, 480), false, false, false, true, true).unwrap();
    assert_eq!(w.pending_gl_resize, None);
    assert!(!w.send_metrics);
    assert!(!s.full_repaint);
    assert_eq!((s.width, s.height), (640, 480));
}

#[test]
fn pixel_buffer_grows_with_zeros_and_keeps_prefix() {
    let mut buf = vec![1u8, 2, 3];
    resize_pixel_buffer(&mut buf, 6);
    assert_eq!(buf, vec![1, 2, 3, 0, 0, 0]);
    resize_pixel_buffer(&mut buf, 2);
    assert_eq!(buf, vec![1, 2]);
}

fn lost_egl() -> EglState {
    let mut egl = EglState::new(7);
    egl.device_lost = true;
    let _ = egl.begin_reinitialize();
    egl
}

fn ready(display: usize) -> AngleStartAction {
    AngleStartAction::Ready { display, config: 1, d3d11_device: 2 }
}

#[test]
fn recovery_success_path() {
    let mut s = gl_overlay(800, 600);
    s.record_present(Vec::new(), vec![rect(0, 0, 1, 1)]);
    s.existing_damage();
    let mut egl = lost_egl();
    let (mut r, step) = DeviceRecovery::start(Some(&egl));
    assert_eq!(step, RecoveryStep::Reinitialize);
    assert_eq!(
        r.step(&mut s, &mut egl, RecoveryEvent::Reinitialized(ready(9))),
        RecoveryStep::RecreateResources { width: 800, height: 600 }
    );
    assert_eq!(s.copied, s.presented);
    assert!(!egl.device_lost);
    assert_eq!(egl.display, 9);
    assert_eq!(r.step(&mut s, &mut egl, RecoveryEvent::ResourcesRecreated(true)), RecoveryStep::GetDevice);
    assert_eq!(r.step(&mut s, &mut egl, RecoveryEvent::DeviceObtained(true)), RecoveryStep::OpenSharedResource);
    assert!(!s.full_repaint);
    assert!(!r.shared_reopened);
    assert_eq!(r.step(&mut s, &mut egl, RecoveryEvent::SharedOpened(true)), RecoveryStep::Finished(true));
    assert!(s.full_repaint);
    assert!(r.shared_reopened);
    assert_eq!(r.phase, RecoveryPhase::Done);
}

#[test]
fn recovery_failure_and_nothing_to_do() {
    let mut s = gl_overlay(800, 600);
    let healthy = EglState::new(3);
    let (_, step) = DeviceRecovery::start(Some(&healthy));
    assert_eq!(step, RecoveryStep::Finished(true));
    let (_, step) = DeviceRecovery::start(None);
    assert_eq!(step, RecoveryStep::Finished(true));
    let mut egl = lost_egl();
    let (mut r, _) = DeviceRecovery::start(Some(&egl));
    assert_eq!(r.step(&mut s, &mut egl, RecoveryEvent::DeviceObtained(true)), RecoveryStep::Reinitialize);
    assert_eq!(
        r.step(&mut s, &mut egl, RecoveryEvent::Reinitialized(ready(4))),
        RecoveryStep::RecreateResources { width: 800, height: 600 }
    );
    assert_eq!(r.step(&mut s, &mut egl, RecoveryEvent::ResourcesRecreated(false)), RecoveryStep::Finished(false));
    let mut egl = lost_egl();
    let (mut r, _) = DeviceRecovery::start(Some(&egl));
    assert_eq!(
        r.step(&mut s, &mut egl, RecoveryEvent::Reinitialized(AngleStartAction::Fail("lost".to_string()))),
        RecoveryStep::Finished(false)
    );
    assert!(egl.device_lost);
    assert_eq!(egl.display, 0);
}
