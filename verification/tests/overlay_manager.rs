use flutter_rust_windows_embedder::error::FlutterEmbedderError;
use flutter_rust_windows_embedder::keybind::{Keybind, Modifiers};
use flutter_rust_windows_embedder::manager::{EffectKind, OverlayManager, OverlayState, RuntimeFlags, RECOVERY_COOLDOWN_FRAMES};
use flutter_rust_windows_embedder::winmsg::{WM_KEYDOWN, WM_LBUTTONDOWN};

type Manager = OverlayManager<u32, &'static str, &'static str>;

fn manager_with(names: &[&str]) -> Manager {
    let mut m = Manager::new();
    for (i, n) in names.iter().enumerate() {
        let st = OverlayState::new(n.to_string(), 0, 0, 800, 600);
        assert!(m.add_overlay_instance(st, i as u32).is_none());
    }
    m
}

fn names(m: &Manager) -> Vec<String> {
    m.get_all_overlay_dimensions().into_iter().map(|(n, _)| n).collect()
}

const NO_MODS: Modifiers = Modifiers { ctrl: false, shift: false, alt: false };

#[test]
fn identifier_lookup() {
    let empty = Manager::new();
    assert_eq!(empty.get_instance(None).unwrap_err(), "No active overlay instance found.");
    let one = manager_with(&["main"]);
    assert_eq!(one.get_instance(None), Ok(0));
    assert_eq!(one.get_instance(Some("main")), Ok(0));
    assert_eq!(one.get_instance(Some("x")).unwrap_err(), "No overlay with identifier 'x' found.");
    let two = manager_with(&["a", "b"]);
    assert_eq!(two.get_instance(None).unwrap_err(), "Multiple overlays exist; an identifier is required.");
}

#[test]
fn add_then_shutdown_restores_the_overlays() {
    let mut m = manager_with(&["a", "b"]);
    m.add_overlay_instance(OverlayState::new("c".to_string(), 0, 0, 1, 1), 9);
    assert_eq!(names(&m), vec!["a", "b", "c"]);
    assert_eq!(m.shutdown_instance("c"), Some(9));
    assert_eq!(names(&m), vec!["a", "b"]);
    assert_eq!(m.shutdown_instance("c"), None);
    assert_eq!(m.shutdown_all_instances(), vec![0, 1]);
    assert_eq!(m.len(), 0);
}

#[test]
fn focus_follows_the_overlays() {
    let mut m = manager_with(&["a", "b"]);
    assert!(m.is_focused(Some("a")));
    m.set_keyboard_focus(Some("b"));
    assert!(m.is_focused(Some("b")));
    m.shutdown_instance("b");
    assert!(m.is_focused(Some("a")));
}

#[test]
fn bring_to_front_raises() {
    let mut m = manager_with(&["a", "b", "c"]);
    m.bring_to_front(Some("a"));
    assert_eq!(names(&m), vec!["b", "c", "a"]);
}

#[test]
fn topmost_overlay_at_point() {
    let mut m = manager_with(&["a", "b"]);
    assert_eq!(m.find_topmost_overlay_at_position(10, 10), Some("b".to_string()));
    m.set_overlay_visibility(Some("b"), false);
    assert_eq!(m.find_topmost_overlay_at_position(10, 10), Some("a".to_string()));
    assert_eq!(m.find_topmost_overlay_at_position(900, 10), None);
}

#[test]
fn visibility_keybind_fired_twice_restores_visibility() {
    let mut m = manager_with(&["ui"]);
    let f10 = Keybind { vk: 0x79, ctrl: false, shift: false, alt: false };
    assert!(m.register_visibility_toggle("toggle_ui", Some(f10), "ui", Some("cb")));
    let out = m.handle_input_event(WM_KEYDOWN, 0x79, 0, NO_MODS);
    assert!(out.consumed);
    let t = out.toggle.unwrap();
    assert!(!t.visible);
    assert_eq!(t.message.channel, "overlay/visibility");
    assert_eq!(t.message.payload_bytes, b"false".to_vec());
    assert_eq!(m.visible_names(), Vec::<String>::new());
    let out = m.handle_input_event(WM_KEYDOWN, 0x79, 0, NO_MODS);
    let t = out.toggle.unwrap();
    assert!(t.visible);
    assert_eq!(t.message.payload_bytes, b"true".to_vec());
    assert_eq!(m.visible_names(), vec!["ui".to_string()]);
    let held = m.handle_input_event(WM_KEYDOWN, 0x79, 1 << 30, NO_MODS);
    assert!(held.consumed && held.toggle.is_none());
}

#[test]
fn toggle_callback_decides_whether_the_key_is_consumed() {
    let mut m = manager_with(&["ui"]);
    let f10 = Keybind { vk: 0x79, ctrl: false, shift: false, alt: false };
    assert!(m.register_visibility_toggle("toggle_ui", Some(f10), "ui", Some("cb")));
    let out = m.handle_input_event(WM_KEYDOWN, 0x79, 0, NO_MODS);
    assert!(out.toggle.is_some());
    assert!(!out.consumed_with(Some(false)));
    assert!(out.consumed_with(Some(true)));
    assert!(out.consumed_with(None));
    let held = m.handle_input_event(WM_KEYDOWN, 0x79, 1 << 30, NO_MODS);
    assert!(held.consumed_with(Some(false)));
}

#[test]
fn keybind_actions_fire_once_per_press() {
    let mut m = manager_with(&["ui"]);
    let k = Keybind { vk: 0x41, ctrl: true, shift: false, alt: false };
    assert!(m.register_keybind_action("act", Some(k), "jump", "ui", Some("cb"), false));
    let ctrl = Modifiers { ctrl: true, shift: false, alt: false };
    let out = m.handle_input_event(WM_KEYDOWN, 0x41, 0, ctrl);
    assert!(out.consumed);
    assert_eq!(out.fired_action, Some(0));
    let (target, message) = out.action_message.unwrap();
    assert_eq!(target, "ui");
    assert_eq!(message.channel, "overlay/keybind");
    assert_eq!(message.payload_bytes, b"jump".to_vec());
    let repeat = m.handle_input_event(WM_KEYDOWN, 0x41, 1 << 30, ctrl);
    assert!(repeat.consumed && repeat.fired_action.is_none() && repeat.action_message.is_none());
    let plain = m.handle_input_event(WM_KEYDOWN, 0x41, 0, NO_MODS);
    assert!(plain.fired_action.is_none());
}

#[test]
fn pointer_goes_to_the_topmost_overlay_first() {
    let mut m = manager_with(&["a", "b"]);
    assert!(m.sync_runtime("a", RuntimeFlags {
        hovered: true,
        has_first_frame: true,
        device_lost: false,
        engine_running: true,
        has_secondary_views: false,
    }));
    let out = m.handle_input_event(WM_LBUTTONDOWN, 0, 0, NO_MODS);
    assert_eq!(out.pointer_targets, vec!["b".to_string(), "a".to_string()]);
    assert!(out.consumed);
    assert_eq!(names(&m), vec!["b", "a"]);
}

#[test]
fn failed_recovery_waits_for_the_cooldown() {
    let mut m = manager_with(&["a"]);
    assert!(m.sync_runtime("a", RuntimeFlags {
        hovered: false,
        has_first_frame: true,
        device_lost: true,
        engine_running: true,
        has_secondary_views: false,
    }));
    assert!(m.is_any_device_lost());
    assert!(m.should_attempt_recovery());
    assert!(!m.finish_device_recovery(false));
    for _ in 0..RECOVERY_COOLDOWN_FRAMES {
        assert!(!m.should_attempt_recovery());
    }
    assert!(m.should_attempt_recovery());
}

#[test]
fn resize_moves_every_changed_overlay() {
    let mut m = manager_with(&["a", "b"]);
    let resized = m.handle_resize(5, 6, 1024, 768);
    assert_eq!(resized, vec!["a".to_string(), "b".to_string()]);
    assert_eq!(m.get_all_overlay_dimensions()[0].1, (1024, 768));
    assert!(m.handle_resize(5, 6, 1024, 768).is_empty());
}

#[test]
fn tick_plan_only_ticks_visible_overlays_with_a_frame() {
    let mut m = manager_with(&["a", "b"]);
    m.sync_runtime("b", RuntimeFlags {
        hovered: false,
        has_first_frame: true,
        device_lost: false,
        engine_running: true,
        has_secondary_views: false,
    });
    assert_eq!(m.plan_tick_overlays(), vec![("a".to_string(), false), ("b".to_string(), true)]);
}

#[test]
fn view_host_needs_a_swap_chain_and_an_overlay() {

    let mut m = manager_with(&["main"]);
    match m.view_host(None, None) {
        Err(FlutterEmbedderError::OperationFailed(s)) => {
            assert_eq!(s, "OverlayManager has no swap chain; cannot derive game device")
        }
        _ => panic!("expected the missing swap chain"),
    }
    assert!(m.begin_init("other", 1920, 1080).is_none());
    match m.view_host(None, Some("E_FAIL")) {
        Err(FlutterEmbedderError::OperationFailed(s)) => assert_eq!(s, "swap_chain.GetDevice failed: E_FAIL"),
        _ => panic!("expected the device error"),
    }
    assert!(matches!(m.view_host(None, None), Ok(0)));
    match m.view_host(Some("nope"), None) {
        Err(FlutterEmbedderError::OperationFailed(s)) => assert_eq!(s, "No overlay with identifier 'nope' found."),
        _ => panic!("expected the lookup error"),
    }
}

#[test]
fn init_with_an_existing_identifier_takes_the_old_overlay_out() {
    let mut m = manager_with(&["a", "b"]);
    assert_eq!(m.begin_init("a", 1280, 720), Some(0));
    assert_eq!(names(&m), vec!["b".to_string()]);
    assert!(m.add_overlay_instance(OverlayState::new("a".to_string(), 0, 0, 10, 10), 7).is_none());
    assert_eq!(names(&m), vec!["b".to_string(), "a".to_string()]);
    assert_eq!(m.begin_init("c", 1280, 720), None);
    assert_eq!(names(&m), vec!["b".to_string(), "a".to_string()]);
}

#[test]
fn glitch_runs_its_frames_then_clears_itself() {
    let mut m = manager_with(&["a"]);
    assert!(m.sync_runtime("a", RuntimeFlags {
        hovered: false,
        has_first_frame: true,
        device_lost: false,
        engine_running: true,
        has_secondary_views: false,
    }));
    m.trigger_glitch_effect(Some("a"), 3);
    let mut seen = Vec::new();
    for _ in 0..3 {
        let plan = m.plan_render_ui();
        seen.push(plan.steps[0].glitch_frame);
    }
    assert_eq!(seen, vec![Some((2, 3)), Some((1, 3)), Some((0, 3))]);
    assert_eq!(m.entry(0).state.effect.kind, EffectKind::Passthrough);
    assert_eq!(m.entry(0).state.effect.frames_remaining, 0);
    assert_eq!(m.plan_render_ui().steps[0].glitch_frame, None);
}
