use flutter_rust_windows_embedder::cursor::{cursor_for_kind, cursor_for_set_cursor, CursorKind};
use flutter_rust_windows_embedder::keybind::{Keybind, Modifiers};
use flutter_rust_windows_embedder::metrics::{screen_size_from, should_skip_resize};
use flutter_rust_windows_embedder::pointer::{
    buttons_from_mk, decode_mouse_message, MouseButton, MouseMessage, OverlayPointerState, PointerPhase,
    PointerSample, WindowPointerState,
};
use flutter_rust_windows_embedder::satellite::{
    can_open_shared_texture, extent, nc_hit_test, needs_host_texture_recreate, pack_size, resize_border,
    should_copy_frame, unpack_size, window_style_bits, wm_size_pending, Placement, Rect, RestoreAction, WindowStyle, HTBOTTOMRIGHT,
    HTLEFT, HTTOPLEFT, WS_MAXIMIZEBOX, WS_OVERLAPPEDWINDOW, WS_THICKFRAME,
};
use flutter_rust_windows_embedder::winmsg::{
    lparam_x, lparam_y, wparam_wheel_delta, MK_LBUTTON, MK_RBUTTON, WM_LBUTTONDOWN, WM_MOUSEMOVE, WM_MOUSEWHEEL,
};

fn lparam(x: i16, y: i16) -> isize {
    (((y as u16 as u32) << 16) | (x as u16 as u32)) as isize
}

#[test]
fn lparam_coordinates_are_signed() {
    let lp = lparam(-3, 700);
    assert_eq!(lparam_x(lp), -3);
    assert_eq!(lparam_y(lp), 700);
    assert_eq!(wparam_wheel_delta(((-120i16 as u16 as usize) << 16) as usize), -120);
}

#[test]
fn mouse_messages_decode() {
    assert_eq!(
        decode_mouse_message(WM_MOUSEMOVE, MK_LBUTTON as usize, lparam(5, 6)),
        MouseMessage::Move { x: 5, y: 6, mk: MK_LBUTTON }
    );
    assert_eq!(
        decode_mouse_message(WM_LBUTTONDOWN, 0, lparam(1, 2)),
        MouseMessage::ButtonDown { button: MouseButton::Left, x: 1, y: 2, mk: 0 }
    );
    assert_eq!(
        decode_mouse_message(WM_MOUSEWHEEL, (120usize) << 16, lparam(9, 9)),
        MouseMessage::Wheel { delta: 120, x: 9, y: 9 }
    );
    assert_eq!(decode_mouse_message(0x9999, 0, 0), MouseMessage::Other);
}

#[test]
fn overlay_pointer_press_and_release() {
    let mut st = OverlayPointerState::new();
    let r = st.handle(true, MouseMessage::ButtonDown { button: MouseButton::Left, x: 10, y: 20, mk: 0 }, None);
    assert!(r.handled);
    assert_eq!(
        r.samples,
        vec![
            PointerSample { phase: PointerPhase::Add, x: 10, y: 20, wheel_delta: 0, buttons: 0 },
            PointerSample { phase: PointerPhase::Down, x: 10, y: 20, wheel_delta: 0, buttons: MK_LBUTTON as i64 },
        ]
    );
    let r = st.handle(true, MouseMessage::ButtonUp { button: MouseButton::Left, x: 11, y: 21, mk: 0 }, None);
    assert_eq!(r.samples, vec![PointerSample { phase: PointerPhase::Up, x: 11, y: 21, wheel_delta: 0, buttons: 1 }]);
    assert_eq!(st.buttons, 0);
    let r = st.handle(true, MouseMessage::NcMouseLeave, None);
    assert!(!r.handled);
    assert_eq!(r.samples[0].phase, PointerPhase::Remove);
    assert!(!st.mouse_added);
    let r = st.handle(false, MouseMessage::Move { x: 0, y: 0, mk: 0 }, None);
    assert!(!r.handled && r.samples.is_empty());
}

#[test]
fn overlay_wheel_uses_client_point() {
    let mut st = OverlayPointerState::new();
    let r = st.handle(true, MouseMessage::Wheel { delta: -240, x: 500, y: 500 }, Some((5, 6)));
    assert_eq!(r.samples, vec![PointerSample { phase: PointerPhase::Hover, x: 5, y: 6, wheel_delta: -240, buttons: 0 }]);
    assert!(r.samples[0].is_scroll());
    let r = st.handle(true, MouseMessage::Wheel { delta: -240, x: 500, y: 500 }, None);
    assert!(r.handled && r.samples.is_empty());
}

#[test]
fn window_pointer_adds_then_moves() {
    assert_eq!(buttons_from_mk(MK_LBUTTON | MK_RBUTTON), 3);
    let mut st = WindowPointerState::new();
    let r = st.handle(-1, MouseMessage::Move { x: 1, y: 1, mk: 0 });
    assert!(!r.handled);
    let r = st.handle(4, MouseMessage::Move { x: 1, y: 2, mk: 0 });
    assert!(r.handled && r.track_leave);
    assert_eq!(r.samples.len(), 2);
    assert_eq!(r.samples[0].phase, PointerPhase::Add);
    assert_eq!(r.samples[1].phase, PointerPhase::Hover);
    let r = st.handle(4, MouseMessage::Move { x: 1, y: 2, mk: MK_LBUTTON });
    assert!(!r.track_leave);
    assert_eq!(r.samples, vec![PointerSample { phase: PointerPhase::Move, x: 1, y: 2, wheel_delta: 0, buttons: 1 }]);
    let r = st.handle(4, MouseMessage::MouseLeave { x: 3, y: 4 });
    assert_eq!(r.samples[0].phase, PointerPhase::Remove);
    assert!(!st.mouse_added);
}

#[test]
fn cursors() {
    assert_eq!(cursor_for_kind("click"), Some(CursorKind::Hand));
    assert_eq!(cursor_for_kind("text"), Some(CursorKind::IBeam));
    assert_eq!(cursor_for_kind("basic.forbidden"), Some(CursorKind::No));
    assert_eq!(cursor_for_kind("grab"), None);
    let wanted = Some("basic".to_string());
    assert_eq!(cursor_for_set_cursor(true, 1, &wanted), Some(CursorKind::Arrow));
    assert_eq!(cursor_for_set_cursor(false, 1, &wanted), None);
    assert_eq!(cursor_for_set_cursor(true, 2, &wanted), None);
    assert_eq!(cursor_for_set_cursor(true, 1, &None), None);
}

#[test]
fn keybinds_need_exact_modifiers() {
    let k = Keybind { vk: 0x79, ctrl: true, shift: false, alt: false };
    assert!(k.matches(0x79, Modifiers { ctrl: true, shift: false, alt: false }));
    assert!(!k.matches(0x79, Modifiers { ctrl: true, shift: true, alt: false }));
    assert!(!k.matches(0x78, Modifiers { ctrl: true, shift: false, alt: false }));
}

#[test]
fn resize_skipping() {
    assert!(should_skip_resize((0, 0, 10, 10), (0, 0, 10, 10), false));
    assert!(!should_skip_resize((0, 0, 10, 10), (0, 0, 10, 10), true));
    assert!(!should_skip_resize((0, 0, 10, 10), (1, 0, 10, 10), false));
}

#[test]
fn window_styles() {
    let d = WindowStyle::default();
    assert!(d.decorated && d.resizable);
    assert_eq!(window_style_bits(d), WS_OVERLAPPEDWINDOW);
    let fixed = window_style_bits(WindowStyle { decorated: true, resizable: false });
    assert_eq!(fixed & (WS_THICKFRAME | WS_MAXIMIZEBOX), 0);
    let popup = window_style_bits(WindowStyle { decorated: false, resizable: true });
    assert_eq!(popup & 0x8000_0000, 0x8000_0000);
}

#[test]
fn border_hit_testing() {
    assert_eq!(resize_border(96), 8);
    assert_eq!(resize_border(144), 12);
    let rc = Rect { left: 100, top: 100, right: 500, bottom: 400 };
    let style = WS_OVERLAPPEDWINDOW;
    assert_eq!(nc_hit_test(style, false, rc, lparam(101, 101), 96), Some(HTTOPLEFT));
    assert_eq!(nc_hit_test(style, false, rc, lparam(499, 399), 96), Some(HTBOTTOMRIGHT));
    assert_eq!(nc_hit_test(style, false, rc, lparam(102, 250), 96), Some(HTLEFT));
    assert_eq!(nc_hit_test(style, false, rc, lparam(300, 250), 96), None);
    assert_eq!(nc_hit_test(style, true, rc, lparam(101, 101), 96), None);
    assert_eq!(nc_hit_test(style & !WS_THICKFRAME, false, rc, lparam(101, 101), 96), None);
}

#[test]
fn sizes_pack_and_unpack() {
    assert_eq!(pack_size(1920, 1080), (1920u64 << 32) | 1080);
    assert_eq!(unpack_size(pack_size(1920, 1080)), (1920, 1080));
    assert_eq!(unpack_size(pack_size(u32::MAX, 0)), (u32::MAX, 0));
    assert_eq!(extent(10, 5), 1);
    assert_eq!(extent(-10, 5), 15);
    assert_eq!(wm_size_pending(lparam(800, 600)), Some(pack_size(800, 600)));
    assert_eq!(wm_size_pending(lparam(0, 600)), None);
}

#[test]
fn maximize_then_restore_gives_back_the_rectangle() {
    let mut p = Placement::new();
    let window = Rect { left: 10, top: 20, right: 810, bottom: 620 };
    let work = Rect { left: 0, top: 0, right: 1920, bottom: 1040 };
    let mv = p.maximize(Some(window), Some(work)).unwrap();
    assert_eq!(mv.rect, work);
    assert_eq!(unpack_size(mv.pending), (1920, 1040));
    assert!(p.maximize(Some(work), Some(work)).is_none());
    assert_eq!(p.restore(), RestoreAction::MoveTo(window));
    assert!(!p.maximized);
    assert_eq!(p.restore(), RestoreAction::Nothing);
}

#[test]
fn restore_brings_back_a_minimized_window() {
    let mut p = Placement::new();
    p.note_minimized(true);
    assert!(p.minimized);
    assert_eq!(p.restore(), RestoreAction::Unminimize);
    assert!(!p.minimized);
    assert_eq!(p.restore(), RestoreAction::Nothing);
    let window = Rect { left: 1, top: 2, right: 3, bottom: 4 };
    let work = Rect { left: 0, top: 0, right: 100, bottom: 100 };
    assert!(p.maximize(Some(window), Some(work)).is_some());
    p.note_minimized(true);
    assert_eq!(p.restore(), RestoreAction::Unminimize);
    assert!(p.maximized);
    assert_eq!(p.restore(), RestoreAction::MoveTo(window));
}

#[test]
fn frame_copy_decisions() {
    assert!(should_copy_frame(3, 2));
    assert!(!should_copy_frame(2, 2));
    assert!(needs_host_texture_recreate((10, 10), (10, 11)));
    assert!(!needs_host_texture_recreate((10, 10), (10, 10)));
    assert!(can_open_shared_texture(Some((10, 10)), 10, 10));
    assert!(!can_open_shared_texture(Some((10, 10)), 10, 11));
    assert!(!can_open_shared_texture(None, 10, 10));
}

#[test]
fn published_screen_size_reads_back() {
    assert_eq!(screen_size_from(0), None);
    assert_eq!(screen_size_from(pack_size(2560, 1440)), Some((2560, 1440)));
    assert_eq!(screen_size_from(pack_size(0, 1)), Some((0, 1)));
}
