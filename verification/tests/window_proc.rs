use flutter_rust_windows_embedder::controls::{WM_APP_CLOSE, WM_APP_MAXIMIZE, WM_APP_MINIMIZE, WM_APP_RESTORE};
use flutter_rust_windows_embedder::error::FlutterEmbedderError;
use flutter_rust_windows_embedder::satellite::{pack_size, unpack_size, Rect, HTBOTTOMRIGHT, WS_THICKFRAME};
use flutter_rust_windows_embedder::window_thread::{ThreadPhase, WindowThread, WindowThreadAction, WindowThreadEvent};
use flutter_rust_windows_embedder::winmsg::{WM_KEYDOWN, WM_SYSKEYDOWN};
use flutter_rust_windows_embedder::wndproc::{
    MessageContext, ProcAction, WindowProcState, WM_CLOSE, WM_DESTROY, WM_DPICHANGED, WM_NCCALCSIZE, WM_NCHITTEST,
    WM_SETFOCUS, WM_SIZE, WM_TIMER, MODAL_PUMP_TIMER_ID, SIZE_MINIMIZED,
};

fn lparam(x: i16, y: i16) -> isize {
    (((y as u16 as u32) << 16) | (x as u16 as u32)) as isize
}

fn ctx() -> MessageContext {
    MessageContext {
        style: WS_THICKFRAME,
        window_rect: Rect { left: 100, top: 100, right: 900, bottom: 700 },
        work_area: Some(Rect { left: 0, top: 0, right: 1920, bottom: 1040 }),
        dpi: 96,
        suggested_rect: None,
    }
}

#[test]
fn close_messages_only_set_the_flag() {
    for msg in [WM_CLOSE, WM_APP_CLOSE] {
        let mut s = WindowProcState::new();
        let before = s;
        assert_eq!(s.on_message(msg, 0, 0, ctx()), ProcAction::Handled);
        assert!(s.should_close);
        assert_eq!(WindowProcState { should_close: false, ..s }, before);
    }
}

#[test]
fn size_messages_record_the_pending_size() {
    let mut s = WindowProcState::new();
    assert_eq!(s.on_message(WM_SIZE, 0, lparam(640, 480), ctx()), ProcAction::Handled);
    assert_eq!(s.pending_resize, pack_size(640, 480));
    assert_eq!(s.on_message(WM_SIZE, 0, lparam(0, 480), ctx()), ProcAction::Handled);
    assert_eq!(s.pending_resize, pack_size(640, 480));
    assert_eq!(s.take_pending_resize(), Some(pack_size(640, 480)));
    assert_eq!(s.take_pending_resize(), None);
    s.on_message(WM_SIZE, SIZE_MINIMIZED, 0, ctx());
    assert!(s.placement.minimized);
    assert_eq!(s.on_message(WM_APP_RESTORE, 0, 0, ctx()), ProcAction::Unminimize);
    assert!(!s.placement.minimized);
}

#[test]
fn maximize_then_restore_through_messages() {
    let mut s = WindowProcState::new();
    assert_eq!(s.on_message(WM_APP_MINIMIZE, 0, 0, ctx()), ProcAction::Minimize);
    let a = s.on_message(WM_APP_MAXIMIZE, 0, 0, ctx());
    assert_eq!(a, ProcAction::Move { rect: ctx().work_area.unwrap(), frame_changed: true, read_client: false });
    assert_eq!(unpack_size(s.pending_resize), (1920, 1040));
    assert_eq!(s.on_message(WM_APP_MAXIMIZE, 0, 0, ctx()), ProcAction::Handled);
    let a = s.on_message(WM_APP_RESTORE, 0, 0, ctx());
    assert_eq!(a, ProcAction::Move { rect: ctx().window_rect, frame_changed: true, read_client: true });
    s.note_client_rect(Rect { left: 0, top: 0, right: 800, bottom: 600 });
    assert_eq!(unpack_size(s.pending_resize), (800, 600));
    assert_eq!(s.on_message(WM_APP_RESTORE, 0, 0, ctx()), ProcAction::Handled);
}

#[test]
fn frame_hit_test_and_modal_pump() {
    let mut s = WindowProcState::new();
    assert_eq!(s.on_message(WM_NCCALCSIZE, 1, 0, ctx()), ProcAction::Handled);
    assert_eq!(s.on_message(WM_NCCALCSIZE, 0, 0, ctx()), ProcAction::Default);
    assert_eq!(s.on_message(WM_NCHITTEST, 0, lparam(899, 699), ctx()), ProcAction::HitTest(HTBOTTOMRIGHT));
    assert_eq!(s.on_message(WM_NCHITTEST, 0, lparam(500, 400), ctx()), ProcAction::Default);
    assert_eq!(s.on_message(WM_TIMER, MODAL_PUMP_TIMER_ID, 0, ctx()), ProcAction::Pump);
    assert_eq!(s.on_message(WM_DESTROY, 0, 0, ctx()), ProcAction::Destroy);
    let c = MessageContext { suggested_rect: Some(Rect { left: 1, top: 2, right: 3, bottom: 4 }), ..ctx() };
    assert_eq!(
        s.on_message(WM_DPICHANGED, 0, 0, c),
        ProcAction::Move { rect: Rect { left: 1, top: 2, right: 3, bottom: 4 }, frame_changed: false, read_client: true }
    );
}

#[test]
fn focus_and_keys_go_to_the_view_once_it_exists() {
    let mut s = WindowProcState::new();
    assert_eq!(s.on_message(WM_SETFOCUS, 0, 0, ctx()), ProcAction::Handled);
    assert_eq!(s.on_message(WM_KEYDOWN, 0x41, 0, ctx()), ProcAction::Default);
    s.view_id = 3;
    assert_eq!(s.on_message(WM_SETFOCUS, 0, 0, ctx()), ProcAction::ViewFocus { view_id: 3, focused: true });
    assert_eq!(s.on_message(WM_KEYDOWN, 0x41, 0, ctx()), ProcAction::Key { view_id: 3, system: false });
    assert_eq!(s.on_message(WM_SYSKEYDOWN, 0x41, 0, ctx()), ProcAction::Key { view_id: 3, system: true });
}

#[test]
fn window_thread_runs_until_closed_then_tears_down() {
    let (mut t, a) = WindowThread::start();
    assert!(matches!(a, WindowThreadAction::CreateWindow));
    assert!(matches!(t.step(WindowThreadEvent::WindowCreated(Ok(42))), WindowThreadAction::PublishAndCreateDevice { hwnd: 42 }));
    assert!(matches!(t.step(WindowThreadEvent::DeviceCreated(Ok(()))), WindowThreadAction::CreateContext));
    assert!(matches!(t.step(WindowThreadEvent::ContextCreated(Ok(()))), WindowThreadAction::ReadClientRect));
    let rc = Rect { left: 0, top: 0, right: 0, bottom: 300 };
    assert!(matches!(t.step(WindowThreadEvent::ClientRect(rc)), WindowThreadAction::CreateSwapChain { width: 1, height: 300 }));
    assert!(matches!(t.step(WindowThreadEvent::SwapChainCreated(Ok(()))), WindowThreadAction::CreateBlit { width: 1, height: 300 }));
    assert!(matches!(t.step(WindowThreadEvent::BlitCreated(Ok(()))), WindowThreadAction::AddView { width: 1, height: 300 }));
    assert!(matches!(t.step(WindowThreadEvent::ViewAdded(Ok(5))), WindowThreadAction::Start { view_id: 5, width: 1, height: 300 }));
    assert_eq!(t.view_id, 5);
    assert!(matches!(t.step(WindowThreadEvent::Checked(false)), WindowThreadAction::PumpMessages));
    assert!(matches!(t.step(WindowThreadEvent::MessagesPumped(false)), WindowThreadAction::PumpFrame));
    assert!(matches!(t.step(WindowThreadEvent::Checked(false)), WindowThreadAction::PumpMessages));
    assert!(matches!(t.step(WindowThreadEvent::MessagesPumped(true)), WindowThreadAction::RemoveView { view_id: 5 }));
    assert!(matches!(t.step(WindowThreadEvent::ViewRemoved), WindowThreadAction::Teardown { view_id: 5 }));
    assert_eq!(t.phase, ThreadPhase::Done);
    assert_eq!(t.hwnd, 0);
    assert_eq!(t.view_id, -1);
}

#[test]
fn window_thread_reports_device_failures_with_a_prefix() {
    let (mut t, _) = WindowThread::start();
    t.step(WindowThreadEvent::WindowCreated(Ok(1)));
    match t.step(WindowThreadEvent::DeviceCreated(Err("E_OUTOFMEMORY".to_string()))) {
        WindowThreadAction::Fail(FlutterEmbedderError::OperationFailed(m)) => assert_eq!(m, "window device: E_OUTOFMEMORY"),
        other => panic!("unexpected {:?}", other),
    }
    assert_eq!(t.phase, ThreadPhase::Done);
    let (mut t, _) = WindowThread::start();
    match t.step(WindowThreadEvent::WindowCreated(Err(FlutterEmbedderError::InvalidHandle))) {
        WindowThreadAction::Fail(FlutterEmbedderError::InvalidHandle) => {}
        other => panic!("unexpected {:?}", other),
    }
}

#[test]
fn maximize_restore_round_trip_from_minimized() {
    let mut s = WindowProcState::new();
    s.on_message(WM_SIZE, SIZE_MINIMIZED, 0, ctx());
    let a = s.on_message(WM_APP_MAXIMIZE, 0, 0, ctx());
    assert_eq!(a, ProcAction::Move { rect: ctx().work_area.unwrap(), frame_changed: true, read_client: false });
    assert_eq!(s.on_message(WM_APP_RESTORE, 0, 0, ctx()), ProcAction::Unminimize);
    assert_eq!(
        s.on_message(WM_APP_RESTORE, 0, 0, ctx()),
        ProcAction::Move { rect: ctx().window_rect, frame_changed: true, read_client: true }
    );
    s.note_client_rect(Rect { left: 0, top: 0, right: 784, bottom: 561 });
    assert_eq!(s.take_pending_resize(), Some(pack_size(784, 561)));
    assert!(!s.placement.maximized && !s.placement.minimized);
}

#[test]
fn window_thread_repeats_the_pending_step_and_keeps_its_handle() {
    let (mut t, _) = WindowThread::start();
    assert!(matches!(t.step(WindowThreadEvent::Checked(true)), WindowThreadAction::CreateWindow));
    t.step(WindowThreadEvent::WindowCreated(Ok(42)));
    assert!(matches!(t.step(WindowThreadEvent::WindowCreated(Ok(43))), WindowThreadAction::PublishAndCreateDevice { hwnd: 42 }));
    assert_eq!(t.hwnd, 42);
    t.step(WindowThreadEvent::DeviceCreated(Ok(())));
    t.step(WindowThreadEvent::ContextCreated(Ok(())));
    t.step(WindowThreadEvent::ClientRect(Rect { left: 0, top: 0, right: 300, bottom: 200 }));
    assert!(matches!(t.step(WindowThreadEvent::ViewRemoved), WindowThreadAction::CreateSwapChain { width: 300, height: 200 }));
    assert_eq!(t.hwnd, 42);
}
