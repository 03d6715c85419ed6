//! A satellite window driven against a simulated engine: the window thread
//! sends its client size, the engine rasters the view at that size, and the
//! window adopts the engine's texture and presents it.

use flutter_rust_windows_embedder::controls::WindowControls;
use flutter_rust_windows_embedder::satellite::{unpack_size, Presentation, PumpStart, Rect, SatelliteRender};
use flutter_rust_windows_embedder::window_thread::{WindowThread, WindowThreadAction, WindowThreadEvent};
use flutter_rust_windows_embedder::wndproc::{MessageContext, ProcAction, WindowProcState, WM_SIZE};
use flutter_rust_windows_embedder::views::ViewRegistry;
use std::sync::atomic::{AtomicBool, AtomicIsize, AtomicU64};
use std::sync::Arc;

/// The engine side of the simulation: a resize request makes it raster the
/// view at the new size and present a frame; a frame request presents one.
struct SimEngine {
    views: ViewRegistry,
}

impl SimEngine {
    fn resize_view(&mut self, view_id: i64, w: u32, h: u32) {
        self.views.resize_view(view_id, w, h).unwrap();
        self.views.set_texture_size(view_id, w, h);
        self.views.record_view_present(view_id, Vec::new());
    }

    fn request_frame(&mut self, view_id: i64) {
        self.views.record_view_present(view_id, Vec::new());
    }
}

/// One satellite window: its thread, its window procedure's state, its
/// render loop state, its controls and its client size.
struct SimWindow {
    view_id: i64,
    thread: WindowThread,
    proc_state: WindowProcState,
    render: SatelliteRender,
    controls: WindowControls,
    client: (u32, u32),
}

fn lparam(w: u32, h: u32) -> isize {
    ((h << 16) | w) as isize
}

fn context() -> MessageContext {
    MessageContext {
        style: 0,
        window_rect: Rect { left: 0, top: 0, right: 0, bottom: 0 },
        work_area: None,
        dpi: 96,
        suggested_rect: None,
    }
}

impl SimWindow {
    fn spawn(engine: &mut SimEngine, _title: &str, w: u32, h: u32) -> SimWindow {
        let (mut thread, mut action) = WindowThread::start();
        let mut render = None;
        let view_id = loop {
            let event = match action {
                WindowThreadAction::CreateWindow => WindowThreadEvent::WindowCreated(Ok(1)),
                WindowThreadAction::PublishAndCreateDevice { .. } => WindowThreadEvent::DeviceCreated(Ok(())),
                WindowThreadAction::CreateContext => WindowThreadEvent::ContextCreated(Ok(())),
                WindowThreadAction::ReadClientRect => {
                    WindowThreadEvent::ClientRect(Rect { left: 0, top: 0, right: w as i32, bottom: h as i32 })
                }
                WindowThreadAction::CreateSwapChain { .. } => WindowThreadEvent::SwapChainCreated(Ok(())),
                WindowThreadAction::CreateBlit { width, height } => {
                    render = Some(SatelliteRender::new(width, height, true));
                    WindowThreadEvent::BlitCreated(Ok(()))
                }
                WindowThreadAction::AddView { width, height } => {
                    let view_id = engine.views.begin_add_view(true, width, height);
                    engine.views.finish_add_view(view_id, 0, true).unwrap();
                    WindowThreadEvent::ViewAdded(Ok(view_id))
                }
                WindowThreadAction::Start { view_id, .. } => break view_id,
                other => panic!("unexpected window thread step {:?}", other),
            };
            action = thread.step(event);
        };
        let controls = WindowControls::new(
            Arc::new(AtomicBool::new(false)),
            Arc::new(AtomicIsize::new(0)),
            Arc::new(AtomicU64::new(0)),
        );
        let mut proc_state = WindowProcState::new();
        proc_state.view_id = view_id;
        SimWindow { view_id, thread, proc_state, render: render.unwrap(), controls, client: (w, h) }
    }

    /// One frame of the window thread: the messages, then the frame.
    fn pump(&mut self, engine: &mut SimEngine) {
        assert!(matches!(self.thread.step(WindowThreadEvent::Checked(false)), WindowThreadAction::PumpMessages));
        assert!(matches!(self.thread.step(WindowThreadEvent::MessagesPumped(false)), WindowThreadAction::PumpFrame));
        if let Some(p) = self.proc_state.take_pending_resize() {
            self.client = unpack_size(p);
        }
        match self.render.begin_frame(false, self.client.0, self.client.1) {
            PumpStart::Minimized => return,
            PumpStart::Proceed { resize_view } => {
                if let Some((w, h)) = resize_view {
                    engine.resize_view(self.view_id, w, h);
                }
            }
        }
        let engine_size = engine.views.view_texture_size(self.view_id);
        let step = self.render.adopt_engine_size(engine_size);
        if step.open_texture {
            engine.views.note_view_prepared(self.view_id, true, true);
        }
        if self.render.note_open(step.open_texture, engine_size) {
            engine.request_frame(self.view_id);
        }
        let frame = engine.views.view_frame_counter(self.view_id);
        let (shown, presented) = self.render.present(frame);
        if presented {
            self.controls.note_present();
        }
        if shown == Presentation::Skip {
            engine.request_frame(self.view_id);
        }
    }

    fn resize_client_area(&mut self, w: u32, h: u32) {
        assert_eq!(self.proc_state.on_message(WM_SIZE, 0, lparam(w, h), context()), ProcAction::Handled);
        self.pump_messages_only();
    }

    fn pump_messages_only(&mut self) {
        if let Some(p) = self.proc_state.take_pending_resize() {
            self.client = unpack_size(p);
        }
    }
}

fn wait_for_texture_size(engine: &mut SimEngine, window: &mut SimWindow, target: (u32, u32)) -> bool {
    for _ in 0..200 {
        window.pump(engine);
        if engine.views.view_texture_size(window.view_id) == Some(target)
            && window.render.cur_w == target.0
            && window.render.cur_h == target.1
            && window.render.shared_open
        {
            return true;
        }
    }
    false
}

#[test]
fn satellite_texture_converges_to_resized_dimensions() {
    let mut engine = SimEngine { views: ViewRegistry::new() };
    let mut window = SimWindow::spawn(&mut engine, "resize-it", 800, 600);
    let view_id = window.view_id;
    assert!(view_id > 0, "satellite window never published a view id");

    let initial = wait_for_texture_size(&mut engine, &mut window, (800, 600));
    assert!(initial, "satellite never reached its spawn size 800x600");

    window.resize_client_area(1920, 1080);
    let target = window.client;
    assert!(target.0 >= 1900 && target.1 >= 1000, "window did not actually grow: client size {target:?}");

    let converged = wait_for_texture_size(&mut engine, &mut window, target);
    assert!(converged, "satellite texture did not converge to {target:?} after window resize");
    assert_eq!(engine.views.view_size(view_id), Some((1920, 1080)));
}

#[test]
fn satellite_keeps_presenting_across_resize() {
    let mut engine = SimEngine { views: ViewRegistry::new() };
    let mut window = SimWindow::spawn(&mut engine, "black-window", 800, 600);
    let view_id = window.view_id;
    assert!(view_id > 0, "no view id");
    assert!(wait_for_texture_size(&mut engine, &mut window, (800, 600)), "never reached spawn size");

    let engine_before = engine.views.view_frame_counter(view_id);
    let before_spawn = window.controls.present_count();
    for _ in 0..40 {
        engine.request_frame(view_id);
        window.pump(&mut engine);
    }
    let engine_delta = engine.views.view_frame_counter(view_id).saturating_sub(engine_before);
    let present_delta = window.controls.present_count().saturating_sub(before_spawn);
    assert!(engine_delta > 30, "engine stopped rastering the satellite view ({engine_delta})");
    assert!(present_delta > 30, "window thread stopped presenting ({present_delta})");

    window.resize_client_area(1600, 1000);
    let target = window.client;
    let converged = wait_for_texture_size(&mut engine, &mut window, target);

    let baseline = window.controls.present_count();
    for _ in 0..10 {
        engine.request_frame(view_id);
        window.pump(&mut engine);
    }
    let after_resize = window.controls.present_count();
    assert!(converged, "texture did not converge to {target:?} after resize");
    assert!(after_resize.saturating_sub(baseline) >= 10, "satellite stopped presenting after resize");
}
