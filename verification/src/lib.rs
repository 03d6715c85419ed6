use vstd::prelude::*;

pub mod metrics;
pub mod clock;
pub mod winmsg;
pub mod pointer;
pub mod error;
pub mod text;
pub mod keybind;
pub mod manager;
pub mod messages;
pub mod cursor;
pub mod controls;
pub mod satellite;
pub mod egl;
pub mod egl_start;
pub mod make_current;
pub mod primitives;
pub mod frame;
pub mod recovery;
pub mod views;
pub mod startup;
pub mod engine_dll;
pub mod locale;
pub mod registry;
pub mod wndproc;
pub mod window_thread;
