//! The error type of the embedder, the renderer kinds and the parameters that
//! create an overlay.
use vstd::prelude::*;
use vstd::string::StringExecFns;

verus! {

/// Which renderer drives an overlay.
#[derive(Debug, Clone, Copy, PartialEq, Eq, Structural)]
pub enum RendererType {
    Software,
    OpenGL,
}

/// Errors reported by the embedder.
#[derive(Debug, Clone)]
pub enum FlutterEmbedderError {
    InitializationFailed(String),
    OperationFailed(String),
    EngineNotRunning,
    InvalidHandle,
}

/// The human-readable text of an error.
pub open spec fn error_text(e: FlutterEmbedderError) -> Seq<char> {
    match e {
        FlutterEmbedderError::InitializationFailed(s) => "Flutter Initialization Failed: "@ + s@,
        FlutterEmbedderError::OperationFailed(s) => "Flutter Operation Failed: "@ + s@,
        FlutterEmbedderError::EngineNotRunning => "Flutter engine is not running or handle is null."@,
        FlutterEmbedderError::InvalidHandle => "Invalid Flutter overlay handle provided."@,
    }
}

impl FlutterEmbedderError {
    /// The error's message, as the embedder prints it.
    pub fn message(&self) -> (m: String)
        ensures
            m@ == error_text(*self),
    {
        match self {
            FlutterEmbedderError::InitializationFailed(s) => {
                let mut m = String::from_str("Flutter Initialization Failed: ");
                m.append(s.as_str());
                m
            },
            FlutterEmbedderError::OperationFailed(s) => {
                let mut m = String::from_str("Flutter Operation Failed: ");
                m.append(s.as_str());
                m
            },
            FlutterEmbedderError::EngineNotRunning => String::from_str(
                "Flutter engine is not running or handle is null.",
            ),
            FlutterEmbedderError::InvalidHandle => String::from_str(
                "Invalid Flutter overlay handle provided.",
            ),
        }
    }

    /// An `OperationFailed` error carrying `msg`.
    pub fn operation_failed(msg: &str) -> (e: Self)
        ensures
            e matches FlutterEmbedderError::OperationFailed(s) && s@ == msg@,
    {
        FlutterEmbedderError::OperationFailed(String::from_str(msg))
    }
}

/// Value parameters for creating an overlay: name, screen position, size, the
/// directory of the application's assets and the optional Dart and engine
/// arguments.
pub struct OverlayCreateParams {
    pub name: String,
    pub x: i32,
    pub y: i32,
    pub width: u32,
    pub height: u32,
    pub flutter_data_dir: String,
    pub dart_entrypoint_args: Option<Vec<String>>,
    pub engine_args: Option<Vec<String>>,
}

} // verus!
