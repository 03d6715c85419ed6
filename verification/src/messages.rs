//! Messages queued for the engine's platform thread, the engine handle, and
//! the checks made before a value is posted to a Dart port.
use vstd::prelude::*;
use vstd::string::StringExecFns;
use vstd::string::StrSliceExecFns;
use vstd::string::StringSliceAdditionalSpecFns;
use vstd::utf8::encode_utf8;
use crate::error::FlutterEmbedderError;
use crate::text::{decimal, has_interior_nul, push_decimal_i64, push_decimal_u64};

verus! {

/// A platform message waiting to be sent on the platform thread.
pub struct PendingPlatformMessage {
    pub channel: String,
    pub payload_bytes: Vec<u8>,
}

impl PendingPlatformMessage {
    /// A message carrying `payload` on `channel`.
    pub fn new(channel: &str, payload: &[u8]) -> (m: Self)
        ensures
            m.channel@ == channel@,
            m.payload_bytes@ == payload@,
    {
        PendingPlatformMessage {
            channel: String::from_str(channel),
            payload_bytes: vstd::slice::slice_to_vec(payload),
        }
    }

    /// A message carrying the UTF-8 encoding of `text` on `channel`.
    pub fn text(channel: &str, text: &str) -> (m: Self)
        ensures
            m.channel@ == channel@,
            m.payload_bytes@ == encode_utf8(text@),
    {
        PendingPlatformMessage { channel: String::from_str(channel), payload_bytes: text.as_bytes_vec() }
    }
}

/// The kind of a key event.
#[derive(PartialEq, Eq, Structural, Clone, Copy, Debug)]
pub enum KeyEventType {
    Up,
    Down,
    Repeat,
}

/// A key event waiting to be sent to the engine from the platform thread.
pub struct PendingKeyEvent {
    pub event_type: KeyEventType,
    pub physical: u64,
    pub logical: u64,
    pub characters: String,
    pub synthesized: bool,
}

/// The engine handle, by address; `0` is the null handle.
#[derive(PartialEq, Eq, Structural, Clone, Copy, Debug)]
pub struct SendableFlutterEngine(pub usize);

impl SendableFlutterEngine {
    /// True for the null handle: no engine runs.
    pub fn is_null(&self) -> (b: bool)
        ensures
            b == (self.0 == 0),
    {
        self.0 == 0
    }
}

/// The text of the window-metrics message sent when the root isolate starts.
pub open spec fn metrics_payload(width: u32, height: u32, x: i32, y: i32) -> Seq<char> {
    "{\"method\":\"setWindowMetrics\",\"args\":{\"viewId\":0,\"width\":"@ + decimal(width as int)
        + ",\"height\":"@ + decimal(height as int) + ",\"devicePixelRatio\":1.0,\"left\":"@
        + decimal(x as int) + ",\"top\":"@ + decimal(y as int) + "}}"@
}

/// The two messages queued when the root isolate of an overlay of the given
/// geometry is created: its window metrics on `flutter/window`, then the
/// resumed lifecycle state on `flutter/lifecycle`.
pub fn root_isolate_messages(width: u32, height: u32, x: i32, y: i32) -> (msgs: Vec<PendingPlatformMessage>)
    ensures
        msgs@.len() == 2,
        msgs@[0].channel@ == "flutter/window"@,
        msgs@[0].payload_bytes@ == encode_utf8(metrics_payload(width, height, x, y)),
        msgs@[1].channel@ == "flutter/lifecycle"@,
        msgs@[1].payload_bytes@ == encode_utf8("AppLifecycleState.resumed"@),
{
    let mut p = String::from_str("{\"method\":\"setWindowMetrics\",\"args\":{\"viewId\":0,\"width\":");
    push_decimal_u64(&mut p, width as u64);
    p.append(",\"height\":");
    push_decimal_u64(&mut p, height as u64);
    p.append(",\"devicePixelRatio\":1.0,\"left\":");
    push_decimal_i64(&mut p, x as i64);
    p.append(",\"top\":");
    push_decimal_i64(&mut p, y as i64);
    p.append("}}");
    proof {
        assert(decimal(width as int) == crate::text::digits(width as nat));
        assert(decimal(height as int) == crate::text::digits(height as nat));
        assert(p@ =~= metrics_payload(width, height, x, y));
    }
    let metrics = PendingPlatformMessage::text("flutter/window", p.as_str());
    let lifecycle = PendingPlatformMessage::text("flutter/lifecycle", "AppLifecycleState.resumed");
    let mut msgs: Vec<PendingPlatformMessage> = Vec::new();
    msgs.push(metrics);
    msgs.push(lifecycle);
    msgs
}

/// The message that asks the application to hot-restart.
pub fn hot_restart_message() -> (m: PendingPlatformMessage)
    ensures
        m.channel@ == "app/lifecycle"@,
        m.payload_bytes@ == encode_utf8("hot.restart"@),
{
    PendingPlatformMessage::text("app/lifecycle", "hot.restart")
}

pub open spec fn port_missing_text() -> Seq<char> {
    "Dart port not registered. Call `register_dart_port` first."@
}

pub open spec fn nul_text() -> Seq<char> {
    "String contains null bytes."@
}

/// What posting to a Dart port is answered before the engine is called: the
/// engine must run and a port must be registered.
pub open spec fn post_check(engine: SendableFlutterEngine, port: i64, r: Result<(), FlutterEmbedderError>) -> bool {
    if engine.0 == 0 {
        r == Err::<(), FlutterEmbedderError>(FlutterEmbedderError::EngineNotRunning)
    } else if port == 0 {
        r matches Err(FlutterEmbedderError::OperationFailed(m)) && m@ == port_missing_text()
    } else {
        r is Ok
    }
}

/// Checks that a value can be posted to the Dart port `port` of `engine`.
pub fn check_dart_post(engine: SendableFlutterEngine, port: i64) -> (r: Result<(), FlutterEmbedderError>)
    ensures
        post_check(engine, port, r),
{
    if engine.is_null() {
        return Err(FlutterEmbedderError::EngineNotRunning);
    }
    if port == 0 {
        return Err(FlutterEmbedderError::operation_failed(
            "Dart port not registered. Call `register_dart_port` first.",
        ));
    }
    Ok(())
}

/// Checks that `value` can be posted as a string: it must hold no NUL byte,
/// then the engine must run and a port must be registered.
pub fn check_dart_post_string(value: &str, engine: SendableFlutterEngine, port: i64) -> (r: Result<(), FlutterEmbedderError>)
    ensures
        if value.spec_bytes().contains(0u8) {
            r matches Err(FlutterEmbedderError::OperationFailed(m)) && m@ == nul_text()
        } else {
            post_check(engine, port, r)
        },
{
    if has_interior_nul(value) {
        return Err(FlutterEmbedderError::operation_failed("String contains null bytes."));
    }
    check_dart_post(engine, port)
}


/// The outcome of posting to a Dart port once the engine answered `code`
/// (0 is success).
pub fn dart_post_result(code: i32) -> (r: Result<(), FlutterEmbedderError>)
    ensures
        code == 0 ==> r is Ok,
        code != 0 ==> (r matches Err(FlutterEmbedderError::OperationFailed(m))
            && m@ == "Failed to post Dart object with code: "@ + decimal(code as int)),
{
    if code == 0 {
        Ok(())
    } else {
        let mut m = String::from_str("Failed to post Dart object with code: ");
        push_decimal_i64(&mut m, code as i64);
        Err(FlutterEmbedderError::OperationFailed(m))
    }
}

/// The text of a failed engine call made for the overlay `name`.
pub open spec fn named_failure_text(call: Seq<char>, name: Seq<char>, code: i32) -> Seq<char> {
    call + " for '"@ + name + "': "@ + decimal(code as int)
}

fn named_failure(call: &str, name: &str, code: i32) -> (m: String)
    ensures
        m@ == named_failure_text(call@, name@, code),
{
    let mut m = String::from_str(call);
    m.append(" for '");
    m.append(name);
    m.append("': ");
    push_decimal_i64(&mut m, code as i64);
    proof {
        reveal_strlit(" for '");
        reveal_strlit("': ");
        assert(m@ =~= named_failure_text(call@, name@, code));
    }
    m
}

/// The outcome of asking the engine of overlay `name` for a frame. Without
/// an engine nothing is asked; otherwise the engine's code decides (0 is
/// success).
pub fn request_frame_result(engine: SendableFlutterEngine, name: &str, code: i32) -> (r: Result<(), FlutterEmbedderError>)
    ensures
        engine.0 == 0 ==> r == Err::<(), FlutterEmbedderError>(FlutterEmbedderError::EngineNotRunning),
        engine.0 != 0 && code == 0 ==> r is Ok,
        engine.0 != 0 && code != 0 ==> (r matches Err(FlutterEmbedderError::OperationFailed(m))
            && m@ == named_failure_text("FlutterEngineScheduleFrame FAILED"@, name@, code)),
{
    if engine.is_null() {
        return Err(FlutterEmbedderError::EngineNotRunning);
    }
    if code == 0 {
        Ok(())
    } else {
        Err(FlutterEmbedderError::OperationFailed(named_failure("FlutterEngineScheduleFrame FAILED", name, code)))
    }
}

/// The outcome of shutting down the engine of overlay `name`: an overlay
/// without an engine is already shut down; otherwise the engine's code
/// decides (0 is success).
pub fn shutdown_result(engine: SendableFlutterEngine, name: &str, code: i32) -> (r: Result<(), FlutterEmbedderError>)
    ensures
        engine.0 == 0 ==> r is Ok,
        engine.0 != 0 && code == 0 ==> r is Ok,
        engine.0 != 0 && code != 0 ==> (r matches Err(FlutterEmbedderError::OperationFailed(m))
            && m@ == named_failure_text("FlutterEngineShutdown failed"@, name@, code)),
{
    if engine.is_null() || code == 0 {
        Ok(())
    } else {
        Err(FlutterEmbedderError::OperationFailed(named_failure("FlutterEngineShutdown failed", name, code)))
    }
}


/// What posting to an overlay chosen by identifier answers, from the post's
/// own outcome (`None` when no overlay matched): success only when the post
/// succeeded; any failure, of the lookup or of the post, is an invalid handle.
pub fn overlay_post_result(post: Option<Result<(), FlutterEmbedderError>>) -> (r: Result<(), FlutterEmbedderError>)
    ensures
        (post matches Some(Ok(_))) ==> r is Ok,
        !(post matches Some(Ok(_))) ==> r == Err::<(), FlutterEmbedderError>(FlutterEmbedderError::InvalidHandle),
{
    match post {
        Some(Ok(())) => Ok(()),
        _ => Err(FlutterEmbedderError::InvalidHandle),
    }
}


/// The integer fields of the window-metrics event sent for an overlay (its
/// pixel ratio is always 1).
#[derive(PartialEq, Eq, Structural, Clone, Copy, Debug)]
pub struct WindowMetrics {
    pub width: usize,
    pub height: usize,
    pub left: usize,
    pub top: usize,
}

/// The window metrics of an overlay at `(x, y)` of size `width` x `height`,
/// or nothing when no engine runs. The position fields are unsigned: a
/// negative coordinate is sent as its two's-complement bit pattern.
pub fn window_metrics(engine: SendableFlutterEngine, x: i32, y: i32, width: u32, height: u32) -> (m: Option<WindowMetrics>)
    ensures
        engine.0 == 0 ==> m.is_none(),
        engine.0 != 0 ==> m == Some(WindowMetrics {
            width: width as usize,
            height: height as usize,
            left: x as usize,
            top: y as usize,
        }),
{
    if engine.is_null() {
        return None;
    }
    Some(WindowMetrics {
        width: width as usize,
        height: height as usize,
        left: #[verifier::truncate] (x as usize),
        top: #[verifier::truncate] (y as usize),
    })
}

} // verus!
