//! The mouse cursor an application asks for, and when the overlay sets it.
use vstd::prelude::*;
use vstd::string::StringExecFns;

verus! {

/// `HTCLIENT`: the hit-test code of a window's client area.
pub const HTCLIENT: i16 = 1;

/// The system cursors an application can ask for.
#[derive(PartialEq, Eq, Structural, Clone, Copy, Debug)]
pub enum CursorKind {
    Arrow,
    Hand,
    IBeam,
    No,
}

/// The system cursor for a cursor kind name, if it is one the embedder maps.
pub open spec fn cursor_for_spec(kind: Seq<char>) -> Option<CursorKind> {
    if kind == "basic"@ || kind == "basic.default"@ {
        Some(CursorKind::Arrow)
    } else if kind == "click"@ || kind == "pointer"@ {
        Some(CursorKind::Hand)
    } else if kind == "text"@ || kind == "text.TextEditable"@ {
        Some(CursorKind::IBeam)
    } else if kind == "forbidden"@ || kind == "basic.forbidden"@ {
        Some(CursorKind::No)
    } else {
        None
    }
}

/// The system cursor for the cursor kind `kind`.
pub fn cursor_for_kind(kind: &str) -> (c: Option<CursorKind>)
    ensures
        c == cursor_for_spec(kind@),
{
    let k = String::from_str(kind);
    if k == String::from_str("basic") || k == String::from_str("basic.default") {
        Some(CursorKind::Arrow)
    } else if k == String::from_str("click") || k == String::from_str("pointer") {
        Some(CursorKind::Hand)
    } else if k == String::from_str("text") || k == String::from_str("text.TextEditable") {
        Some(CursorKind::IBeam)
    } else if k == String::from_str("forbidden") || k == String::from_str("basic.forbidden") {
        Some(CursorKind::No)
    } else {
        None
    }
}

/// The hit-test code carried in the low word of a `WM_SETCURSOR` `LPARAM`.
pub open spec fn hit_test_code(lparam: isize) -> i16 {
    (lparam & 0xFFFFisize) as i16
}

/// The cursor an overlay sets for a `WM_SETCURSOR` message: only when the
/// message targets the host window, over its client area, and the
/// application asked for a cursor the embedder maps.
pub open spec fn set_cursor_spec(for_host_window: bool, lparam: isize, desired: Option<Seq<char>>) -> Option<CursorKind> {
    if for_host_window && hit_test_code(lparam) == HTCLIENT {
        match desired {
            Some(k) => cursor_for_spec(k),
            None => None,
        }
    } else {
        None
    }
}

/// The cursor to set for a `WM_SETCURSOR` message; `for_host_window` says
/// whether the message's window is the host's main window.
pub fn cursor_for_set_cursor(for_host_window: bool, lparam: isize, desired: &Option<String>) -> (c: Option<CursorKind>)
    ensures
        c == set_cursor_spec(for_host_window, lparam, match desired { Some(d) => Some(d@), None => None }),
{
    let code: i16 = #[verifier::truncate] ((lparam & 0xFFFFisize) as i16);
    if for_host_window && code == HTCLIENT {
        match desired {
            Some(d) => cursor_for_kind(d.as_str()),
            None => None,
        }
    } else {
        None
    }
}

} // verus!
