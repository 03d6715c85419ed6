//! Window-message constants and the decoding of the packed `WPARAM` / `LPARAM`
//! words that carry pointer positions, button masks and wheel deltas.
use vstd::prelude::*;

verus! {

pub const WM_MOUSEMOVE: u32 = 0x0200;
pub const WM_LBUTTONDOWN: u32 = 0x0201;
pub const WM_LBUTTONUP: u32 = 0x0202;
pub const WM_RBUTTONDOWN: u32 = 0x0204;
pub const WM_RBUTTONUP: u32 = 0x0205;
pub const WM_MBUTTONDOWN: u32 = 0x0207;
pub const WM_MBUTTONUP: u32 = 0x0208;
pub const WM_MOUSEWHEEL: u32 = 0x020A;
pub const WM_NCMOUSELEAVE: u32 = 0x02A2;
pub const WM_MOUSELEAVE: u32 = 0x02A3;
pub const WM_NCLBUTTONDOWN: u32 = 0x00A1;
pub const WM_KEYDOWN: u32 = 0x0100;
pub const WM_KEYUP: u32 = 0x0101;
pub const WM_CHAR: u32 = 0x0102;
pub const WM_SYSKEYDOWN: u32 = 0x0104;
pub const WM_SYSKEYUP: u32 = 0x0105;

/// `MK_LBUTTON`, `MK_RBUTTON`, `MK_MBUTTON`: the button bits of a mouse message's `WPARAM`.
pub const MK_LBUTTON: u32 = 0x0001;
pub const MK_RBUTTON: u32 = 0x0002;
pub const MK_MBUTTON: u32 = 0x0010;

/// The low 16 bits of a word, as a non-negative number.
pub open spec fn low_word(v: int) -> int {
    v % 0x10000
}

/// Bits 16..32 of a word, as a non-negative number (the word read in two's complement).
pub open spec fn high_word(v: int) -> int {
    (v / 0x10000) % 0x10000
}

/// A 16-bit pattern read as a signed two's-complement number.
pub open spec fn signed16(w: int) -> int {
    if w < 0x8000 {
        w
    } else {
        w - 0x10000
    }
}

/// The signed x coordinate packed in the low word of an `LPARAM`.
pub fn lparam_x(lparam: isize) -> (x: i16)
    ensures
        x as int == signed16(low_word(lparam as int)),
{
    let low: u16 = (lparam & 0xFFFF) as u16;
    assert(low as int == (lparam as int) % 0x10000) by (bit_vector)
        requires
            low == (lparam & 0xFFFF) as u16,
    ;
    if low < 0x8000 {
        low as i16
    } else {
        let v: i32 = (low as i32) - 0x10000;
        v as i16
    }
}

/// The signed y coordinate packed in the high word of an `LPARAM`.
pub fn lparam_y(lparam: isize) -> (y: i16)
    ensures
        y as int == signed16(high_word(lparam as int)),
{
    let high: u16 = ((lparam >> 16) & 0xFFFF) as u16;
    assert(high as int == ((lparam as int) / 0x10000) % 0x10000) by (bit_vector)
        requires
            high == ((lparam >> 16) & 0xFFFF) as u16,
    ;
    if high < 0x8000 {
        high as i16
    } else {
        let v: i32 = (high as i32) - 0x10000;
        v as i16
    }
}

/// The signed wheel delta packed in the high word of a mouse-wheel `WPARAM`.
pub fn wparam_wheel_delta(wparam: usize) -> (delta: i16)
    ensures
        delta as int == signed16(high_word(wparam as int)),
{
    let high: u16 = ((wparam >> 16) & 0xFFFF) as u16;
    assert(high as int == ((wparam as int) / 0x10000) % 0x10000) by (bit_vector)
        requires
            high == ((wparam >> 16) & 0xFFFF) as u16,
    ;
    if high < 0x8000 {
        high as i16
    } else {
        let v: i32 = (high as i32) - 0x10000;
        v as i16
    }
}

} // verus!
