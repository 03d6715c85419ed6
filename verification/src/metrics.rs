//! Overlay geometry: when a resize changes nothing, and the screen size as
//! it is published to other threads in one packed word.
use vstd::prelude::*;
use crate::satellite::{pack_spec, unpack_size};

verus! {

/// Overlay geometry as `(x, y, width, height)`.
pub type Geometry = (i32, i32, u32, u32);

/// True when a resize request is a no-op: not forced and the new geometry
/// equals the current geometry.
pub fn should_skip_resize(current: Geometry, new: Geometry, force: bool) -> (skip: bool)
    ensures
        skip == (!force && current == new),
{
    !force && current.0 == new.0 && current.1 == new.1 && current.2 == new.2 && current.3 == new.3
}

/// The screen size published as a packed word (width high, height low); the
/// word 0 means no size was published yet.
pub fn screen_size_from(packed: u64) -> (r: Option<(u32, u32)>)
    ensures
        packed == 0 ==> r.is_none(),
        packed != 0 ==> (r matches Some(s) && pack_spec(s.0, s.1) == packed),
{
    if packed == 0 {
        None
    } else {
        Some(unpack_size(packed))
    }
}

/// The last pointer position, published as the bit patterns of its two
/// 32-bit float coordinates in one word (x high, y low); the word 0 means no
/// sample yet. The bit patterns, for the host to turn back into floats.
pub fn pointer_pos_bits(packed: u64) -> (r: Option<(u32, u32)>)
    ensures
        packed == 0 ==> r.is_none(),
        packed != 0 ==> (r matches Some(b) && pack_spec(b.0, b.1) == packed),
{
    if packed == 0 {
        None
    } else {
        Some(unpack_size(packed))
    }
}

/// A published screen size reads back as itself, unless both sides are 0,
/// which reads as no size.
pub proof fn law_screen_size_round_trip(w: u32, h: u32, read: Option<(u32, u32)>)
    requires
        pack_spec(w, h) == 0 ==> read.is_none(),
        pack_spec(w, h) != 0 ==> (read matches Some(s) && pack_spec(s.0, s.1) == pack_spec(w, h)),
    ensures
        (w, h) == (0u32, 0u32) ==> read.is_none(),
        (w, h) != (0u32, 0u32) ==> read == Some((w, h)),
{
    if (w, h) != (0u32, 0u32) {
        assert(pack_spec(w, h) != 0) by (nonlinear_arith)
            requires
                pack_spec(w, h) == (w as u64) * 0x1_0000_0000 + (h as u64),
                w > 0 || h > 0,
        ;
        let s = read->0;
        crate::satellite::law_size_round_trip(s.0, s.1, w, h);
    }
}

} // verus!
