use vstd::prelude::*;

verus! {

/// The largest value one 8-bit channel can hold.
pub const CHANNEL_MAX: u32 = 255;

/// A channel value clamped into the byte range.
pub open spec fn clamped(c: u32) -> nat {
    if c > CHANNEL_MAX { CHANNEL_MAX as nat } else { c as nat }
}

/// The packed pixel value: alpha in bits 24..32, red in 16..24, green in 8..16, blue in 0..8,
/// each channel clamped into 0..=255 first.
pub open spec fn packed(r: u32, g: u32, b: u32, a: u32) -> nat {
    clamped(a) * 0x100_0000 + clamped(r) * 0x1_0000 + clamped(g) * 0x100 + clamped(b)
}

fn clamp_channel(c: u32) -> (r: u32)
    ensures
        r == clamped(c),
{
    if c > CHANNEL_MAX { CHANNEL_MAX } else { c }
}

/// Packs red, green, blue and alpha into one 32-bit pixel, clamping each channel to 255
/// so that an out-of-range value cannot spill into its neighbour.
pub fn to_bgra(r: u32, g: u32, b: u32, a: u32) -> (p: u32)
    ensures
        p == packed(r, g, b, a),
{
    let r8 = clamp_channel(r);
    let g8 = clamp_channel(g);
    let b8 = clamp_channel(b);
    let a8 = clamp_channel(a);
    let p = a8 << 24 | r8 << 16 | g8 << 8 | b8;
    assert(p == a8 * 0x100_0000 + r8 * 0x1_0000 + g8 * 0x100 + b8) by (bit_vector)
        requires
            a8 <= 255 && r8 <= 255 && g8 <= 255 && b8 <= 255,
            p == a8 << 24 | r8 << 16 | g8 << 8 | b8,
    ;
    p
}

} // verus!
