//! Color translation between the charting side's channel form and the
//! toolkit's packed 32-bit form.

use vstd::prelude::*;

verus! {

/// A color as the charting side hands it over: red, green and blue channels
/// plus an alpha channel, each already reduced to a single byte.
#[derive(Clone, Copy, Debug, PartialEq, Eq, Structural)]
pub struct Color {
    pub r: u8,
    pub g: u8,
    pub b: u8,
    pub a: u8,
}

/// The packed 32-bit form the toolkit consumes: red in the top byte, then
/// green and blue, with alpha in the low byte (big-endian R, G, B, A).
pub open spec fn rgba32(c: Color) -> u32 {
    ((c.r as u32) << 24) | ((c.g as u32) << 16) | ((c.b as u32) << 8) | (c.a as u32)
}

/// Packs a color into the toolkit's 32-bit big-endian R, G, B, A layout.
pub fn pack_rgba32(c: Color) -> (v: u32)
    ensures
        v == rgba32(c),
{
    ((c.r as u32) << 24) | ((c.g as u32) << 16) | ((c.b as u32) << 8) | (c.a as u32)
}

/// Recovers the four channels from a packed 32-bit value.
pub fn unpack_rgba32(v: u32) -> (c: Color)
    ensures
        c.r == (v >> 24) & 0xff,
        c.g == (v >> 16) & 0xff,
        c.b == (v >> 8) & 0xff,
        c.a == v & 0xff,
{
    proof {
        assert((v >> 24) & 0xff < 256 && (v >> 16) & 0xff < 256 && (v >> 8) & 0xff < 256
            && v & 0xff < 256) by (bit_vector);
    }
    Color {
        r: ((v >> 24) & 0xff) as u8,
        g: ((v >> 16) & 0xff) as u8,
        b: ((v >> 8) & 0xff) as u8,
        a: (v & 0xff) as u8,
    }
}

/// Law: packing is lossless for every color whose channels are bytes — the
/// top three bytes of the packed value are exactly the red, green and blue
/// channels, and the low byte is exactly the alpha channel.
pub proof fn lemma_rgba32_round_trip(c: Color)
    ensures
        (rgba32(c) >> 24) & 0xff == c.r,
        (rgba32(c) >> 16) & 0xff == c.g,
        (rgba32(c) >> 8) & 0xff == c.b,
        rgba32(c) & 0xff == c.a,
{
    let r: u32 = c.r as u32;
    let g: u32 = c.g as u32;
    let b: u32 = c.b as u32;
    let a: u32 = c.a as u32;
    let packed: u32 = (r << 24) | (g << 16) | (b << 8) | a;
    assert((packed >> 24) & 0xff == r && (packed >> 16) & 0xff == g && (packed >> 8) & 0xff == b
        && packed & 0xff == a) by (bit_vector)
        requires
            r < 256,
            g < 256,
            b < 256,
            a < 256,
            packed == (r << 24) | (g << 16) | (b << 8) | a,
    ;
}

} // verus!
