use vstd::prelude::*;

verus! {

/// An 8-bit-per-channel RGB color.
#[derive(Debug, Clone, Copy, PartialEq, Eq, Structural)]
pub struct Color {
    pub r: u8,
    pub g: u8,
    pub b: u8,
}

/// The packed form of a color: red in bits 16..24, green in 8..16, blue in 0..8.
pub open spec fn pack(c: Color) -> u32 {
    ((c.r as u32) << 16u32) | ((c.g as u32) << 8u32) | (c.b as u32)
}

/// The color held in the low 24 bits of a packed value; higher bits are ignored.
pub open spec fn unpack(v: u32) -> Color {
    Color {
        r: ((v >> 16u32) & 0xffu32) as u8,
        g: ((v >> 8u32) & 0xffu32) as u8,
        b: (v & 0xffu32) as u8,
    }
}

impl Color {
    /// White: every channel at its maximum.
    pub fn white() -> (c: Color)
        ensures
            c == (Color { r: 0xff, g: 0xff, b: 0xff }),
    {
        Color { r: 0xff, g: 0xff, b: 0xff }
    }

    /// Black: every channel at zero.
    pub fn black() -> (c: Color)
        ensures
            c == (Color { r: 0, g: 0, b: 0 }),
    {
        Color { r: 0, g: 0, b: 0 }
    }

    /// Builds a color from its three channels.
    pub fn new(r: u8, g: u8, b: u8) -> (c: Color)
        ensures
            c == (Color { r, g, b }),
    {
        Color { r, g, b }
    }

    /// Reads a color from the low 24 bits of a packed value.
    pub fn from_u32(color: u32) -> (c: Color)
        ensures
            c == unpack(color),
    {
        let b = (color & 0xff) as u8;
        let g = ((color >> 8) & 0xff) as u8;
        let r = ((color >> 16) & 0xff) as u8;
        Color { r, g, b }
    }

    /// The packed form `0x00RRGGBB` of this color.
    pub fn as_u32(&self) -> (v: u32)
        ensures
            v == pack(*self),
            v < 0x0100_0000,
    {
        let (r, g, b) = (self.r as u32, self.g as u32, self.b as u32);
        proof {
            lemma_pack_below_2_24(r, g, b);
        }
        (r << 16) | (g << 8) | b
    }
}

proof fn lemma_pack_below_2_24(r: u32, g: u32, b: u32)
    requires
        r < 256,
        g < 256,
        b < 256,
    ensures
        (r << 16u32) | (g << 8u32) | b < 0x0100_0000,
{
    assert((r << 16u32) | (g << 8u32) | b < 0x0100_0000) by (bit_vector)
        requires
            r < 256,
            g < 256,
            b < 256,
    ;
}

/// Unpacking a packed color gives the color back.
pub proof fn lemma_round_trip(c: Color)
    ensures
        unpack(pack(c)) == c,
{
    let (r, g, b) = (c.r as u32, c.g as u32, c.b as u32);
    let v = (r << 16u32) | (g << 8u32) | b;
    assert(((v >> 16u32) & 0xffu32) == r && ((v >> 8u32) & 0xffu32) == g && (v & 0xffu32) == b)
        by (bit_vector)
        requires
            r < 256,
            g < 256,
            b < 256,
            v == (r << 16u32) | (g << 8u32) | b,
    ;
}

} // verus!
