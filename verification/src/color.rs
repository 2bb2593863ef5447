//! Color values and their per-pixel bus encodings.
//!
//! A 16-bit color packs 5-6-5 channel bits into two big-endian bytes; an
//! 18-bit color sends each 6-bit channel left-aligned in a byte of its own.
//! Encoding is a function of the single color value alone.

use vstd::prelude::*;

verus! {

/// A color in 16-bit 5-6-5 representation: 5-bit red, 6-bit green, 5-bit
/// blue. Channel values above those widths are truncated by the encoding.
#[derive(Debug, Clone, Copy, PartialEq, Eq, Structural)]
pub struct Rgb565Color {
    /// Red channel, 5 significant bits.
    pub r: u8,
    /// Green channel, 6 significant bits.
    pub g: u8,
    /// Blue channel, 5 significant bits.
    pub b: u8,
}

/// A color in 18-bit 6-6-6 representation: 6 significant bits per channel.
#[derive(Debug, Clone, Copy, PartialEq, Eq, Structural)]
pub struct Rgb666Color {
    /// Red channel, 6 significant bits.
    pub r: u8,
    /// Green channel, 6 significant bits.
    pub g: u8,
    /// Blue channel, 6 significant bits.
    pub b: u8,
}

impl Rgb565Color {
    /// Whether the channels are within their 5-6-5 bit widths.
    pub open spec fn wf(self) -> bool {
        self.r < 32 && self.g < 64 && self.b < 32
    }

    /// Creates a new color from its channel values.
    pub fn new(r: u8, g: u8, b: u8) -> (c: Self)
        requires
            r < 32,
            g < 64,
            b < 32,
        ensures
            c == (Rgb565Color { r, g, b }),
            c.wf(),
    {
        Rgb565Color { r, g, b }
    }
}

impl Rgb666Color {
    /// Whether the channels are within their 6-bit widths.
    pub open spec fn wf(self) -> bool {
        self.r < 64 && self.g < 64 && self.b < 64
    }

    /// Creates a new color from its channel values.
    pub fn new(r: u8, g: u8, b: u8) -> (c: Self)
        requires
            r < 64,
            g < 64,
            b < 64,
        ensures
            c == (Rgb666Color { r, g, b }),
            c.wf(),
    {
        Rgb666Color { r, g, b }
    }
}

/// The two bytes a 5-6-5 color sends on the bus, big-endian: red and the top
/// of green in the first byte, the rest of green and blue in the second.
pub open spec fn spec_encode_rgb565(c: Rgb565Color) -> Seq<u8> {
    seq![
        (c.r << 3) | (c.g >> 3),
        ((c.g & 0x07) << 5) | c.b,
    ]
}

/// The three bytes a 6-6-6 color sends on the bus: each channel left-aligned
/// in its own byte, the two low bits clear.
pub open spec fn spec_encode_rgb666(c: Rgb666Color) -> Seq<u8> {
    seq![
        c.r << 2,
        c.g << 2,
        c.b << 2,
    ]
}

/// The color whose 5-6-5 encoding is the given two bytes.
pub open spec fn spec_decode_rgb565(hi: u8, lo: u8) -> Rgb565Color {
    Rgb565Color {
        r: hi >> 3,
        g: ((hi & 0x07) << 3) | (lo >> 5),
        b: lo & 0x1F,
    }
}

/// The color whose 6-6-6 encoding is the given three bytes.
pub open spec fn spec_decode_rgb666(b0: u8, b1: u8, b2: u8) -> Rgb666Color {
    Rgb666Color {
        r: b0 >> 2,
        g: b1 >> 2,
        b: b2 >> 2,
    }
}

/// Encodes a 5-6-5 color into its two transmitted bytes.
pub fn encode_rgb565(c: &Rgb565Color) -> (bytes: Vec<u8>)
    ensures
        bytes@ == spec_encode_rgb565(*c),
        bytes@.len() == 2,
{
    let hi: u8 = (c.r << 3) | (c.g >> 3);
    let lo: u8 = ((c.g & 0x07) << 5) | c.b;
    let mut bytes: Vec<u8> = Vec::new();
    bytes.push(hi);
    bytes.push(lo);
    proof {
        assert(bytes@ =~= spec_encode_rgb565(*c));
    }
    bytes
}

/// Encodes a 6-6-6 color into its three transmitted bytes.
pub fn encode_rgb666(c: &Rgb666Color) -> (bytes: Vec<u8>)
    ensures
        bytes@ == spec_encode_rgb666(*c),
        bytes@.len() == 3,
{
    let mut bytes: Vec<u8> = Vec::new();
    bytes.push(c.r << 2);
    bytes.push(c.g << 2);
    bytes.push(c.b << 2);
    proof {
        assert(bytes@ =~= spec_encode_rgb666(*c));
    }
    bytes
}

/// Decodes the two transmitted bytes of a 5-6-5 color back into its channels.
pub fn decode_rgb565(hi: u8, lo: u8) -> (c: Rgb565Color)
    ensures
        c == spec_decode_rgb565(hi, lo),
        c.wf(),
{
    let c = Rgb565Color {
        r: hi >> 3,
        g: ((hi & 0x07) << 3) | (lo >> 5),
        b: lo & 0x1F,
    };
    proof {
        assert(c.wf()) by {
            assert(hi >> 3 < 32 && (((hi & 0x07) << 3) | (lo >> 5)) < 64 && (lo & 0x1F) < 32)
                by (bit_vector);
        }
    }
    c
}

/// Decodes the three transmitted bytes of a 6-6-6 color back into its
/// channels.
pub fn decode_rgb666(b0: u8, b1: u8, b2: u8) -> (c: Rgb666Color)
    ensures
        c == spec_decode_rgb666(b0, b1, b2),
        c.wf(),
{
    let c = Rgb666Color { r: b0 >> 2, g: b1 >> 2, b: b2 >> 2 };
    proof {
        assert(c.wf()) by {
            assert(b0 >> 2 < 64 && b1 >> 2 < 64 && b2 >> 2 < 64) by (bit_vector);
        }
    }
    c
}

/// Encoding a representable 5-6-5 color and decoding the two transmitted
/// bytes reconstructs the channel values exactly.
pub proof fn lemma_rgb565_round_trip(c: Rgb565Color)
    requires
        c.wf(),
    ensures
        spec_decode_rgb565(spec_encode_rgb565(c)[0], spec_encode_rgb565(c)[1]) == c,
{
    let r = c.r;
    let g = c.g;
    let b = c.b;
    let hi = (r << 3) | (g >> 3);
    let lo = ((g & 0x07) << 5) | b;
    assert(spec_encode_rgb565(c)[0] == hi);
    assert(spec_encode_rgb565(c)[1] == lo);
    assert(hi >> 3 == r) by (bit_vector)
        requires
            r < 32 && g < 64 && hi == ((r << 3) | (g >> 3)),
    ;
    assert((((hi & 0x07) << 3) | (lo >> 5)) == g) by (bit_vector)
        requires
            r < 32 && g < 64 && b < 32 && hi == ((r << 3) | (g >> 3)) && lo == (((g & 0x07) << 5)
                | b),
    ;
    assert(lo & 0x1F == b) by (bit_vector)
        requires
            g < 64 && b < 32 && lo == (((g & 0x07) << 5) | b),
    ;
}

/// Encoding a representable 6-6-6 color and decoding the three transmitted
/// bytes reconstructs the channel values exactly; the two low bits of each
/// transmitted byte are clear.
pub proof fn lemma_rgb666_round_trip(c: Rgb666Color)
    requires
        c.wf(),
    ensures
        spec_decode_rgb666(
            spec_encode_rgb666(c)[0],
            spec_encode_rgb666(c)[1],
            spec_encode_rgb666(c)[2],
        ) == c,
        forall|i: int| 0 <= i < 3 ==> #[trigger] (spec_encode_rgb666(c)[i] & 0x03) == 0,
{
    let r = c.r;
    let g = c.g;
    let b = c.b;
    assert((r << 2) >> 2 == r && ((r << 2) & 0x03) == 0) by (bit_vector)
        requires
            r < 64,
    ;
    assert((g << 2) >> 2 == g && ((g << 2) & 0x03) == 0) by (bit_vector)
        requires
            g < 64,
    ;
    assert((b << 2) >> 2 == b && ((b << 2) & 0x03) == 0) by (bit_vector)
        requires
            b < 64,
    ;
}

} // verus!
