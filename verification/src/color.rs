//! Unpacking of the Gigatron's 6-bit pixel bytes into 24-bit host RGB words.
//!
//! A pixel byte carries three 2-bit channels: red in bits 0-1, green in
//! bits 2-3, blue in bits 4-5. Each channel expands to an 8-bit intensity
//! through an approximately square-law brightness table.

use vstd::prelude::*;

verus! {

/// A red, green, blue triple, each channel an 8-bit intensity.
#[derive(Clone, Copy, PartialEq, Eq, Structural, Debug)]
pub struct Color(pub u8, pub u8, pub u8);

/// The brightness table: a 2-bit channel value widened to an 8-bit intensity.
pub open spec fn spec_bright(v: u8) -> u8 {
    if v == 3 {
        0xFF
    } else if v == 2 {
        0x3F
    } else if v == 1 {
        0x0F
    } else {
        0x03
    }
}

/// The color a 6-bit pixel byte stands for: each 2-bit channel through the
/// brightness table.
pub open spec fn spec_unpack_color(reg: u8) -> Color {
    Color(
        spec_bright(reg & 3),
        spec_bright((reg >> 2) & 3),
        spec_bright((reg >> 4) & 3),
    )
}

/// A color packed as 0x00RRGGBB in a 32-bit word.
pub open spec fn spec_make_rgb(c: Color) -> u32 {
    ((c.0 as u32) << 16) | ((c.1 as u32) << 8) | (c.2 as u32)
}

/// The 32-bit host word for a pixel byte: unpack, then pack as RGB.
pub open spec fn spec_rgb(reg: u8) -> u32 {
    spec_make_rgb(spec_unpack_color(reg))
}

/// Expand a 2-bit channel value to an 8-bit intensity, following an
/// approximately square-law brightness curve.
pub fn bright(v: u8) -> (r: u8)
    requires
        v < 4,
    ensures
        r == spec_bright(v),
{
    match v {
        0b0000_0011 => 0b1111_1111,
        0b0000_0010 => 0b0011_1111,
        0b0000_0001 => 0b0000_1111,
        _ => 0b0000_0011,
    }
}

/// Split a pixel byte into its three 2-bit channels and brighten each.
pub fn unpack_color(reg: u8) -> (c: Color)
    ensures
        c == spec_unpack_color(reg),
{
    let m = reg & 0b0011_1111;

    let red: u8 = m & 0b0000_0011;
    let green: u8 = (m >> 2) & 0b0000_0011;
    let blue: u8 = (m >> 4) & 0b0000_0011;

    proof {
        assert(m & 3 < 4 && (m >> 2) & 3 < 4 && (m >> 4) & 3 < 4) by (bit_vector);
        assert(m & 3 == reg & 3 && (m >> 2) & 3 == (reg >> 2) & 3 && (m >> 4) & 3 == (reg >> 4) & 3)
            by (bit_vector)
            requires
                m == reg & 0b0011_1111,
        ;
    }
    let red = bright(red);
    let green = bright(green);
    let blue = bright(blue);

    Color(red, green, blue)
}

/// Pack a color into a 32-bit 0x00RRGGBB word.
pub fn makeRGB(c: &Color) -> (rgb: u32)
    ensures
        rgb == spec_make_rgb(*c),
{
    let mut color: u32 = 0;
    color |= (c.0 as u32) << 16;
    color |= (c.1 as u32) << 8;
    color |= c.2 as u32;
    proof {
        assert((0u32 | ((c.0 as u32) << 16)) | ((c.1 as u32) << 8) | (c.2 as u32)
            == ((c.0 as u32) << 16) | ((c.1 as u32) << 8) | (c.2 as u32)) by (bit_vector);
    }
    color
}

/// The brightness table is injective on the four 2-bit channel values.
pub proof fn lemma_bright_injective(a: u8, b: u8)
    requires
        a < 4,
        b < 4,
        a != b,
    ensures
        spec_bright(a) != spec_bright(b),
{
}

/// Unpacking then packing is a bijection from the 64 pixel codes onto 64
/// distinct RGB words: two pixel bytes that agree in their low 6 bits give
/// the same word, and two that differ there give different words.
pub proof fn lemma_pixel_rgb_bijective(p: u8, q: u8)
    requires
        p < 64,
        q < 64,
    ensures
        p == q <==> spec_rgb(p) == spec_rgb(q),
{
    if p != q {
        assert((p & 3) != (q & 3) || ((p >> 2) & 3) != ((q >> 2) & 3) || ((p >> 4) & 3) != ((q
            >> 4) & 3)) by (bit_vector)
            requires
                p < 64,
                q < 64,
                p != q,
        ;
        assert((p & 3) < 4 && ((p >> 2) & 3) < 4 && ((p >> 4) & 3) < 4) by (bit_vector);
        assert((q & 3) < 4 && ((q >> 2) & 3) < 4 && ((q >> 4) & 3) < 4) by (bit_vector);
        let cp = spec_unpack_color(p);
        let cq = spec_unpack_color(q);
        assert(cp.0 != cq.0 || cp.1 != cq.1 || cp.2 != cq.2);
        lemma_rgb_channels_recoverable(cp, cq);
    }
}

/// Two colors whose channels are brightness-table outputs pack to the same
/// word only if they are the same color: the channels sit in disjoint bytes.
proof fn lemma_rgb_channels_recoverable(cp: Color, cq: Color)
    requires
        cp.0 != cq.0 || cp.1 != cq.1 || cp.2 != cq.2,
    ensures
        spec_make_rgb(cp) != spec_make_rgb(cq),
{
    let r1 = cp.0;
    let g1 = cp.1;
    let b1 = cp.2;
    let r2 = cq.0;
    let g2 = cq.1;
    let b2 = cq.2;
    assert((r1 != r2 || g1 != g2 || b1 != b2) ==> ((r1 as u32) << 16) | ((g1 as u32) << 8) | (
    b1 as u32) != ((r2 as u32) << 16) | ((g2 as u32) << 8) | (b2 as u32)) by (bit_vector);
}

} // verus!
