//! Projection of a hit distance into a vertical wall slice, and wall
//! shading.
//!
//! The wall's screen height is the screen height divided by the
//! perpendicular ray length (classic inverse-distance scaling), clamped
//! like a float-to-integer cast would be; the slice is centred on the
//! screen midline and clamped to the screen.  Wall colors come from a
//! closed five-material palette; walls hit through a horizontal
//! grid-line crossing have their red and green channels darkened by
//! 192/256 for a simple two-level diffuse look.

use crate::rat::Rat;
use vstd::prelude::*;

verus! {

/// Largest accepted screen dimension (width or height).
pub const SCREEN_DIM_MAX: i64 = 4096;

/// An opaque 4-channel color.
#[derive(Clone, Copy, Debug, PartialEq, Eq, Structural)]
pub struct ColorRgba {
    pub r: u8,
    pub g: u8,
    pub b: u8,
    pub a: u8,
}

/// The fixed wall palette over the closed material set `1..=5`.
pub open spec fn base_color_spec(m: int) -> ColorRgba {
    if m == 1 {
        ColorRgba { r: 0, g: 0, b: 255, a: 255 }
    } else if m == 2 {
        ColorRgba { r: 0, g: 255, b: 0, a: 255 }
    } else if m == 3 {
        ColorRgba { r: 255, g: 0, b: 0, a: 255 }
    } else if m == 4 {
        ColorRgba { r: 255, g: 0, b: 255, a: 255 }
    } else {
        ColorRgba { r: 125, g: 125, b: 0, a: 255 }
    }
}

/// Darkens red and green to `floor(channel * 192 / 256)`, leaving blue
/// and alpha untouched.
pub open spec fn shade_spec(c: ColorRgba) -> ColorRgba {
    ColorRgba { r: ((c.r * 192) / 256) as u8, g: ((c.g * 192) / 256) as u8, b: c.b, a: c.a }
}

/// The drawn wall color: the palette color of the material, darkened
/// when the wall was hit through a horizontal grid-line crossing.
pub open spec fn pick_color_spec(m: int, side: int) -> ColorRgba {
    if side == 1 {
        shade_spec(base_color_spec(m))
    } else {
        base_color_spec(m)
    }
}

/// Picks the drawn color for a wall hit.  Material identifiers outside
/// the palette are rejected when the map is built, so they cannot reach
/// this point.
pub fn pick_draw_color(material: u8, side: u8) -> (r: ColorRgba)
    requires
        1 <= material <= 5,
        side == 0 || side == 1,
    ensures
        r == pick_color_spec(material as int, side as int),
{
    let base = match material {
        1 => ColorRgba { r: 0, g: 0, b: 255, a: 255 },
        2 => ColorRgba { r: 0, g: 255, b: 0, a: 255 },
        3 => ColorRgba { r: 255, g: 0, b: 0, a: 255 },
        4 => ColorRgba { r: 255, g: 0, b: 255, a: 255 },
        _ => ColorRgba { r: 125, g: 125, b: 0, a: 255 },
    };
    if side == 1 {
        let dr: u8 = ((base.r as u32 * 192) / 256) as u8;
        let dg: u8 = ((base.g as u32 * 192) / 256) as u8;
        ColorRgba { r: dr, g: dg, b: base.b, a: base.a }
    } else {
        base
    }
}

/// The two hit orientations of one material differ exactly by the
/// fixed-ratio shading: red and green of the horizontal-side color are
/// `floor(channel * 192 / 256)` of the vertical-side color's channels,
/// blue and alpha are unchanged.
pub proof fn lemma_shading(m: int)
    requires
        1 <= m <= 5,
    ensures
        pick_color_spec(m, 1).r == (pick_color_spec(m, 0).r * 192) / 256,
        pick_color_spec(m, 1).g == (pick_color_spec(m, 0).g * 192) / 256,
        pick_color_spec(m, 1).b == pick_color_spec(m, 0).b,
        pick_color_spec(m, 1).a == pick_color_spec(m, 0).a,
{
}

/// Wall screen height for a screen of height `h` and a perpendicular
/// ray length `num / den`: `floor(h / length)`, behaving like a
/// float-to-`i32` cast at the edges (saturating at `i32::MAX`, which is
/// also the value for a zero-length ray).
pub open spec fn wall_height_spec(h: int, num: int, den: int) -> int {
    if num == 0 {
        i32::MAX as int
    } else {
        let q = (h * den) / num;
        if q > i32::MAX {
            i32::MAX as int
        } else {
            q
        }
    }
}

/// First screen row of the wall slice: the slice is centred on the
/// midline and clamped to the top of the screen.
pub open spec fn wall_begin_spec(h: int, wh: int) -> int {
    let b = h / 2 - wh / 2;
    if b > 0 {
        b
    } else {
        0
    }
}

/// Last screen row of the wall slice, clamped to the bottom row.
pub open spec fn wall_end_spec(h: int, wh: int) -> int {
    let e = h / 2 + wh / 2;
    if e < h - 1 {
        e
    } else {
        h - 1
    }
}

/// Computes the wall screen height from the exact perpendicular ray
/// length.
pub fn wall_height(h: i64, len: &Rat) -> (r: i32)
    requires
        len.wf(),
        len.num >= 0,
        1 <= h <= SCREEN_DIM_MAX,
    ensures
        r == wall_height_spec(h as int, len.num as int, len.den as int),
        r >= 0,
{
    if len.num == 0 {
        i32::MAX
    } else {
        proof {
            lemma_height_product_fits(h as int, len.den as int);
        }
        let prod: u128 = (h as u128) * (len.den as u128);
        let q: u128 = prod / (len.num as u128);
        if q > (i32::MAX as u128) {
            i32::MAX
        } else {
            q as i32
        }
    }
}

/// A bounded screen height times a rational denominator fits in 128
/// bits.
#[verifier::nonlinear]
proof fn lemma_height_product_fits(h: int, den: int)
    requires
        0 <= h <= SCREEN_DIM_MAX,
        0 <= den <= i64::MAX,
    ensures
        0 <= h * den <= u128::MAX,
{
}

/// Clamped vertical extent of the wall slice on screen.  The slice
/// always lies inside the screen and is never empty.
pub fn wall_bounds(h: i64, wh: i32) -> (r: (i32, i32))
    requires
        1 <= h <= SCREEN_DIM_MAX,
        wh >= 0,
    ensures
        r.0 == wall_begin_spec(h as int, wh as int),
        r.1 == wall_end_spec(h as int, wh as int),
        0 <= r.0,
        r.1 <= h - 1,
        r.0 <= r.1,
{
    let mid: i32 = (h / 2) as i32;
    let half: i32 = ((wh as u32) / 2) as i32;
    let begin: i32 = if mid - half > 0 {
        mid - half
    } else {
        0
    };
    let hm1: i32 = (h - 1) as i32;
    let end: i32 = if mid + half < hm1 {
        mid + half
    } else {
        hm1
    };
    (begin, end)
}

/// The exact projected wall height is strictly decreasing in the ray
/// length: of two hits with positive perpendicular lengths, the farther
/// one projects to the strictly smaller wall, comparing the exact
/// heights `h / length` as rationals.
pub proof fn lemma_projection_monotonic(h: int, l1: Rat, l2: Rat)
    requires
        h >= 1,
        l1.wf(),
        l2.wf(),
        l1.num > 0,
        crate::rat::rat_lt(l1, l2),
    ensures
        (h * l1.den) * l2.num > (h * l2.den) * l1.num,
{
    assert((h * l1.den) * l2.num > (h * l2.den) * l1.num) by (nonlinear_arith)
        requires
            h >= 1,
            l1.den >= 1,
            l2.den >= 1,
            l1.num > 0,
            l1.num * l2.den < l2.num * l1.den,
    ;
}

/// The same ordering carries to the integer wall heights actually
/// drawn: flooring and saturation are monotone, so the farther hit
/// never projects to a taller slice.
pub proof fn lemma_wall_height_ordered(h: int, l1: Rat, l2: Rat)
    requires
        h >= 1,
        l1.wf(),
        l2.wf(),
        l1.num > 0,
        crate::rat::rat_lt(l1, l2),
    ensures
        l2.num > 0,
        wall_height_spec(h, l2.num as int, l2.den as int) <= wall_height_spec(
            h,
            l1.num as int,
            l1.den as int,
        ),
{
    let n1 = l1.num as int;
    let n2 = l2.num as int;
    let a1 = h * (l1.den as int);
    let a2 = h * (l2.den as int);
    assert(n2 > 0) by (nonlinear_arith)
        requires
            n2 == l2.num,
            l1.num * l2.den < l2.num * l1.den,
            l1.num > 0,
            l1.den >= 1,
            l2.den >= 1,
    ;
    assert(a2 >= 0) by (nonlinear_arith)
        requires
            a2 == h * l2.den,
            h >= 1,
            l2.den >= 1,
    ;
    assert(a2 * n1 < a1 * n2) by (nonlinear_arith)
        requires
            h >= 1,
            a1 == h * l1.den,
            a2 == h * l2.den,
            l1.num * l2.den < l2.num * l1.den,
            n1 == l1.num,
            n2 == l2.num,
    ;
    let q2 = a2 / n2;
    let r2 = a2 % n2;
    vstd::arithmetic::div_mod::lemma_fundamental_div_mod(a2, n2);
    assert(q2 >= 0) by (nonlinear_arith)
        requires
            a2 == n2 * q2 + r2,
            0 <= r2 < n2,
            a2 >= 0,
            n2 > 0,
    ;
    assert(q2 * n1 <= a1) by (nonlinear_arith)
        requires
            n2 * q2 <= a2,
            a2 * n1 < a1 * n2,
            n1 > 0,
            n2 > 0,
            a2 >= 0,
            q2 >= 0,
    ;
    vstd::arithmetic::div_mod::lemma_div_is_ordered(q2 * n1, a1, n1);
    vstd::arithmetic::div_mod::lemma_div_multiples_vanish(q2, n1);
}

/// The fixed ceiling color, a dark gray.
pub fn ceiling_color() -> (c: ColorRgba)
    ensures
        c == (ColorRgba { r: 32, g: 32, b: 32, a: 255 }),
{
    ColorRgba { r: 32, g: 32, b: 32, a: 255 }
}

/// The fixed floor color, a lighter gray.
pub fn floor_color() -> (c: ColorRgba)
    ensures
        c == (ColorRgba { r: 80, g: 80, b: 80, a: 255 }),
{
    ColorRgba { r: 80, g: 80, b: 80, a: 255 }
}

} // verus!
