//! The calls into `emath` and `epaint`.
//!
//! Each function here hands plain values to one function of those crates and
//! hands plain values back. Its contract is taken on trust from the source of
//! the crate: nothing in this library proves it.

use vstd::prelude::*;

verus! {

/// `a - b`, stopping at zero.
pub open spec fn saturating_sub_u8(a: u8, b: u8) -> u8 {
    if a < b {
        0u8
    } else {
        (a - b) as u8
    }
}

/// One colour channel scaled by `factor / 255`, rounded to the nearest.
pub open spec fn scale_channel(c: u8, factor: u8) -> u8 {
    ((c as int * factor as int + 127) / 255) as u8
}

/// `emath::Vec2b::and` with a single flag: that function turns the flag into
/// a pair that holds it twice and joins the pairs axis by axis with `&&`.
#[verifier::external_body]
pub(crate) fn vec2b_and(x: bool, y: bool, flag: bool) -> (r: (bool, bool))
    ensures
        r.0 == (x && flag),
        r.1 == (y && flag),
{
    let joined = emath::Vec2b { x, y }.and(flag);
    (joined.x, joined.y)
}

/// `epaint::CornerRadius - u8`: that operator takes the right-hand side from
/// each of the four radii with `saturating_sub`. Radii in and out are in the
/// order north-west, north-east, south-west, south-east.
#[verifier::external_body]
pub(crate) fn corner_radius_sub(radii: (u8, u8, u8, u8), by: u8) -> (r: (u8, u8, u8, u8))
    ensures
        r.0 == saturating_sub_u8(radii.0, by),
        r.1 == saturating_sub_u8(radii.1, by),
        r.2 == saturating_sub_u8(radii.2, by),
        r.3 == saturating_sub_u8(radii.3, by),
{
    let rounded = epaint::CornerRadius { nw: radii.0, ne: radii.1, sw: radii.2, se: radii.3 } - by;
    (rounded.nw, rounded.ne, rounded.sw, rounded.se)
}

/// `epaint::Color32::gamma_multiply_u8`: that method replaces each of the
/// four premultiplied channels `c` by `(c * factor + 127) / 255`.
#[verifier::external_body]
pub(crate) fn color_gamma_multiply_u8(rgba: (u8, u8, u8, u8), factor: u8) -> (r: (u8, u8, u8, u8))
    ensures
        r.0 == scale_channel(rgba.0, factor),
        r.1 == scale_channel(rgba.1, factor),
        r.2 == scale_channel(rgba.2, factor),
        r.3 == scale_channel(rgba.3, factor),
{
    let c = epaint::Color32::from_rgba_premultiplied(rgba.0, rgba.1, rgba.2, rgba.3)
        .gamma_multiply_u8(factor);
    (c.r(), c.g(), c.b(), c.a())
}

} // verus!
