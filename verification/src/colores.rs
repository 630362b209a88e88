//! The tuned lighting constants, in fixed-point milli-units (1000 = 1.0), and
//! the opaque color type the shading model emits.
//!
//! One shading formula is used throughout: squared diffuse with a gain of
//! two, a near-zero additive ambient floor, and a strong shadow darkening
//! factor. The constants below pin it down.

use vstd::prelude::*;

verus! {

/// Base object color, red channel (0.9 of full scale).
pub const OBJECT_COLOR_R: i64 = 900;

/// Base object color, green channel (0.4 of full scale).
pub const OBJECT_COLOR_G: i64 = 400;

/// Base object color, blue channel (0.3 of full scale).
pub const OBJECT_COLOR_B: i64 = 300;

/// Additive ambient floor (0.001): almost none, for extreme contrast.
pub const AMBIENT_LIGHT: i64 = 1;

/// Gain applied to the squared diffuse term (2.0).
pub const DIFFUSE_STRENGTH: i64 = 2;

/// Factor applied to the diffuse term of an occluded point (0.01):
/// shadows darken strongly.
pub const SHADOW_INTENSITY: i64 = 10;

/// An opaque 8-bit-per-channel display color.
#[derive(Clone, Copy, PartialEq, Eq, Structural, Debug)]
pub struct Color {
    pub r: u8,
    pub g: u8,
    pub b: u8,
}

impl Color {
    pub fn new(r: u8, g: u8, b: u8) -> (c: Color)
        ensures
            c.r == r,
            c.g == g,
            c.b == b,
    {
        Color { r, g, b }
    }
}

} // verus!
