//! The point light and the shading model: squared diffuse with a gain of
//! two, an additive ambient floor, and ray-traced shadow darkening.
//!
//! Shading is evaluated per triangle at its centroid (flat shading). All
//! intensities are fixed-point milli-values: `1000` is full strength. The
//! surface normals handed in are the cube's exact axis unit vectors, so
//! `n . L` needs no vector normalization beyond one integer square root for
//! the distance to the light.

use vstd::prelude::*;
use crate::vec3::{Vec3, sub3, dot3};
use crate::colores::{Color, DIFFUSE_STRENGTH, SHADOW_INTENSITY};
use crate::numeric::{sqrt_floor, isqrt, lemma_mul_bound, lemma_mul_mono, lemma_div_mono, lemma_square_nonneg};
use crate::intersecto_ray::{is_in_shadow, in_shadow_spec};

verus! {

/// A point light: a position and a color (milli-intensities per channel).
pub struct Light {
    pub pos: Vec3,
    pub color: Vec3,
}

impl Light {
    pub fn new(pos: Vec3, color: Vec3) -> (l: Light)
        ensures
            l.pos == pos,
            l.color == color,
    {
        Light { pos, color }
    }

    pub fn position_vec3(&self) -> (r: Vec3)
        ensures
            r == self.pos,
    {
        self.pos
    }

    /// Each color channel within `[0, 3000]` milli (up to triple strength).
    pub open spec fn color_in_range(self) -> bool {
        &&& 0 <= self.color.x <= 3000
        &&& 0 <= self.color.y <= 3000
        &&& 0 <= self.color.z <= 3000
    }
}

/// The light's color as a vector of milli-intensities.
pub fn color_vec(l: &Light) -> (r: Vec3)
    ensures
        r == l.color,
{
    l.color
}

/// `n . L` in milli, clamped below at zero: the alignment of the unit-axis
/// normal with the direction toward the light, scaled by 1000 and divided by
/// the (floor of the) distance. Zero for a light behind the face or exactly
/// at the sample point.
pub open spec fn ndotl_milli(normal: Vec3, point: Vec3, light_pos: Vec3) -> int {
    let d = sub3(light_pos@, point@);
    let nd = dot3(normal@, d);
    let d2 = dot3(d, d);
    if nd <= 0 || d2 <= 0 {
        0
    } else {
        (nd * 1000) / (sqrt_floor(d2 as nat) as int)
    }
}

/// Diffuse term in milli: the square of `n . L`, attenuated by the shadow
/// factor (`SHADOW_INTENSITY` when occluded, full strength otherwise).
pub open spec fn diffuse_milli(ndl: int, occluded: bool) -> int {
    ((ndl * ndl) / 1000 * (if occluded {
        SHADOW_INTENSITY as int
    } else {
        1000
    })) / 1000
}

/// Total intensity in milli: ambient floor plus the diffuse term with its
/// gain of two.
pub open spec fn intensity_milli(ndl: int, occluded: bool, ambient: int) -> int {
    ambient + (DIFFUSE_STRENGTH as int) * diffuse_milli(ndl, occluded)
}

/// One display channel: base times intensity times light color, the two
/// milli scales divided back out, clamped to the display range.
pub open spec fn channel_value(base: int, inten: int, lc: int) -> int {
    let v = base * inten * lc / 1_000_000;
    if v > 255 {
        255
    } else {
        v
    }
}

/// The full shaded color for a sample point with the given occlusion state.
pub open spec fn shade_color_spec(normal: Vec3, point: Vec3, light_pos: Vec3, base: Color, light_col: Vec3, ambient: int, occluded: bool) -> Color {
    let ndl = ndotl_milli(normal, point, light_pos);
    let inten = intensity_milli(ndl, occluded, ambient);
    Color {
        r: channel_value(base.r as int, inten, light_col.x as int) as u8,
        g: channel_value(base.g as int, inten, light_col.y as int) as u8,
        b: channel_value(base.b as int, inten, light_col.z as int) as u8,
    }
}

/// Ray-traced shading: evaluates the diffuse model at `point` and darkens it
/// when some occluder triangle blocks the segment to the light.
pub fn shade_with_shadows(
    normal: Vec3,
    point: Vec3,
    light: &Light,
    base: Color,
    light_col: Vec3,
    ambient: i64,
    shadow_triangles: &Vec<(Vec3, Vec3, Vec3)>,
) -> (c: Color)
    requires
        normal.is_unit_axis(),
        point.in_scene(),
        light.pos.in_scene(),
        0 <= ambient <= 1000,
        0 <= light_col.x <= 3000,
        0 <= light_col.y <= 3000,
        0 <= light_col.z <= 3000,
        forall|i: int| 0 <= i < shadow_triangles@.len() ==> {
            let t = #[trigger] shadow_triangles@[i];
            t.0.in_scene() && t.1.in_scene() && t.2.in_scene()
        },
    ensures
        c == shade_color_spec(
            normal,
            point,
            light.pos,
            base,
            light_col,
            ambient as int,
            in_shadow_spec(point, light.pos, shadow_triangles@),
        ),
{
    let dx: i64 = light.pos.x - point.x;
    let dy: i64 = light.pos.y - point.y;
    let dz: i64 = light.pos.z - point.z;
    proof {
        lemma_mul_bound(normal.x as int, dx as int, 1, 2_000_000);
        lemma_mul_bound(normal.y as int, dy as int, 1, 2_000_000);
        lemma_mul_bound(normal.z as int, dz as int, 1, 2_000_000);
        lemma_mul_bound(dx as int, dx as int, 2_000_000, 2_000_000);
        lemma_mul_bound(dy as int, dy as int, 2_000_000, 2_000_000);
        lemma_mul_bound(dz as int, dz as int, 2_000_000, 2_000_000);
        lemma_square_nonneg(dx as int);
        lemma_square_nonneg(dy as int);
        lemma_square_nonneg(dz as int);
    }
    let nd: i64 = normal.x * dx + normal.y * dy + normal.z * dz;
    let d2: i64 = dx * dx + dy * dy + dz * dz;
    let dist: u64 = isqrt(d2 as u64);
    let ghost ndl_s = ndotl_milli(normal, point, light.pos);

    let ndl: i64;
    if nd <= 0 || dist == 0 {
        proof {
            if nd > 0 {
                assert(d2 < 1) by (nonlinear_arith)
                    requires
                        dist == 0,
                        d2 < (dist + 1) * (dist + 1),
                ;
            }
        }
        ndl = 0;
        assert(ndl as int == ndl_s);
    } else {
        proof {
            if d2 == 0 {
                assert(sqrt_floor(0) == 0);
                assert(false);
            }
            if normal.x == 1 || normal.x == -1 {
                assert(nd * nd == dx * dx) by (nonlinear_arith)
                    requires
                        normal.x == 1 || normal.x == -1,
                        normal.y == 0,
                        normal.z == 0,
                        nd == normal.x * dx + normal.y * dy + normal.z * dz,
                ;
            } else if normal.y == 1 || normal.y == -1 {
                assert(nd * nd == dy * dy) by (nonlinear_arith)
                    requires
                        normal.y == 1 || normal.y == -1,
                        normal.x == 0,
                        normal.z == 0,
                        nd == normal.x * dx + normal.y * dy + normal.z * dz,
                ;
            } else {
                assert(nd * nd == dz * dz) by (nonlinear_arith)
                    requires
                        normal.z == 1 || normal.z == -1,
                        normal.x == 0,
                        normal.y == 0,
                        nd == normal.x * dx + normal.y * dy + normal.z * dz,
                ;
            }
            assert(nd * nd <= d2);
            assert(nd <= dist) by (nonlinear_arith)
                requires
                    nd > 0,
                    dist >= 0,
                    nd * nd <= d2,
                    d2 < (dist + 1) * (dist + 1),
            ;
        }
        let prod: u64 = (nd as u64) * 1000;
        let q: u64 = prod / dist;
        proof {
            lemma_div_mono(nd as int * 1000, dist as int * 1000, dist as int);
            vstd::arithmetic::div_mod::lemma_div_multiples_vanish(1000, dist as int);
            assert(dist as int * 1000 == (dist as int) * 1000);
        }
        assert(q <= 1000);
        ndl = q as i64;
        assert(ndl as int == ndl_s);
    }
    assert(0 <= ndl <= 1000);

    let occluded = is_in_shadow(point, light.pos, shadow_triangles);
    let factor: u64 = if occluded {
        SHADOW_INTENSITY as u64
    } else {
        1000
    };
    proof {
        lemma_mul_bound(ndl as int, ndl as int, 1000, 1000);
        lemma_div_mono(ndl as int * ndl as int, 1_000_000, 1000);
    }
    let sq: u64 = ((ndl as u64) * (ndl as u64)) / 1000;
    proof {
        lemma_mul_bound(sq as int, factor as int, 1000, 1000);
        lemma_div_mono(sq as int * factor as int, 1_000_000, 1000);
    }
    let df: u64 = (sq * factor) / 1000;
    let inten: u64 = (ambient as u64) + (DIFFUSE_STRENGTH as u64) * df;
    let ghost inten_s = intensity_milli(ndl_s, occluded, ambient as int);
    assert(inten as int == inten_s);

    proof {
        lemma_mul_bound(base.r as int, inten as int, 255, 3001);
        lemma_mul_bound(base.g as int, inten as int, 255, 3001);
        lemma_mul_bound(base.b as int, inten as int, 255, 3001);
        lemma_mul_bound(base.r as int * inten as int, light_col.x as int, 765_255, 3000);
        lemma_mul_bound(base.g as int * inten as int, light_col.y as int, 765_255, 3000);
        lemma_mul_bound(base.b as int * inten as int, light_col.z as int, 765_255, 3000);
    }
    let rv: u64 = (base.r as u64) * inten * (light_col.x as u64) / 1_000_000;
    let gv: u64 = (base.g as u64) * inten * (light_col.y as u64) / 1_000_000;
    let bv: u64 = (base.b as u64) * inten * (light_col.z as u64) / 1_000_000;
    let c = Color {
        r: if rv > 255 { 255 } else { rv as u8 },
        g: if gv > 255 { 255 } else { gv as u8 },
        b: if bv > 255 { 255 } else { bv as u8 },
    };
    c
}

/// Monotonicity of the diffuse term: a larger `n . L` never gives a smaller
/// diffuse intensity, shadowed or not.
pub proof fn lemma_diffuse_monotone(a: int, b: int, occluded: bool)
    requires
        0 <= a <= b,
    ensures
        diffuse_milli(a, occluded) <= diffuse_milli(b, occluded),
{
    assert(a * a <= b * b) by (nonlinear_arith)
        requires
            0 <= a <= b,
    ;
    lemma_div_mono(a * a, b * b, 1000);
    let f: int = if occluded {
        SHADOW_INTENSITY as int
    } else {
        1000
    };
    lemma_mul_mono((a * a) / 1000, (b * b) / 1000, f);
    lemma_div_mono((a * a) / 1000 * f, (b * b) / 1000 * f, 1000);
}

/// An occluded point never gets more diffuse light than the same point
/// unoccluded.
pub proof fn lemma_shadow_darkens_diffuse(ndl: int)
    ensures
        diffuse_milli(ndl, true) <= diffuse_milli(ndl, false),
{
    lemma_square_nonneg(ndl);
    lemma_div_mono(0, ndl * ndl, 1000);
    let s = (ndl * ndl) / 1000;
    assert(s * (SHADOW_INTENSITY as int) <= s * 1000) by (nonlinear_arith)
        requires
            s >= 0,
            0 <= SHADOW_INTENSITY <= 1000,
    ;
    lemma_div_mono(s * (SHADOW_INTENSITY as int), s * 1000, 1000);
}

/// Shading an occluded point never yields a brighter channel than shading
/// the same point unoccluded, for every channel base and light color.
pub proof fn lemma_shade_not_brighter(ndl: int, ambient: int, base: int, lc: int)
    requires
        base >= 0,
        lc >= 0,
    ensures
        channel_value(base, intensity_milli(ndl, true, ambient), lc)
            <= channel_value(base, intensity_milli(ndl, false, ambient), lc),
{
    lemma_shadow_darkens_diffuse(ndl);
    let it = intensity_milli(ndl, true, ambient);
    let iu = intensity_milli(ndl, false, ambient);
    assert(base * it * lc <= base * iu * lc) by (nonlinear_arith)
        requires
            it <= iu,
            base >= 0,
            lc >= 0,
    ;
    lemma_div_mono(base * it * lc, base * iu * lc, 1_000_000);
}

} // verus!
