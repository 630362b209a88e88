//! Ray–triangle intersection (Möller–Trumbore) and the shadow-ray occlusion
//! query, in exact integer arithmetic.
//!
//! Because coordinates are fixed-point integers, the classic epsilon guards
//! become exact tests: a ray is parallel to a triangle's plane exactly when
//! the determinant is zero, and a hit lies in front of the origin exactly when
//! its parameter is positive. The hit parameter is returned as an exact
//! rational `num / den` (with `den > 0`), measured in units of the ray's
//! (unnormalized) direction vector: `t == 1` is one full direction step.
//!
//! The occlusion query walks the segment from a surface point to the light
//! (direction = light - point) and reports a blocker only for hits with
//! `1/SCALE < t < 1 - 1/SCALE`: the lower margin replaces the classic
//! self-intersection offset at the surface, the upper margin the tolerance at
//! the light, both exact rationals rather than floating-point fudge.

use vstd::prelude::*;
use crate::vec3::{Vec3, sub3, add3, scale3, dot3, cross3, SCALE, COORD_LIMIT};
use crate::numeric::lemma_mul_bound;

verus! {

/// Magnitude admitted per coordinate of a difference or direction.
pub const DIFF_B: i128 = 8_000_000;

/// Magnitude bound of one cross-product component of such vectors:
/// `2 * DIFF_B * DIFF_B`.
pub const CROSS_B: i128 = 128_000_000_000_000;

/// Magnitude bound of the scalar triple products (determinant, numerators):
/// `3 * DIFF_B * CROSS_B`.
pub const TRIPLE_B: i128 = 3_072_000_000_000_000_000_000;

/// A ray: origin plus direction, both fixed-point. The direction is kept
/// exactly as given (no normalization): hit parameters are measured in units
/// of its length.
pub struct Ray {
    pub origin: Vec3,
    pub direction: Vec3,
}

impl Ray {
    pub fn new(origin: Vec3, direction: Vec3) -> (r: Ray)
        ensures
            r.origin == origin,
            r.direction == direction,
    {
        Ray { origin, direction }
    }
}

/// An intersection parameter as an exact rational `num / den`, `den > 0`.
pub struct Hit {
    pub num: i128,
    pub den: i128,
}

/// Möller–Trumbore determinant: `edge1 . (d x edge2)`. Zero exactly when the
/// direction is parallel to the triangle's plane.
pub open spec fn mt_det(d: (int, int, int), v0: (int, int, int), v1: (int, int, int), v2: (int, int, int)) -> int {
    dot3(sub3(v1, v0), cross3(d, sub3(v2, v0)))
}

/// Numerator of the barycentric coordinate `u` (denominator is the determinant).
pub open spec fn mt_u_num(o: (int, int, int), d: (int, int, int), v0: (int, int, int), v1: (int, int, int), v2: (int, int, int)) -> int {
    dot3(sub3(o, v0), cross3(d, sub3(v2, v0)))
}

/// Numerator of the barycentric coordinate `v`.
pub open spec fn mt_v_num(o: (int, int, int), d: (int, int, int), v0: (int, int, int), v1: (int, int, int), v2: (int, int, int)) -> int {
    dot3(d, cross3(sub3(o, v0), sub3(v1, v0)))
}

/// Numerator of the hit parameter `t`.
pub open spec fn mt_t_num(o: (int, int, int), d: (int, int, int), v0: (int, int, int), v1: (int, int, int), v2: (int, int, int)) -> int {
    dot3(sub3(v2, v0), cross3(sub3(o, v0), sub3(v1, v0)))
}

/// The ray crosses the triangle: not parallel, barycentric `u, v >= 0`,
/// `u + v <= 1`, and the hit strictly in front of the origin. The divisions
/// by the determinant `a` are written multiplied out (`u >= 0` as
/// `u_num * a >= 0`, `u <= 1` as `u_num * a <= a * a`, and so on), which is
/// equivalent since `a != 0`.
pub open spec fn mt_hits(o: (int, int, int), d: (int, int, int), v0: (int, int, int), v1: (int, int, int), v2: (int, int, int)) -> bool {
    let a = mt_det(d, v0, v1, v2);
    let un = mt_u_num(o, d, v0, v1, v2);
    let vn = mt_v_num(o, d, v0, v1, v2);
    let tn = mt_t_num(o, d, v0, v1, v2);
    &&& a != 0
    &&& un * a >= 0
    &&& un * a <= a * a
    &&& vn * a >= 0
    &&& (un + vn) * a <= a * a
    &&& tn * a > 0
}

/// Cross product with exact value and componentwise bound.
fn cross_i128(ax: i128, ay: i128, az: i128, bx: i128, by: i128, bz: i128) -> (r: (i128, i128, i128))
    requires
        -DIFF_B <= ax <= DIFF_B,
        -DIFF_B <= ay <= DIFF_B,
        -DIFF_B <= az <= DIFF_B,
        -DIFF_B <= bx <= DIFF_B,
        -DIFF_B <= by <= DIFF_B,
        -DIFF_B <= bz <= DIFF_B,
    ensures
        (r.0 as int, r.1 as int, r.2 as int) == cross3((ax as int, ay as int, az as int), (bx as int, by as int, bz as int)),
        -CROSS_B <= r.0 <= CROSS_B,
        -CROSS_B <= r.1 <= CROSS_B,
        -CROSS_B <= r.2 <= CROSS_B,
{
    proof {
        lemma_mul_bound(ax as int, by as int, DIFF_B as int, DIFF_B as int);
        lemma_mul_bound(ax as int, bz as int, DIFF_B as int, DIFF_B as int);
        lemma_mul_bound(ay as int, bx as int, DIFF_B as int, DIFF_B as int);
        lemma_mul_bound(ay as int, bz as int, DIFF_B as int, DIFF_B as int);
        lemma_mul_bound(az as int, bx as int, DIFF_B as int, DIFF_B as int);
        lemma_mul_bound(az as int, by as int, DIFF_B as int, DIFF_B as int);
    }
    (ay * bz - az * by, az * bx - ax * bz, ax * by - ay * bx)
}

/// Dot product of a short vector with a cross-product-sized one, exact.
fn dot_i128(ax: i128, ay: i128, az: i128, bx: i128, by: i128, bz: i128) -> (r: i128)
    requires
        -DIFF_B <= ax <= DIFF_B,
        -DIFF_B <= ay <= DIFF_B,
        -DIFF_B <= az <= DIFF_B,
        -CROSS_B <= bx <= CROSS_B,
        -CROSS_B <= by <= CROSS_B,
        -CROSS_B <= bz <= CROSS_B,
    ensures
        r == dot3((ax as int, ay as int, az as int), (bx as int, by as int, bz as int)),
        -TRIPLE_B <= r <= TRIPLE_B,
{
    proof {
        lemma_mul_bound(ax as int, bx as int, DIFF_B as int, CROSS_B as int);
        lemma_mul_bound(ay as int, by as int, DIFF_B as int, CROSS_B as int);
        lemma_mul_bound(az as int, bz as int, DIFF_B as int, CROSS_B as int);
    }
    ax * bx + ay * by + az * bz
}

/// The sign relations that turn divisions by the determinant into products.
proof fn lemma_mul_sign_cmp(x: int, a: int)
    by (nonlinear_arith)
    requires
        a != 0,
    ensures
        a > 0 ==> ((x >= 0) <==> (x * a >= 0)),
        a > 0 ==> ((x > 0) <==> (x * a > 0)),
        a > 0 ==> ((x <= a) <==> (x * a <= a * a)),
        a < 0 ==> ((x <= 0) <==> (x * a >= 0)),
        a < 0 ==> ((x < 0) <==> (x * a > 0)),
        a < 0 ==> ((x >= a) <==> (x * a <= a * a)),
{
}

/// Möller–Trumbore ray–triangle test. Returns the hit parameter as an exact
/// rational (in units of the direction vector) exactly when the ray crosses
/// the triangle; `None` for a parallel ray, a barycentric miss, or a hit at
/// or behind the origin.
pub fn ray_triangle_intersect(ray: &Ray, v0: Vec3, v1: Vec3, v2: Vec3) -> (r: Option<Hit>)
    requires
        ray.origin.abs_le(COORD_LIMIT as int),
        ray.direction.abs_le(COORD_LIMIT as int),
        v0.abs_le(COORD_LIMIT as int),
        v1.abs_le(COORD_LIMIT as int),
        v2.abs_le(COORD_LIMIT as int),
    ensures
        r.is_some() <==> mt_hits(ray.origin@, ray.direction@, v0@, v1@, v2@),
        (r matches Some(h) ==> {
            let a = mt_det(ray.direction@, v0@, v1@, v2@);
            let tn = mt_t_num(ray.origin@, ray.direction@, v0@, v1@, v2@);
            &&& h.den == (if a >= 0 { a } else { -a })
            &&& h.num == (if a >= 0 { tn } else { -tn })
            &&& 0 < h.num <= TRIPLE_B
            &&& 0 < h.den <= TRIPLE_B
        }),
{
    let ghost ov = ray.origin@;
    let ghost dv = ray.direction@;

    let ox: i128 = ray.origin.x as i128;
    let oy: i128 = ray.origin.y as i128;
    let oz: i128 = ray.origin.z as i128;
    let dx: i128 = ray.direction.x as i128;
    let dy: i128 = ray.direction.y as i128;
    let dz: i128 = ray.direction.z as i128;

    let e1x: i128 = v1.x as i128 - v0.x as i128;
    let e1y: i128 = v1.y as i128 - v0.y as i128;
    let e1z: i128 = v1.z as i128 - v0.z as i128;
    let e2x: i128 = v2.x as i128 - v0.x as i128;
    let e2y: i128 = v2.y as i128 - v0.y as i128;
    let e2z: i128 = v2.z as i128 - v0.z as i128;

    let h = cross_i128(dx, dy, dz, e2x, e2y, e2z);
    let a = dot_i128(e1x, e1y, e1z, h.0, h.1, h.2);
    let ghost ai = mt_det(dv, v0@, v1@, v2@);
    assert(a == ai);

    if a == 0 {
        return None;
    }

    let sx: i128 = ox - v0.x as i128;
    let sy: i128 = oy - v0.y as i128;
    let sz: i128 = oz - v0.z as i128;

    let un = dot_i128(sx, sy, sz, h.0, h.1, h.2);
    let ghost uni = mt_u_num(ov, dv, v0@, v1@, v2@);
    assert(un == uni);
    proof {
        lemma_mul_sign_cmp(uni, ai);
    }
    if a > 0 {
        if un < 0 || un > a {
            return None;
        }
    } else {
        if un > 0 || un < a {
            return None;
        }
    }

    let q = cross_i128(sx, sy, sz, e1x, e1y, e1z);
    let vn = dot_i128(dx, dy, dz, q.0, q.1, q.2);
    let ghost vni = mt_v_num(ov, dv, v0@, v1@, v2@);
    assert(vn == vni);
    proof {
        lemma_mul_sign_cmp(vni, ai);
        lemma_mul_sign_cmp(uni + vni, ai);
    }
    if a > 0 {
        if vn < 0 || un + vn > a {
            return None;
        }
    } else {
        if vn > 0 || un + vn < a {
            return None;
        }
    }

    let tn = dot_i128(e2x, e2y, e2z, q.0, q.1, q.2);
    let ghost tni = mt_t_num(ov, dv, v0@, v1@, v2@);
    assert(tn == tni);
    proof {
        lemma_mul_sign_cmp(tni, ai);
    }
    if a > 0 {
        if tn <= 0 {
            return None;
        }
        Some(Hit { num: tn, den: a })
    } else {
        if tn >= 0 {
            return None;
        }
        Some(Hit { num: -tn, den: -a })
    }
}

/// The triangle blocks the open segment from `p` to `l`: the segment ray
/// (direction `l - p`) crosses it with parameter strictly inside
/// `(1/SCALE, 1 - 1/SCALE)`, the exact counterparts of the self-intersection
/// offset at the surface and the tolerance at the light.
pub open spec fn blocks(p: Vec3, l: Vec3, tri: (Vec3, Vec3, Vec3)) -> bool {
    let d = sub3(l@, p@);
    let a = mt_det(d, tri.0@, tri.1@, tri.2@);
    let tn = mt_t_num(p@, d, tri.0@, tri.1@, tri.2@);
    &&& mt_hits(p@, d, tri.0@, tri.1@, tri.2@)
    &&& (SCALE as int) * tn * a > a * a
    &&& (SCALE as int) * tn * a < (SCALE - 1) * (a * a)
}

/// Some triangle of the set blocks the segment from `p` to the light.
pub open spec fn in_shadow_spec(p: Vec3, l: Vec3, tris: Seq<(Vec3, Vec3, Vec3)>) -> bool {
    exists|i: int| 0 <= i < tris.len() && blocks(p, l, tris[i])
}

/// Carries a comparison of the rational hit parameter `num/den` against the
/// rational `c/k` over to the sign-symmetric products of the specification.
proof fn lemma_ratio_cmp(num: int, den: int, tn: int, a: int, k: int, c: int)
    by (nonlinear_arith)
    requires
        a != 0,
        den == (if a >= 0 { a } else { -a }),
        num == (if a >= 0 { tn } else { -tn }),
        k > 0,
        c > 0,
    ensures
        (k * num > c * den) <==> (k * tn * a > c * (a * a)),
        (k * num < c * den) <==> (k * tn * a < c * (a * a)),
{
}

/// Shadow query: does any occluder triangle stand between `point` and the
/// light? Existential over the set, with no nearest-hit requirement.
pub fn is_in_shadow(point: Vec3, light_pos: Vec3, triangles: &Vec<(Vec3, Vec3, Vec3)>) -> (r: bool)
    requires
        point.in_scene(),
        light_pos.in_scene(),
        forall|i: int| 0 <= i < triangles@.len() ==> {
            let t = #[trigger] triangles@[i];
            t.0.in_scene() && t.1.in_scene() && t.2.in_scene()
        },
    ensures
        r == in_shadow_spec(point, light_pos, triangles@),
{
    let d = light_pos.sub(point);
    let shadow_ray = Ray { origin: point, direction: d };
    let n = triangles.len();
    let mut i: usize = 0;
    while i < n
        invariant
            n == triangles@.len(),
            0 <= i <= n,
            point.in_scene(),
            light_pos.in_scene(),
            forall|j: int| 0 <= j < triangles@.len() ==> {
                let t = #[trigger] triangles@[j];
                t.0.in_scene() && t.1.in_scene() && t.2.in_scene()
            },
            shadow_ray.origin == point,
            shadow_ray.direction@ == sub3(light_pos@, point@),
            forall|j: int| 0 <= j < i ==> !blocks(point, light_pos, #[trigger] triangles@[j]),
        decreases n - i,
    {
        let (v0, v1, v2) = triangles[i];
        let ghost dv = shadow_ray.direction@;
        let ghost ai = mt_det(dv, v0@, v1@, v2@);
        let ghost tni = mt_t_num(point@, dv, v0@, v1@, v2@);
        if let Some(hit) = ray_triangle_intersect(&shadow_ray, v0, v1, v2) {
            proof {
                lemma_ratio_cmp(hit.num as int, hit.den as int, tni, ai, SCALE as int, 1);
                lemma_ratio_cmp(hit.num as int, hit.den as int, tni, ai, SCALE as int, (SCALE - 1) as int);
            }
            let k: i128 = SCALE as i128;
            if k * hit.num > hit.den && k * hit.num < (k - 1) * hit.den {
                assert(blocks(point, light_pos, triangles@[i as int]));
                return true;
            }
        }
        assert(!blocks(point, light_pos, triangles@[i as int]));
        i = i + 1;
    }
    false
}

/// One distributed term of the scalar triple product.
proof fn lemma_triple_term(x: int, p: int, q: int, r: int, s: int)
    by (nonlinear_arith)
    ensures
        x * (p * q - r * s) == p * (q * x) - r * (s * x),
{
}

/// `a . (b x c) == b . (c x a)`: the scalar triple product is invariant
/// under a cyclic shift of its arguments.
pub proof fn lemma_triple_cyclic(a: (int, int, int), b: (int, int, int), c: (int, int, int))
    ensures
        dot3(a, cross3(b, c)) == dot3(b, cross3(c, a)),
{
    lemma_triple_term(a.0, b.1, c.2, b.2, c.1);
    lemma_triple_term(a.1, b.2, c.0, b.0, c.2);
    lemma_triple_term(a.2, b.0, c.1, b.1, c.0);
    lemma_triple_term(b.0, c.1, a.2, c.2, a.1);
    lemma_triple_term(b.1, c.2, a.0, c.0, a.2);
    lemma_triple_term(b.2, c.0, a.1, c.1, a.0);
    assert(b.1 * (c.2 * a.0) - b.2 * (c.1 * a.0) + (b.2 * (c.0 * a.1) - b.0 * (c.2 * a.1))
        + (b.0 * (c.1 * a.2) - b.1 * (c.0 * a.2))
        == c.1 * (a.2 * b.0) - c.2 * (a.1 * b.0) + (c.2 * (a.0 * b.1) - c.0 * (a.2 * b.1))
        + (c.0 * (a.1 * b.2) - c.1 * (a.0 * b.2))) by (nonlinear_arith);
}

/// One component of the cross-product antisymmetry, multiplied by a scalar.
proof fn lemma_antisym_term(x: int, p: int, q: int, r: int, s: int)
    by (nonlinear_arith)
    ensures
        x * (p * q - r * s) == -(x * (s * r - q * p)),
{
}

/// The determinant is the negated alignment of the direction with the
/// triangle normal `edge1 x edge2`; in particular it vanishes exactly for
/// directions parallel to the triangle's plane.
pub proof fn lemma_det_is_normal_alignment(d: (int, int, int), v0: (int, int, int), v1: (int, int, int), v2: (int, int, int))
    ensures
        mt_det(d, v0, v1, v2) == -dot3(d, cross3(sub3(v1, v0), sub3(v2, v0))),
{
    let e1 = sub3(v1, v0);
    let e2 = sub3(v2, v0);
    lemma_triple_cyclic(e1, d, e2);
    assert(mt_det(d, v0, v1, v2) == dot3(d, cross3(e2, e1)));
    lemma_antisym_term(d.0, e2.1, e1.2, e2.2, e1.1);
    lemma_antisym_term(d.1, e2.2, e1.0, e2.0, e1.2);
    lemma_antisym_term(d.2, e2.0, e1.1, e2.1, e1.0);
}

/// A ray whose direction is perpendicular to the triangle normal (parallel
/// to the triangle's plane) never hits, from any origin.
pub proof fn lemma_parallel_no_hit(o: (int, int, int), d: (int, int, int), v0: (int, int, int), v1: (int, int, int), v2: (int, int, int))
    requires
        dot3(d, cross3(sub3(v1, v0), sub3(v2, v0))) == 0,
    ensures
        !mt_hits(o, d, v0, v1, v2),
{
    lemma_det_is_normal_alignment(d, v0, v1, v2);
}

/// The reported hit lies exactly on the triangle's plane: writing the hit
/// point homogeneously as `a*(o - v0) + t_num*d` (the exact point
/// `o + t*d - v0` scaled by the determinant `a`), its dot product with the
/// triangle normal is zero. Together with the barycentric conditions of
/// `mt_hits` (which are `0 <= u`, `0 <= v`, `u + v <= 1` multiplied out by
/// `a`), the hit point lies on the triangle itself.
pub proof fn lemma_hit_point_in_plane(o: (int, int, int), d: (int, int, int), v0: (int, int, int), v1: (int, int, int), v2: (int, int, int))
    ensures
        ({
            let n = cross3(sub3(v1, v0), sub3(v2, v0));
            let s = sub3(o, v0);
            let a = mt_det(d, v0, v1, v2);
            let tn = mt_t_num(o, d, v0, v1, v2);
            dot3(n, add3(scale3(a, s), scale3(tn, d))) == 0
        }),
{
    let e1 = sub3(v1, v0);
    let e2 = sub3(v2, v0);
    let n = cross3(e1, e2);
    let s = sub3(o, v0);
    let a = mt_det(d, v0, v1, v2);
    let tn = mt_t_num(o, d, v0, v1, v2);
    lemma_det_is_normal_alignment(d, v0, v1, v2);
    assert(a == -dot3(n, d));
    lemma_triple_cyclic(e2, s, e1);
    assert(tn == dot3(s, cross3(e1, e2)));
    assert(tn == dot3(n, s)) by (nonlinear_arith)
        requires
            tn == s.0 * n.0 + s.1 * n.1 + s.2 * n.2,
    ;
    assert(n.0 * (a * s.0 + tn * d.0) == a * (n.0 * s.0) + tn * (n.0 * d.0)) by (nonlinear_arith);
    assert(n.1 * (a * s.1 + tn * d.1) == a * (n.1 * s.1) + tn * (n.1 * d.1)) by (nonlinear_arith);
    assert(n.2 * (a * s.2 + tn * d.2) == a * (n.2 * s.2) + tn * (n.2 * d.2)) by (nonlinear_arith);
    assert(a * (n.0 * s.0) + a * (n.1 * s.1) + a * (n.2 * s.2) == a * tn) by (nonlinear_arith)
        requires
            tn == n.0 * s.0 + n.1 * s.1 + n.2 * s.2,
    ;
    assert(tn * (n.0 * d.0) + tn * (n.1 * d.1) + tn * (n.2 * d.2) == tn * -a) by (nonlinear_arith)
        requires
            a == -(n.0 * d.0 + n.1 * d.1 + n.2 * d.2),
    ;
    assert(a * tn + tn * -a == 0) by (nonlinear_arith);
}

/// An empty occluder set never shadows anything: the segment from any point
/// to any light is unblocked.
pub proof fn lemma_no_occluders_no_shadow(p: Vec3, l: Vec3)
    ensures
        !in_shadow_spec(p, l, Seq::<(Vec3, Vec3, Vec3)>::empty()),
{
}

} // verus!
