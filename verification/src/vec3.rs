//! Fixed-point 3D vectors and the integer dot/cross model that the geometric
//! contracts are stated over.
//!
//! Coordinates are `i64` milli-units: `1000` stands for one world unit. All
//! scene points are kept within `SCENE_LIMIT`, which leaves ample headroom for
//! the degree-three products of the intersection test inside `i128`.

use vstd::prelude::*;

verus! {

/// Fixed-point scale: milli-units per world unit.
pub const SCALE: i64 = 1000;

/// Every point of the scene (vertices, light, camera, sample points) stays
/// within this many milli-units of the origin (a thousand world units).
pub const SCENE_LIMIT: i64 = 1_000_000;

/// What the intersection test admits per coordinate; differences of two
/// scene points stay within it.
pub const COORD_LIMIT: i64 = 4_000_000;

#[derive(Clone, Copy, PartialEq, Eq, Structural, Debug)]
pub struct Vec3 {
    pub x: i64,
    pub y: i64,
    pub z: i64,
}

impl View for Vec3 {
    type V = (int, int, int);

    open spec fn view(&self) -> (int, int, int) {
        (self.x as int, self.y as int, self.z as int)
    }
}

impl Vec3 {
    /// Every coordinate within `m` milli-units of zero.
    pub open spec fn abs_le(self, m: int) -> bool {
        &&& -m <= self.x <= m
        &&& -m <= self.y <= m
        &&& -m <= self.z <= m
    }

    /// A scene point: within `SCENE_LIMIT` per coordinate.
    pub open spec fn in_scene(self) -> bool {
        self.abs_le(SCENE_LIMIT as int)
    }

    /// Exactly one coordinate is `1` or `-1`, the others are zero: the six
    /// axis directions, which are the cube's face normals. These are exact
    /// unit vectors, so no normalization is ever needed for them.
    pub open spec fn is_unit_axis(self) -> bool {
        ||| (self.x == 1 || self.x == -1) && self.y == 0 && self.z == 0
        ||| self.x == 0 && (self.y == 1 || self.y == -1) && self.z == 0
        ||| self.x == 0 && self.y == 0 && (self.z == 1 || self.z == -1)
    }

    pub fn new(x: i64, y: i64, z: i64) -> (r: Vec3)
        ensures
            r.x == x,
            r.y == y,
            r.z == z,
    {
        Vec3 { x, y, z }
    }

    /// Componentwise difference.
    pub fn sub(self, o: Vec3) -> (r: Vec3)
        requires
            self.abs_le(COORD_LIMIT as int),
            o.abs_le(COORD_LIMIT as int),
        ensures
            r@ == sub3(self@, o@),
    {
        Vec3 { x: self.x - o.x, y: self.y - o.y, z: self.z - o.z }
    }

    /// Componentwise sum.
    pub fn add(self, o: Vec3) -> (r: Vec3)
        requires
            self.abs_le(COORD_LIMIT as int),
            o.abs_le(COORD_LIMIT as int),
        ensures
            r@ == add3(self@, o@),
    {
        Vec3 { x: self.x + o.x, y: self.y + o.y, z: self.z + o.z }
    }
}

/// Componentwise difference of integer triples.
pub open spec fn sub3(a: (int, int, int), b: (int, int, int)) -> (int, int, int) {
    (a.0 - b.0, a.1 - b.1, a.2 - b.2)
}

/// Componentwise sum of integer triples.
pub open spec fn add3(a: (int, int, int), b: (int, int, int)) -> (int, int, int) {
    (a.0 + b.0, a.1 + b.1, a.2 + b.2)
}

/// Scalar multiple of an integer triple.
pub open spec fn scale3(k: int, a: (int, int, int)) -> (int, int, int) {
    (k * a.0, k * a.1, k * a.2)
}

/// Dot product over the integer model.
pub open spec fn dot3(a: (int, int, int), b: (int, int, int)) -> int {
    a.0 * b.0 + a.1 * b.1 + a.2 * b.2
}

/// Cross product over the integer model.
pub open spec fn cross3(a: (int, int, int), b: (int, int, int)) -> (int, int, int) {
    (a.1 * b.2 - a.2 * b.1, a.2 * b.0 - a.0 * b.2, a.0 * b.1 - a.1 * b.0)
}

} // verus!
