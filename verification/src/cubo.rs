//! The cube: a fixed table of 8 vertices and 6 faces (12 triangles, two per
//! face, each face with its exact axis-aligned unit normal), plus the
//! per-face renderer, the wireframe edge list, and the planar shadow
//! projection onto the floor.
//!
//! The cube never moves or deforms after construction; only the camera and
//! light move around it. Centroids and projected shadow vertices are rounded
//! toward zero onto the milli grid; the projection's exactness is stated
//! over the unrounded rationals (`lemma_projection_exact`).

use vstd::prelude::*;
use vstd::assert_seqs_equal;
use crate::vec3::{Vec3, sub3, scale3, dot3, cross3, SCENE_LIMIT};
use crate::colores::{Color, OBJECT_COLOR_R, OBJECT_COLOR_G, OBJECT_COLOR_B, AMBIENT_LIGHT};
use crate::light::{Light, shade_color_spec, shade_with_shadows};
use crate::intersecto_ray::in_shadow_spec;
use crate::numeric::{tdiv, div_trunc, lemma_mul_bound};

verus! {

pub struct Cubo {
    pub verts: [Vec3; 8],
    pub faces: [([usize; 3], [usize; 3], Vec3); 6],
    pub size: i64,
    pub position_offset: i64,
}

/// A lit triangle handed to the drawing backend: three vertices and the flat
/// shaded color.
pub struct ShadedTriangle {
    pub v0: Vec3,
    pub v1: Vec3,
    pub v2: Vec3,
    pub color: Color,
}

/// What one lit-faces pass emits: the 12 shaded triangles and, when asked
/// for, one debug line per triangle from its centroid along the face normal.
pub struct LitFaces {
    pub triangles: Vec<ShadedTriangle>,
    pub normal_lines: Vec<(Vec3, Vec3)>,
}

/// The `k`-th of the twelve triangles (`k/2` is the face, even `k` its first
/// triangle).
pub open spec fn tri_of(c: Cubo, k: int) -> (Vec3, Vec3, Vec3) {
    let f = c.faces@[k / 2];
    let idx = if k % 2 == 0 {
        f.0
    } else {
        f.1
    };
    (c.verts@[idx@[0] as int], c.verts@[idx@[1] as int], c.verts@[idx@[2] as int])
}

/// The face normal the `k`-th triangle is shaded with.
pub open spec fn normal_of(c: Cubo, k: int) -> Vec3 {
    c.faces@[k / 2].2
}

/// All twelve triangles, the occluder set every shadow ray is tested
/// against.
pub open spec fn occluders_spec(c: Cubo) -> Seq<(Vec3, Vec3, Vec3)> {
    Seq::new(12, |k: int| tri_of(c, k))
}

/// Triangle centroid, each coordinate rounded toward zero to the milli grid:
/// the flat-shading sample point.
pub open spec fn centroid_spec(a: Vec3, b: Vec3, c: Vec3) -> Vec3 {
    Vec3 {
        x: tdiv(a.x + b.x + c.x, 3) as i64,
        y: tdiv(a.y + b.y + c.y, 3) as i64,
        z: tdiv(a.z + b.z + c.z, 3) as i64,
    }
}

/// The triangle's winding agrees with its stored outward normal: the
/// geometric normal `(b - a) x (c - a)` points the same way as the face
/// normal (positive dot product), so the triangles wind counter-clockwise
/// seen from outside the cube.
pub open spec fn winding_agrees(c: Cubo, k: int) -> bool {
    let t = tri_of(c, k);
    let n = normal_of(c, k);
    dot3(cross3(sub3(t.1@, t.0@), sub3(t.2@, t.0@)), n@) > 0
}

/// The twelve edge-pair shapes that occur on an axis-aligned cube of
/// half-extent `s`, each with its outward axis normal: in every one the
/// geometric normal aligns positively with the axis normal.
proof fn lemma_axis_winding(ux: int, uy: int, uz: int, vx: int, vy: int, vz: int, nx: int, ny: int, nz: int, s: int)
    by (nonlinear_arith)
    requires
        s > 0,
        ({
            ||| (ux == 2 * s && uy == 0 && uz == 0 && vx == 2 * s && vy == 2 * s && vz == 0 && nx == 0 && ny == 0 && nz == 1)
            ||| (ux == 2 * s && uy == 2 * s && uz == 0 && vx == 0 && vy == 2 * s && vz == 0 && nx == 0 && ny == 0 && nz == 1)
            ||| (ux == 2 * s && uy == 2 * s && uz == 0 && vx == 2 * s && vy == 0 && vz == 0 && nx == 0 && ny == 0 && nz == -1)
            ||| (ux == 0 && uy == 2 * s && uz == 0 && vx == 2 * s && vy == 2 * s && vz == 0 && nx == 0 && ny == 0 && nz == -1)
            ||| (ux == 0 && uy == 2 * s && uz == 0 && vx == 0 && vy == 2 * s && vz == 2 * s && nx == 1 && ny == 0 && nz == 0)
            ||| (ux == 0 && uy == 2 * s && uz == 2 * s && vx == 0 && vy == 0 && vz == 2 * s && nx == 1 && ny == 0 && nz == 0)
            ||| (ux == 0 && uy == 2 * s && uz == 2 * s && vx == 0 && vy == 2 * s && vz == 0 && nx == -1 && ny == 0 && nz == 0)
            ||| (ux == 0 && uy == 0 && uz == 2 * s && vx == 0 && vy == 2 * s && vz == 2 * s && nx == -1 && ny == 0 && nz == 0)
            ||| (ux == 0 && uy == 0 && uz == 2 * s && vx == 2 * s && vy == 0 && vz == 2 * s && nx == 0 && ny == 1 && nz == 0)
            ||| (ux == 2 * s && uy == 0 && uz == 2 * s && vx == 2 * s && vy == 0 && vz == 0 && nx == 0 && ny == 1 && nz == 0)
            ||| (ux == 2 * s && uy == 0 && uz == 2 * s && vx == 0 && vy == 0 && vz == 2 * s && nx == 0 && ny == -1 && nz == 0)
            ||| (ux == 2 * s && uy == 0 && uz == 0 && vx == 2 * s && vy == 0 && vz == 2 * s && nx == 0 && ny == -1 && nz == 0)
        }),
    ensures
        (uy * vz - uz * vy) * nx + (uz * vx - ux * vz) * ny + (ux * vy - uy * vx) * nz > 0,
{
}

impl Cubo {
    /// Well-formedness: positive size, every vertex inside the scene and no
    /// higher than the cube's top, every face index in range and every
    /// stored normal an exact axis unit vector.
    pub open spec fn wf(self) -> bool {
        &&& 0 < self.size <= 400_000
        &&& -SCENE_LIMIT <= self.position_offset - self.size
        &&& self.position_offset + self.size <= SCENE_LIMIT
        &&& forall|i: int| 0 <= i < 8 ==> (#[trigger] self.verts@[i]).in_scene()
        &&& forall|i: int| 0 <= i < 8 ==> (#[trigger] self.verts@[i]).y <= self.position_offset + self.size
        &&& forall|f: int| 0 <= f < 6 ==> {
            let fa = #[trigger] self.faces@[f];
            fa.0@[0] < 8 && fa.0@[1] < 8 && fa.0@[2] < 8
            && fa.1@[0] < 8 && fa.1@[1] < 8 && fa.1@[2] < 8
            && fa.2.is_unit_axis()
        }
    }

    /// Build the axis-aligned cube of half-extent `size` resting on the
    /// floor plane `y == floor_y`: base vertices at `floor_y`, top at
    /// `floor_y + 2*size`, with a consistent outward winding and each face's
    /// stored normal the matching axis direction; every triangle winds
    /// counter-clockwise seen from outside, in agreement with that normal
    /// (`winding_agrees`).
    pub fn new(size: i64, floor_y: i64) -> (c: Cubo)
        requires
            0 < size <= 400_000,
            -SCENE_LIMIT <= floor_y,
            floor_y + 2 * size <= SCENE_LIMIT,
        ensures
            c.wf(),
            c.size == size,
            c.position_offset == floor_y + size,
            c.verts@[0] == (Vec3 { x: ((-size) as i64), y: floor_y, z: ((-size) as i64) }),
            c.verts@[1] == (Vec3 { x: size, y: floor_y, z: ((-size) as i64) }),
            c.verts@[2] == (Vec3 { x: size, y: ((floor_y + 2 * size) as i64), z: ((-size) as i64) }),
            c.verts@[3] == (Vec3 { x: ((-size) as i64), y: ((floor_y + 2 * size) as i64), z: ((-size) as i64) }),
            c.verts@[4] == (Vec3 { x: ((-size) as i64), y: floor_y, z: size }),
            c.verts@[5] == (Vec3 { x: size, y: floor_y, z: size }),
            c.verts@[6] == (Vec3 { x: size, y: ((floor_y + 2 * size) as i64), z: size }),
            c.verts@[7] == (Vec3 { x: ((-size) as i64), y: ((floor_y + 2 * size) as i64), z: size }),
            c.faces@[0].2 == (Vec3 { x: 0, y: 0, z: 1 }),
            c.faces@[1].2 == (Vec3 { x: 0, y: 0, z: ((-1) as i64) }),
            c.faces@[2].2 == (Vec3 { x: 1, y: 0, z: 0 }),
            c.faces@[3].2 == (Vec3 { x: ((-1) as i64), y: 0, z: 0 }),
            c.faces@[4].2 == (Vec3 { x: 0, y: 1, z: 0 }),
            c.faces@[5].2 == (Vec3 { x: 0, y: ((-1) as i64), z: 0 }),
            c.faces@[0].0@ == seq![4usize, 5, 6] && c.faces@[0].1@ == seq![4usize, 6, 7],
            c.faces@[1].0@ == seq![0usize, 2, 1] && c.faces@[1].1@ == seq![0usize, 3, 2],
            c.faces@[2].0@ == seq![1usize, 2, 6] && c.faces@[2].1@ == seq![1usize, 6, 5],
            c.faces@[3].0@ == seq![0usize, 7, 3] && c.faces@[3].1@ == seq![0usize, 4, 7],
            c.faces@[4].0@ == seq![3usize, 7, 6] && c.faces@[4].1@ == seq![3usize, 6, 2],
            c.faces@[5].0@ == seq![0usize, 5, 4] && c.faces@[5].1@ == seq![0usize, 1, 5],
            forall|k: int| 0 <= k < 12 ==> #[trigger] winding_agrees(c, k),
    {
        let s = size;
        let cube_y_offset: i64 = floor_y + s;

        let verts: [Vec3; 8] = [
            Vec3 { x: -s, y: cube_y_offset - s, z: -s },
            Vec3 { x: s, y: cube_y_offset - s, z: -s },
            Vec3 { x: s, y: cube_y_offset + s, z: -s },
            Vec3 { x: -s, y: cube_y_offset + s, z: -s },
            Vec3 { x: -s, y: cube_y_offset - s, z: s },
            Vec3 { x: s, y: cube_y_offset - s, z: s },
            Vec3 { x: s, y: cube_y_offset + s, z: s },
            Vec3 { x: -s, y: cube_y_offset + s, z: s },
        ];

        let faces: [([usize; 3], [usize; 3], Vec3); 6] = [
            ([4, 5, 6], [4, 6, 7], Vec3 { x: 0, y: 0, z: 1 }),
            ([0, 2, 1], [0, 3, 2], Vec3 { x: 0, y: 0, z: -1 }),
            ([1, 2, 6], [1, 6, 5], Vec3 { x: 1, y: 0, z: 0 }),
            ([0, 7, 3], [0, 4, 7], Vec3 { x: -1, y: 0, z: 0 }),
            ([3, 7, 6], [3, 6, 2], Vec3 { x: 0, y: 1, z: 0 }),
            ([0, 5, 4], [0, 1, 5], Vec3 { x: 0, y: -1, z: 0 }),
        ];

        let c = Cubo { verts, faces, size: s, position_offset: cube_y_offset };
        proof {
            assert(c.faces@[0].0@ =~= seq![4usize, 5, 6]);
            assert(c.faces@[0].1@ =~= seq![4usize, 6, 7]);
            assert(c.faces@[1].0@ =~= seq![0usize, 2, 1]);
            assert(c.faces@[1].1@ =~= seq![0usize, 3, 2]);
            assert(c.faces@[2].0@ =~= seq![1usize, 2, 6]);
            assert(c.faces@[2].1@ =~= seq![1usize, 6, 5]);
            assert(c.faces@[3].0@ =~= seq![0usize, 7, 3]);
            assert(c.faces@[3].1@ =~= seq![0usize, 4, 7]);
            assert(c.faces@[4].0@ =~= seq![3usize, 7, 6]);
            assert(c.faces@[4].1@ =~= seq![3usize, 6, 2]);
            assert(c.faces@[5].0@ =~= seq![0usize, 5, 4]);
            assert(c.faces@[5].1@ =~= seq![0usize, 1, 5]);
            assert forall|k: int| 0 <= k < 12 implies #[trigger] winding_agrees(c, k) by {
                let t = tri_of(c, k);
                let n = normal_of(c, k);
                let u = sub3(t.1@, t.0@);
                let v = sub3(t.2@, t.0@);
                let si = size as int;
                if k == 0 {
                    lemma_axis_winding(u.0, u.1, u.2, v.0, v.1, v.2, n@.0, n@.1, n@.2, si);
                } else if k == 1 {
                    lemma_axis_winding(u.0, u.1, u.2, v.0, v.1, v.2, n@.0, n@.1, n@.2, si);
                } else if k == 2 {
                    lemma_axis_winding(u.0, u.1, u.2, v.0, v.1, v.2, n@.0, n@.1, n@.2, si);
                } else if k == 3 {
                    lemma_axis_winding(u.0, u.1, u.2, v.0, v.1, v.2, n@.0, n@.1, n@.2, si);
                } else if k == 4 {
                    lemma_axis_winding(u.0, u.1, u.2, v.0, v.1, v.2, n@.0, n@.1, n@.2, si);
                } else if k == 5 {
                    lemma_axis_winding(u.0, u.1, u.2, v.0, v.1, v.2, n@.0, n@.1, n@.2, si);
                } else if k == 6 {
                    lemma_axis_winding(u.0, u.1, u.2, v.0, v.1, v.2, n@.0, n@.1, n@.2, si);
                } else if k == 7 {
                    lemma_axis_winding(u.0, u.1, u.2, v.0, v.1, v.2, n@.0, n@.1, n@.2, si);
                } else if k == 8 {
                    lemma_axis_winding(u.0, u.1, u.2, v.0, v.1, v.2, n@.0, n@.1, n@.2, si);
                } else if k == 9 {
                    lemma_axis_winding(u.0, u.1, u.2, v.0, v.1, v.2, n@.0, n@.1, n@.2, si);
                } else if k == 10 {
                    lemma_axis_winding(u.0, u.1, u.2, v.0, v.1, v.2, n@.0, n@.1, n@.2, si);
                } else {
                    lemma_axis_winding(u.0, u.1, u.2, v.0, v.1, v.2, n@.0, n@.1, n@.2, si);
                }
            }
        }
        c
    }

    /// The dark base color and placement of the backing solid cube: center,
    /// full side length, and the near-black version of the object color.
    pub fn render_solid_base(&self) -> (r: (Vec3, i64, Color))
        requires
            self.wf(),
        ensures
            r.0 == (Vec3 { x: 0, y: self.position_offset, z: 0 }),
            r.1 == 2 * self.size,
            r.2 == (Color { r: 13, g: 6, b: 4 }),
    {
        let c = Color {
            r: (OBJECT_COLOR_R * 15 / 1000) as u8,
            g: (OBJECT_COLOR_G * 15 / 1000) as u8,
            b: (OBJECT_COLOR_B * 15 / 1000) as u8,
        };
        (Vec3 { x: 0, y: self.position_offset, z: 0 }, 2 * self.size, c)
    }

    /// The twelve occluder triangles, in face order.
    fn occluder_list(&self) -> (r: Vec<(Vec3, Vec3, Vec3)>)
        requires
            self.wf(),
        ensures
            r@ == occluders_spec(*self),
            r@.len() == 12,
    {
        let mut v: Vec<(Vec3, Vec3, Vec3)> = Vec::new();
        let mut k: usize = 0;
        while k < 12
        invariant
            self.wf(),
            0 <= k <= 12,
            v@.len() == k,
            forall|j: int| 0 <= j < k ==> v@[j] == tri_of(*self, j),
        decreases 12 - k,
        {
            let f = k / 2;
            let face = self.faces[f];
            let idx = if k % 2 == 0 {
                face.0
            } else {
                face.1
            };
            v.push((self.verts[idx[0]], self.verts[idx[1]], self.verts[idx[2]]));
            k = k + 1;
        }
        proof {
            assert_seqs_equal!(v@ == occluders_spec(*self));
        }
        v
    }

    /// The base object color at full brightness (the milli color constants
    /// scaled onto the 8-bit display range).
    pub fn base_color(&self) -> (c: Color)
        ensures
            c == (Color { r: 229, g: 102, b: 76 }),
    {
        Color {
            r: (OBJECT_COLOR_R * 255 / 1000) as u8,
            g: (OBJECT_COLOR_G * 255 / 1000) as u8,
            b: (OBJECT_COLOR_B * 255 / 1000) as u8,
        }
    }

    /// Shade all twelve triangles, one sample at each centroid, against the
    /// full occluder set; every triangle is emitted (no cull). With
    /// `show_normals`, one debug line per triangle from the centroid along
    /// the face normal (0.6 units long).
    pub fn render_lit_faces(&self, light: &Light, show_normals: bool) -> (r: LitFaces)
        requires
            self.wf(),
            light.pos.in_scene(),
            light.color_in_range(),
        ensures
            r.triangles@.len() == 12,
            forall|k: int| 0 <= k < 12 ==> #[trigger] r.triangles@[k] == lit_triangle_spec(*self, *light, k),
            show_normals ==> r.normal_lines@.len() == 12,
            !show_normals ==> r.normal_lines@.len() == 0,
            forall|k: int| 0 <= k < r.normal_lines@.len() ==> #[trigger] r.normal_lines@[k] == normal_line_spec(*self, k),
    {
        let occluders = self.occluder_list();
        let base = self.base_color();
        let light_col = light.color;
        let mut triangles: Vec<ShadedTriangle> = Vec::new();
        let mut normal_lines: Vec<(Vec3, Vec3)> = Vec::new();
        let mut k: usize = 0;
        while k < 12
        invariant
            self.wf(),
            light.pos.in_scene(),
            light.color_in_range(),
            light_col == light.color,
            base == (Color { r: 229, g: 102, b: 76 }),
            occluders@ == occluders_spec(*self),
            0 <= k <= 12,
            triangles@.len() == k,
            forall|j: int| 0 <= j < k ==> #[trigger] triangles@[j] == lit_triangle_spec(*self, *light, j),
            normal_lines@.len() == (if show_normals { k as int } else { 0 }),
            forall|j: int| 0 <= j < normal_lines@.len() ==> #[trigger] normal_lines@[j] == normal_line_spec(*self, j),
        decreases 12 - k,
        {
            let f = k / 2;
            let face = self.faces[f];
            let idx = if k % 2 == 0 {
                face.0
            } else {
                face.1
            };
            let a = self.verts[idx[0]];
            let b = self.verts[idx[1]];
            let c = self.verts[idx[2]];
            let cen = centroid(a, b, c);
            let color = shade_with_shadows(face.2, cen, light, base, light_col, AMBIENT_LIGHT, &occluders);
            triangles.push(ShadedTriangle { v0: a, v1: b, v2: c, color });
            if show_normals {
                let tip = Vec3 {
                    x: cen.x + face.2.x * 600,
                    y: cen.y + face.2.y * 600,
                    z: cen.z + face.2.z * 600,
                };
                normal_lines.push((cen, tip));
            }
            k = k + 1;
        }
        LitFaces { triangles, normal_lines }
    }

    /// The twelve wireframe edges: bottom square, top square, four vertical
    /// connections.
    pub fn render_wireframe(&self) -> (r: Vec<(Vec3, Vec3)>)
        requires
            self.wf(),
        ensures
            r@ == wire_edges_spec(*self),
            r@.len() == 12,
    {
        let mut v: Vec<(Vec3, Vec3)> = Vec::new();
        v.push((self.verts[0], self.verts[1]));
        v.push((self.verts[1], self.verts[2]));
        v.push((self.verts[2], self.verts[3]));
        v.push((self.verts[3], self.verts[0]));
        v.push((self.verts[4], self.verts[5]));
        v.push((self.verts[5], self.verts[6]));
        v.push((self.verts[6], self.verts[7]));
        v.push((self.verts[7], self.verts[4]));
        v.push((self.verts[0], self.verts[4]));
        v.push((self.verts[1], self.verts[5]));
        v.push((self.verts[2], self.verts[6]));
        v.push((self.verts[3], self.verts[7]));
        proof {
            assert_seqs_equal!(v@ == wire_edges_spec(*self));
        }
        v
    }

    /// Project the cube's shadow silhouette onto the floor plane: for each
    /// face whose first-triangle centroid lies clearly above the floor, both
    /// its triangles projected vertex by vertex along the exact line from
    /// the light through the vertex onto `y == floor_y`. Skipped entirely
    /// unless the light stands clearly above both the floor and the cube's
    /// top (where the perspective projection would be singular).
    pub fn render_shadow_stable(&self, light: &Light, floor_y: i64) -> (r: Vec<(Vec3, Vec3, Vec3)>)
        requires
            self.wf(),
            light.pos.in_scene(),
            -SCENE_LIMIT <= floor_y <= SCENE_LIMIT,
        ensures
            r@.len() <= 12,
            !shadow_guard(*self, *light, floor_y as int) ==> r@.len() == 0,
            shadow_guard(*self, *light, floor_y as int) ==> r@ == shadow_seq(*self, light.pos, floor_y as int, 6),
            forall|j: int| 0 <= j < r@.len() ==> {
                let t = #[trigger] r@[j];
                t.0.y == floor_y && t.1.y == floor_y && t.2.y == floor_y
            },
    {
        let mut v: Vec<(Vec3, Vec3, Vec3)> = Vec::new();
        if !(light.pos.y > floor_y + 100 && light.pos.y > self.position_offset + self.size) {
            return v;
        }
        let mut f: usize = 0;
        while f < 6
        invariant
            self.wf(),
            light.pos.in_scene(),
            -SCENE_LIMIT <= floor_y <= SCENE_LIMIT,
            light.pos.y > floor_y + 100,
            light.pos.y > self.position_offset + self.size,
            0 <= f <= 6,
            v@ == shadow_seq(*self, light.pos, floor_y as int, f as int),
            v@.len() <= 2 * f,
            forall|j: int| 0 <= j < v@.len() ==> {
                let t = #[trigger] v@[j];
                t.0.y == floor_y && t.1.y == floor_y && t.2.y == floor_y
            },
        decreases 6 - f,
        {
            let face = self.faces[f];
            let a = self.verts[face.0[0]];
            let b = self.verts[face.0[1]];
            let c = self.verts[face.0[2]];
            let cen = centroid(a, b, c);
            if cen.y > floor_y + 50 {
                let a2 = self.verts[face.1[0]];
                let b2 = self.verts[face.1[1]];
                let c2 = self.verts[face.1[2]];
                let t1 = (
                    project_vertex(a, light.pos, floor_y),
                    project_vertex(b, light.pos, floor_y),
                    project_vertex(c, light.pos, floor_y),
                );
                let t2 = (
                    project_vertex(a2, light.pos, floor_y),
                    project_vertex(b2, light.pos, floor_y),
                    project_vertex(c2, light.pos, floor_y),
                );
                v.push(t1);
                v.push(t2);
            }
            f = f + 1;
        }
        v
    }
}

/// One shaded output triangle: the `k`-th triangle with the color of its
/// centroid sample under the full occluder set.
pub open spec fn lit_triangle_spec(c: Cubo, l: Light, k: int) -> ShadedTriangle {
    let t = tri_of(c, k);
    let cen = centroid_spec(t.0, t.1, t.2);
    ShadedTriangle {
        v0: t.0,
        v1: t.1,
        v2: t.2,
        color: shade_color_spec(
            normal_of(c, k),
            cen,
            l.pos,
            Color { r: 229, g: 102, b: 76 },
            l.color,
            AMBIENT_LIGHT as int,
            in_shadow_spec(cen, l.pos, occluders_spec(c)),
        ),
    }
}

/// The `k`-th normal debug line: centroid to centroid plus 0.6 units of
/// face normal.
pub open spec fn normal_line_spec(c: Cubo, k: int) -> (Vec3, Vec3) {
    let t = tri_of(c, k);
    let cen = centroid_spec(t.0, t.1, t.2);
    let n = normal_of(c, k);
    (cen, Vec3 { x: (cen.x + n.x * 600) as i64, y: (cen.y + n.y * 600) as i64, z: (cen.z + n.z * 600) as i64 })
}

/// The wireframe edge list, in drawing order.
pub open spec fn wire_edges_spec(c: Cubo) -> Seq<(Vec3, Vec3)> {
    seq![
        (c.verts@[0], c.verts@[1]),
        (c.verts@[1], c.verts@[2]),
        (c.verts@[2], c.verts@[3]),
        (c.verts@[3], c.verts@[0]),
        (c.verts@[4], c.verts@[5]),
        (c.verts@[5], c.verts@[6]),
        (c.verts@[6], c.verts@[7]),
        (c.verts@[7], c.verts@[4]),
        (c.verts@[0], c.verts@[4]),
        (c.verts@[1], c.verts@[5]),
        (c.verts@[2], c.verts@[6]),
        (c.verts@[3], c.verts@[7]),
    ]
}

/// Centroid of three in-scene points, rounded toward zero.
fn centroid(a: Vec3, b: Vec3, c: Vec3) -> (r: Vec3)
    requires
        a.in_scene(),
        b.in_scene(),
        c.in_scene(),
    ensures
        r == centroid_spec(a, b, c),
        r.in_scene(),
{
    Vec3 {
        x: div_trunc(a.x + b.x + c.x, 3),
        y: div_trunc(a.y + b.y + c.y, 3),
        z: div_trunc(a.z + b.z + c.z, 3),
    }
}

/// The projection of `v` onto the plane `y == fy` along the line through the
/// light `l` and `v`, as exact homogeneous coordinates scaled by the
/// denominator `l.1 - v.1`.
pub open spec fn proj_scaled(v: (int, int, int), l: (int, int, int), fy: int) -> (int, int, int) {
    let den = l.1 - v.1;
    let sn = l.1 - fy;
    (l.0 * den + sn * (v.0 - l.0), l.1 * den + sn * (v.1 - l.1), l.2 * den + sn * (v.2 - l.2))
}

/// The projected vertex on the milli grid: the homogeneous coordinates
/// divided by their denominator, rounded toward zero; the `y` coordinate is
/// exactly `fy`.
pub open spec fn project_spec(v: Vec3, l: Vec3, fy: int) -> Vec3 {
    let p = proj_scaled(v@, l@, fy);
    let den = l.y - v.y;
    Vec3 { x: tdiv(p.0, den) as i64, y: fy as i64, z: tdiv(p.2, den) as i64 }
}

/// The exactness of the planar shadow projection: the scaled projected point
/// lies exactly on the floor plane (`y` component equals `fy` times the
/// denominator), and exactly on the straight line through light and vertex
/// (the cross product of the two spanning differences vanishes). Singular
/// only when the vertex is at the light's height, where the denominator is
/// zero.
pub proof fn lemma_projection_exact(v: (int, int, int), l: (int, int, int), fy: int)
    requires
        v.1 != l.1,
    ensures
        proj_scaled(v, l, fy).1 == fy * (l.1 - v.1),
        cross3(sub3(proj_scaled(v, l, fy), scale3(l.1 - v.1, l)), sub3(v, l)) == ((0int, 0int, 0int)),
{
    let den = l.1 - v.1;
    let sn = l.1 - fy;
    let p = proj_scaled(v, l, fy);
    assert(p.1 == fy * den) by (nonlinear_arith)
        requires
            p.1 == l.1 * (l.1 - v.1) + (l.1 - fy) * (v.1 - l.1),
            den == l.1 - v.1,
            fy == fy,
    ;
    let w = sub3(v, l);
    let u = sub3(p, scale3(den, l));
    assert(u.0 == sn * w.0) by (nonlinear_arith)
        requires
            u.0 == l.0 * den + sn * (v.0 - l.0) - den * l.0,
            w.0 == v.0 - l.0,
    ;
    assert(u.1 == sn * w.1) by (nonlinear_arith)
        requires
            u.1 == l.1 * den + sn * (v.1 - l.1) - den * l.1,
            w.1 == v.1 - l.1,
    ;
    assert(u.2 == sn * w.2) by (nonlinear_arith)
        requires
            u.2 == l.2 * den + sn * (v.2 - l.2) - den * l.2,
            w.2 == v.2 - l.2,
    ;
    assert(cross3(u, w).0 == 0) by (nonlinear_arith)
        requires
            u.1 == sn * w.1,
            u.2 == sn * w.2,
    ;
    assert(cross3(u, w).1 == 0) by (nonlinear_arith)
        requires
            u.0 == sn * w.0,
            u.2 == sn * w.2,
    ;
    assert(cross3(u, w).2 == 0) by (nonlinear_arith)
        requires
            u.0 == sn * w.0,
            u.1 == sn * w.1,
    ;
}

/// Whether the shadow pass runs at all: the light stands clearly above the
/// floor and strictly above the cube's top.
pub open spec fn shadow_guard(c: Cubo, l: Light, fy: int) -> bool {
    l.pos.y > fy + 100 && l.pos.y > c.position_offset + c.size
}

/// Whether face `f` casts: its first-triangle centroid lies clearly above
/// the floor.
pub open spec fn face_casts(c: Cubo, fy: int, f: int) -> bool {
    let t = tri_of(c, 2 * f);
    centroid_spec(t.0, t.1, t.2).y > fy + 50
}

/// The `k`-th triangle projected onto the floor.
pub open spec fn proj_tri(c: Cubo, l: Vec3, fy: int, k: int) -> (Vec3, Vec3, Vec3) {
    let t = tri_of(c, k);
    (project_spec(t.0, l, fy), project_spec(t.1, l, fy), project_spec(t.2, l, fy))
}

/// The emitted shadow triangles of the first `f` faces, in face order.
pub open spec fn shadow_seq(c: Cubo, l: Vec3, fy: int, f: int) -> Seq<(Vec3, Vec3, Vec3)>
    decreases f,
{
    if f <= 0 {
        Seq::empty()
    } else {
        let rest = shadow_seq(c, l, fy, f - 1);
        if face_casts(c, fy, f - 1) {
            rest + seq![proj_tri(c, l, fy, 2 * (f - 1)), proj_tri(c, l, fy, 2 * (f - 1) + 1)]
        } else {
            rest
        }
    }
}

/// Project one vertex onto the floor plane along the light ray through it.
fn project_vertex(v: Vec3, l: Vec3, floor_y: i64) -> (r: Vec3)
    requires
        v.in_scene(),
        l.in_scene(),
        -SCENE_LIMIT <= floor_y <= SCENE_LIMIT,
        l.y > v.y,
    ensures
        r == project_spec(v, l, floor_y as int),
        r.y == floor_y,
{
    let den: i64 = l.y - v.y;
    let sn: i64 = l.y - floor_y;
    proof {
        lemma_mul_bound(l.x as int, den as int, 1_000_000, 2_000_000);
        lemma_mul_bound(l.z as int, den as int, 1_000_000, 2_000_000);
        lemma_mul_bound(sn as int, (v.x - l.x) as int, 2_000_000, 2_000_000);
        lemma_mul_bound(sn as int, (v.z - l.z) as int, 2_000_000, 2_000_000);
    }
    let nx: i64 = l.x * den + sn * (v.x - l.x);
    let nz: i64 = l.z * den + sn * (v.z - l.z);
    Vec3 { x: div_trunc(nx, den), y: floor_y, z: div_trunc(nz, den) }
}

} // verus!
