//! The floor: a plane at a fixed height with a 10x10 grid overlay, emitted
//! as line segments one milli above the plane to avoid z-fighting.

use vstd::prelude::*;
use crate::vec3::{Vec3, SCENE_LIMIT};
use crate::numeric::lemma_mul_bound;

verus! {

pub struct Piso {
    pub y_position: i64,
    pub size: i64,
}

/// What one floor pass emits: the plane's center and side length, and the
/// grid line segments.
pub struct FloorDraw {
    pub center: Vec3,
    pub size: i64,
    pub grid: Vec<(Vec3, Vec3)>,
}

impl Piso {
    /// A drawable floor: positive side length, inside the scene.
    pub open spec fn wf(self) -> bool {
        &&& 0 < self.size <= SCENE_LIMIT
        &&& -SCENE_LIMIT <= self.y_position < SCENE_LIMIT
    }

    pub fn new(y_position: i64, size: i64) -> (p: Piso)
        ensures
            p.y_position == y_position,
            p.size == size,
    {
        Piso { y_position, size }
    }

    /// The floor's draw data: the plane and the 22 grid lines (11 along
    /// each axis).
    pub fn render(&self) -> (r: FloorDraw)
        requires
            self.wf(),
        ensures
            r.center == (Vec3 { x: 0, y: self.y_position, z: 0 }),
            r.size == self.size,
            r.grid@.len() == 22,
            forall|k: int| 0 <= k < 22 ==> #[trigger] r.grid@[k] == grid_line_spec(*self, k),
    {
        let half: i64 = ((self.size as u64) / 2) as i64;
        let spacing: i64 = ((self.size as u64) / 10) as i64;
        let yl: i64 = self.y_position + 1;
        let mut grid: Vec<(Vec3, Vec3)> = Vec::new();
        let mut i: usize = 0;
        while i < 11
        invariant
            self.wf(),
            half == self.size / 2,
            spacing == self.size / 10,
            0 <= spacing <= 100_000,
            0 <= half <= SCENE_LIMIT,
            yl == self.y_position + 1,
            0 <= i <= 11,
            grid@.len() == 2 * i,
            forall|k: int| 0 <= k < 2 * i ==> #[trigger] grid@[k] == grid_line_spec(*self, k),
        decreases 11 - i,
        {
            proof {
                lemma_mul_bound(i as int, spacing as int, 11, 100_000);
            }
            let pos: i64 = -half + (i as i64) * spacing;
            grid.push((
                Vec3 { x: -half, y: yl, z: pos },
                Vec3 { x: half, y: yl, z: pos },
            ));
            grid.push((
                Vec3 { x: pos, y: yl, z: -half },
                Vec3 { x: pos, y: yl, z: half },
            ));
            i = i + 1;
        }
        FloorDraw { center: Vec3 { x: 0, y: self.y_position, z: 0 }, size: self.size, grid }
    }
}

/// The `k`-th grid line: even `k` runs along the x axis, odd `k` along the
/// z axis, at the `k/2`-th grid position.
pub open spec fn grid_line_spec(p: Piso, k: int) -> (Vec3, Vec3) {
    let half = p.size / 2;
    let spacing = p.size / 10;
    let pos = -half + (k / 2) * spacing;
    let yl = p.y_position + 1;
    if k % 2 == 0 {
        (
            Vec3 { x: ((-half) as i64), y: (yl as i64), z: (pos as i64) },
            Vec3 { x: (half as i64), y: (yl as i64), z: (pos as i64) },
        )
    } else {
        (
            Vec3 { x: (pos as i64), y: (yl as i64), z: ((-half) as i64) },
            Vec3 { x: (pos as i64), y: (yl as i64), z: (half as i64) },
        )
    }
}

} // verus!
