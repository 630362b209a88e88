//! The scene: exactly one cube on one floor with a background color. One
//! `render` call per frame turns the scene plus the light and display
//! toggles into the frame's draw lists, in compositing order.

use vstd::prelude::*;
use crate::vec3::Vec3;
use crate::colores::Color;
use crate::cubo::{Cubo, LitFaces, lit_triangle_spec, wire_edges_spec, shadow_guard, shadow_seq};
use crate::piso::{Piso, FloorDraw, grid_line_spec};
use crate::light::Light;

verus! {

pub struct Escena {
    pub cubo: Cubo,
    pub piso: Piso,
    pub background_color: Color,
}

/// Everything one frame draws, in order: the floor, the light marker, the
/// lit cube triangles, the shadow silhouette (composited after the lit
/// cube, as a darkening overlay), and the wireframe on top.
pub struct FrameDraw {
    pub floor: FloorDraw,
    pub light_marker: Vec3,
    pub lit: LitFaces,
    pub shadows: Vec<(Vec3, Vec3, Vec3)>,
    pub wireframe: Vec<(Vec3, Vec3)>,
}

impl Escena {
    pub open spec fn wf(self) -> bool {
        &&& self.cubo.wf()
        &&& self.piso.wf()
    }

    /// The standard scene: a unit cube resting on a floor of side 8 at
    /// `y == -1.5`, against a dark blue-grey background.
    pub fn new() -> (s: Escena)
        ensures
            s.wf(),
            s.cubo.size == 1000,
            s.cubo.position_offset == -500,
            s.piso.y_position == -1500,
            s.piso.size == 8000,
            s.background_color == (Color { r: 20, g: 25, b: 35 }),
    {
        Escena {
            cubo: Cubo::new(1000, -1500),
            piso: Piso::new(-1500, 8000),
            background_color: Color { r: 20, g: 25, b: 35 },
        }
    }

    /// One frame: always all 22 grid lines and all 12 shaded cube
    /// triangles; at most 12 shadow triangles (none when the light stands
    /// too low); the 12 wireframe edges only when asked for.
    pub fn render(&self, light: &Light, show_normals: bool, show_wireframe: bool) -> (r: FrameDraw)
        requires
            self.wf(),
            light.pos.in_scene(),
            light.color_in_range(),
        ensures
            r.floor.grid@.len() == 22,
            forall|k: int| 0 <= k < 22 ==> #[trigger] r.floor.grid@[k] == grid_line_spec(self.piso, k),
            r.light_marker == light.pos,
            r.lit.triangles@.len() == 12,
            forall|k: int| 0 <= k < 12 ==> #[trigger] r.lit.triangles@[k] == lit_triangle_spec(self.cubo, *light, k),
            show_normals ==> r.lit.normal_lines@.len() == 12,
            !show_normals ==> r.lit.normal_lines@.len() == 0,
            r.shadows@.len() <= 12,
            !shadow_guard(self.cubo, *light, self.piso.y_position as int) ==> r.shadows@.len() == 0,
            shadow_guard(self.cubo, *light, self.piso.y_position as int) ==> r.shadows@ == shadow_seq(
                self.cubo,
                light.pos,
                self.piso.y_position as int,
                6,
            ),
            forall|j: int| 0 <= j < r.shadows@.len() ==> {
                let t = #[trigger] r.shadows@[j];
                t.0.y == self.piso.y_position && t.1.y == self.piso.y_position && t.2.y == self.piso.y_position
            },
            show_wireframe ==> r.wireframe@ == wire_edges_spec(self.cubo) && r.wireframe@.len() == 12,
            !show_wireframe ==> r.wireframe@.len() == 0,
    {
        let floor = self.piso.render();
        let lit = self.cubo.render_lit_faces(light, show_normals);
        let shadows = self.cubo.render_shadow_stable(light, self.piso.y_position);
        let wireframe = if show_wireframe {
            self.cubo.render_wireframe()
        } else {
            Vec::new()
        };
        FrameDraw { floor, light_marker: light.position_vec3(), lit, shadows, wireframe }
    }

    /// Height of the cube's center above the origin plane.
    pub fn get_cube_center_y(&self) -> (y: i64)
        ensures
            y == self.cubo.position_offset,
    {
        self.cubo.position_offset
    }
}

} // verus!
