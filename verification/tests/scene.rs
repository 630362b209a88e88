//! The cube table, the shadow projection, the orbit-state clamps, and the
//! end-to-end frame scenario.

use cubeshade::colores::Color;
use cubeshade::controles::{CameraControls, LightControls};
use cubeshade::cubo::Cubo;
use cubeshade::escena::Escena;
use cubeshade::light::Light;
use cubeshade::vec3::Vec3;

fn v(x: i64, y: i64, z: i64) -> Vec3 {
    Vec3 { x, y, z }
}

#[test]
fn cube_table_matches_the_fixed_layout() {
    let cubo = Cubo::new(1000, -1500);
    assert_eq!(cubo.size, 1000);
    assert_eq!(cubo.position_offset, -500);
    assert_eq!(cubo.verts[0], v(-1000, -1500, -1000));
    assert_eq!(cubo.verts[6], v(1000, 500, 1000));
    // Six axis normals, one per face.
    let normals: Vec<Vec3> = cubo.faces.iter().map(|f| f.2).collect();
    assert_eq!(normals[0], v(0, 0, 1));
    assert_eq!(normals[1], v(0, 0, -1));
    assert_eq!(normals[2], v(1, 0, 0));
    assert_eq!(normals[3], v(-1, 0, 0));
    assert_eq!(normals[4], v(0, 1, 0));
    assert_eq!(normals[5], v(0, -1, 0));
}

#[test]
fn every_triangle_winds_outward_with_its_stored_normal() {
    let cubo = Cubo::new(1000, -1500);
    for (t1, t2, n) in cubo.faces.iter() {
        for tri in [t1, t2] {
            let a = cubo.verts[tri[0]];
            let b = cubo.verts[tri[1]];
            let c = cubo.verts[tri[2]];
            let u = (b.x - a.x, b.y - a.y, b.z - a.z);
            let w = (c.x - a.x, c.y - a.y, c.z - a.z);
            let geometric = (
                u.1 * w.2 - u.2 * w.1,
                u.2 * w.0 - u.0 * w.2,
                u.0 * w.1 - u.1 * w.0,
            );
            let aligned = geometric.0 * n.x + geometric.1 * n.y + geometric.2 * n.z;
            assert!(aligned > 0, "triangle {:?} winds against its normal", tri);
        }
    }
}

#[test]
fn solid_base_is_a_dark_version_of_the_object_color() {
    let cubo = Cubo::new(1000, -1500);
    let (center, side, color) = cubo.render_solid_base();
    assert_eq!(center, v(0, -500, 0));
    assert_eq!(side, 2000);
    assert_eq!(color, Color::new(13, 6, 4));
}

#[test]
fn wireframe_has_twelve_edges_on_cube_vertices() {
    let cubo = Cubo::new(1000, -1500);
    let edges = cubo.render_wireframe();
    assert_eq!(edges.len(), 12);
    assert_eq!(edges[0], (cubo.verts[0], cubo.verts[1]));
    assert_eq!(edges[11], (cubo.verts[3], cubo.verts[7]));
}

#[test]
fn shadow_projection_lands_exactly_on_the_floor() {
    let cubo = Cubo::new(1000, -1500);
    let light = Light::new(v(4000, 6000, 2000), v(1000, 1000, 1000));
    let shadows = cubo.render_shadow_stable(&light, -1500);
    // Five faces lie clearly above the floor (all but the bottom one).
    assert_eq!(shadows.len(), 10);
    for (a, b, c) in shadows.iter() {
        assert_eq!(a.y, -1500);
        assert_eq!(b.y, -1500);
        assert_eq!(c.y, -1500);
    }
    // Vertex 6 = (1000, 500, 1000) projects along the light ray to
    // (-500000/5500, -1500, 3500000/5500), rounded toward zero.
    // It is the third vertex of the front face's first triangle [4, 5, 6].
    assert_eq!(shadows[0].2, v(-90, -1500, 636));
}

#[test]
fn light_at_floor_level_casts_no_projected_shadow() {
    let cubo = Cubo::new(1000, -1500);
    let low = Light::new(v(4000, -1500, 2000), v(1000, 1000, 1000));
    assert_eq!(cubo.render_shadow_stable(&low, -1500).len(), 0);
    let inside = Light::new(v(0, 0, 0), v(1000, 1000, 1000));
    assert_eq!(cubo.render_shadow_stable(&inside, -1500).len(), 0);
}

#[test]
fn camera_orbit_stays_clamped_under_extreme_input() {
    let mut cam = CameraControls::new(7500, 785, 322);
    for _ in 0..100 {
        cam.update(6283, i64::MAX / 2, i64::MAX / 2);
        assert!((2000..=30000).contains(&cam.radius));
        assert!((-1400..=1400).contains(&cam.pitch));
        assert!(cam.yaw > -6283 && cam.yaw < 6283);
    }
    assert_eq!(cam.pitch, 1400);
    assert_eq!(cam.radius, 30000);
    for _ in 0..100 {
        cam.update(-6283, i64::MIN / 2, i64::MIN / 2);
        assert!((2000..=30000).contains(&cam.radius));
        assert!((-1400..=1400).contains(&cam.pitch));
    }
    assert_eq!(cam.pitch, -1400);
    assert_eq!(cam.radius, 2000);
}

#[test]
fn light_controls_clamp_intensity_and_wrap_rotation() {
    let mut lc = LightControls::new();
    assert!(lc.auto_rotate);
    assert_eq!(lc.intensity, 1000);
    for _ in 0..200 {
        lc.update(false, true, false);
        assert!(lc.intensity <= 3000);
    }
    assert_eq!(lc.intensity, 3000);
    for _ in 0..300 {
        lc.update(false, false, true);
        assert!(lc.intensity >= 100);
    }
    assert_eq!(lc.intensity, 100);
    lc.update(true, false, false);
    assert!(!lc.auto_rotate);
    let frozen = lc.rotation;
    lc.update(false, false, false);
    assert_eq!(lc.rotation, frozen);
    lc.update(true, false, false);
    for _ in 0..700 {
        lc.update(false, false, false);
        assert!(lc.rotation > -6283 && lc.rotation < 6283);
    }
}

#[test]
fn one_frame_of_the_standard_scene() {
    let escena = Escena::new();
    assert_eq!(escena.get_cube_center_y(), -500);
    assert_eq!(escena.background_color, Color::new(20, 25, 35));
    let light = Light::new(v(4000, 6000, 2000), v(1000, 1000, 1000));
    let frame = escena.render(&light, false, true);
    assert_eq!(frame.lit.triangles.len(), 12);
    assert!(frame.shadows.len() <= 12);
    assert_eq!(frame.shadows.len(), 10);
    assert_eq!(frame.wireframe.len(), 12);
    assert_eq!(frame.floor.grid.len(), 22);
    assert_eq!(frame.lit.normal_lines.len(), 0);
    assert_eq!(frame.light_marker, v(4000, 6000, 2000));
    // The cube's lit faces keep their geometry; only the color is computed.
    let t0 = &frame.lit.triangles[0];
    assert_eq!(t0.v0, escena.cubo.verts[4]);
    assert_eq!(t0.v1, escena.cubo.verts[5]);
    assert_eq!(t0.v2, escena.cubo.verts[6]);
    let with_normals = escena.render(&light, true, false);
    assert_eq!(with_normals.lit.normal_lines.len(), 12);
    assert_eq!(with_normals.wireframe.len(), 0);
}
