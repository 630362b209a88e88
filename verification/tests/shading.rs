//! The shading formula on concrete inputs: exact channel values, the
//! monotone response to the light's angle, and shadow darkening.

use cubeshade::colores::Color;
use cubeshade::cubo::Cubo;
use cubeshade::light::{color_vec, shade_with_shadows, Light};
use cubeshade::vec3::Vec3;

fn v(x: i64, y: i64, z: i64) -> Vec3 {
    Vec3 { x, y, z }
}

fn cube_triangles(cubo: &Cubo) -> Vec<(Vec3, Vec3, Vec3)> {
    let mut tris = Vec::new();
    for (t1, t2, _) in cubo.faces.iter() {
        tris.push((cubo.verts[t1[0]], cubo.verts[t1[1]], cubo.verts[t1[2]]));
        tris.push((cubo.verts[t2[0]], cubo.verts[t2[1]], cubo.verts[t2[2]]));
    }
    tris
}

#[test]
fn light_accessors_hand_back_the_fields() {
    let light = Light::new(v(4000, 6000, 2000), v(1000, 1000, 1000));
    assert_eq!(light.position_vec3(), v(4000, 6000, 2000));
    assert_eq!(color_vec(&light), v(1000, 1000, 1000));
}

#[test]
fn shade_exact_value_overhead_light() {
    // Top-face centroid of the unit cube on the floor at -1.5, light
    // straight above at moderate color: n.L lands at 994/1000, the diffuse
    // term at 988, the intensity at 1977, and the channels at
    // floor(base * 1977 * 300 / 1_000_000).
    let light = Light::new(v(0, 5000, 0), v(300, 300, 300));
    let none: Vec<(Vec3, Vec3, Vec3)> = Vec::new();
    let c = shade_with_shadows(
        v(0, 1, 0),
        v(-333, 500, 333),
        &light,
        Color::new(229, 102, 76),
        v(300, 300, 300),
        1,
        &none,
    );
    assert_eq!((c.r, c.g, c.b), (135, 60, 45));
}

#[test]
fn grazing_light_is_dimmer_than_overhead_light() {
    let none: Vec<(Vec3, Vec3, Vec3)> = Vec::new();
    let base = Color::new(229, 102, 76);
    let point = v(-333, 500, 333);
    let normal = v(0, 1, 0);
    let overhead = Light::new(v(0, 5000, 0), v(300, 300, 300));
    let grazing = Light::new(v(4000, 600, 0), v(300, 300, 300));
    let bright = shade_with_shadows(normal, point, &overhead, base, v(300, 300, 300), 1, &none);
    let dim = shade_with_shadows(normal, point, &grazing, base, v(300, 300, 300), 1, &none);
    assert!(dim.r <= bright.r && dim.g <= bright.g && dim.b <= bright.b);
    assert!(dim.r < bright.r);
}

#[test]
fn light_behind_the_face_leaves_only_ambient() {
    let none: Vec<(Vec3, Vec3, Vec3)> = Vec::new();
    let below = Light::new(v(0, -5000, 0), v(1000, 1000, 1000));
    let c = shade_with_shadows(
        v(0, 1, 0),
        v(0, 500, 0),
        &below,
        Color::new(229, 102, 76),
        v(1000, 1000, 1000),
        1,
        &none,
    );
    // intensity == ambient == 1 milli: floor(229 * 1 * 1000 / 1_000_000) == 0.
    assert_eq!((c.r, c.g, c.b), (0, 0, 0));
}

#[test]
fn occluded_point_is_darker_or_equal() {
    // A floor point under the cube is shadowed by the cube's own faces; the
    // same point with no occluders is lit.
    let cubo = Cubo::new(1000, -1500);
    let tris = cube_triangles(&cubo);
    let none: Vec<(Vec3, Vec3, Vec3)> = Vec::new();
    let light = Light::new(v(0, 5000, 0), v(1000, 1000, 1000));
    let base = Color::new(229, 102, 76);
    let point = v(0, -1500, 0);
    let normal = v(0, 1, 0);
    let shadowed = shade_with_shadows(normal, point, &light, base, v(1000, 1000, 1000), 1, &tris);
    let lit = shade_with_shadows(normal, point, &light, base, v(1000, 1000, 1000), 1, &none);
    assert!(shadowed.r <= lit.r && shadowed.g <= lit.g && shadowed.b <= lit.b);
    assert!(shadowed.r < lit.r);
}

#[test]
fn floor_point_under_cube_is_in_shadow_and_beside_it_is_not() {
    let cubo = Cubo::new(1000, -1500);
    let tris = cube_triangles(&cubo);
    let light = v(0, 5000, 0);
    assert!(cubeshade::intersecto_ray::is_in_shadow(v(0, -1500, 0), light, &tris));
    assert!(!cubeshade::intersecto_ray::is_in_shadow(v(3000, -1500, 0), light, &tris));
}
