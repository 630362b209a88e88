//! Ray-triangle intersection and shadow-occlusion behavior on concrete
//! fixed-point scenes (coordinates in milli-units).

use cubeshade::intersecto_ray::{is_in_shadow, ray_triangle_intersect, Ray};
use cubeshade::vec3::Vec3;

fn v(x: i64, y: i64, z: i64) -> Vec3 {
    Vec3 { x, y, z }
}

/// A triangle spanning the plane z = 2000 around the z axis.
fn front_triangle(dx: i64) -> (Vec3, Vec3, Vec3) {
    (
        v(-1000 + dx, -1000, 2000),
        v(3000 + dx, -1000, 2000),
        v(-1000 + dx, 3000, 2000),
    )
}

#[test]
fn ray_hits_triangle_interior_with_exact_parameter() {
    let ray = Ray::new(v(0, 0, 0), v(0, 0, 1000));
    let (v0, v1, v2) = front_triangle(0);
    let hit = ray_triangle_intersect(&ray, v0, v1, v2).expect("ray crosses the interior");
    // The plane lies two direction-lengths away: t == num/den == 2 exactly.
    assert!(hit.den > 0);
    assert_eq!(hit.num, 2 * hit.den);
}

#[test]
fn ray_misses_translated_triangle() {
    let ray = Ray::new(v(0, 0, 0), v(0, 0, 1000));
    let (v0, v1, v2) = front_triangle(10_000);
    assert!(ray_triangle_intersect(&ray, v0, v1, v2).is_none());
}

#[test]
fn hit_behind_origin_is_rejected() {
    let ray = Ray::new(v(0, 0, 5000), v(0, 0, 1000));
    let (v0, v1, v2) = front_triangle(0);
    assert!(ray_triangle_intersect(&ray, v0, v1, v2).is_none());
}

#[test]
fn parallel_ray_never_hits() {
    // Direction within the triangle's plane (z constant), several origins.
    let (v0, v1, v2) = front_triangle(0);
    for &origin in &[v(0, 0, 0), v(0, 0, 2000), v(500, 700, 1999)] {
        let ray = Ray::new(origin, v(1000, 0, 0));
        assert!(ray_triangle_intersect(&ray, v0, v1, v2).is_none());
        let ray2 = Ray::new(origin, v(300, -800, 0));
        assert!(ray_triangle_intersect(&ray2, v0, v1, v2).is_none());
    }
}

#[test]
fn no_occluders_means_no_shadow() {
    let empty: Vec<(Vec3, Vec3, Vec3)> = Vec::new();
    assert!(!is_in_shadow(v(0, 0, 0), v(0, 5000, 0), &empty));
    assert!(!is_in_shadow(v(-900, 100, 20), v(4000, 6000, 2000), &empty));
}

#[test]
fn triangle_between_point_and_light_occludes() {
    let point = v(0, 0, 0);
    let light = v(0, 0, 4000);
    let blocker = vec![front_triangle(0)];
    assert!(is_in_shadow(point, light, &blocker));
    let moved_aside = vec![front_triangle(10_000)];
    assert!(!is_in_shadow(point, light, &moved_aside));
}

#[test]
fn triangle_beyond_the_light_does_not_occlude() {
    let point = v(0, 0, 0);
    // Light closer than the plane z = 2000: the blocker sits past it.
    let light = v(0, 0, 1000);
    let blocker = vec![front_triangle(0)];
    assert!(!is_in_shadow(point, light, &blocker));
}
