//! A verified core for a small 3D viewer: a cube on a floor plane, one point
//! light, orbit camera, flat per-triangle shading and ray-traced hard shadows.
//!
//! All geometry is carried in fixed-point milli-units (1 unit = 1/1000 of a
//! world unit), so every computation here is exact integer arithmetic and the
//! geometric statements (intersection, occlusion, projection) are proved
//! without floating point. The unverified front end converts to the drawing
//! backend's floating-point types at the very edge.

pub mod colores;
pub mod controles;
pub mod cubo;
pub mod escena;
pub mod intersecto_ray;
pub mod light;
pub mod numeric;
pub mod piso;
pub mod vec3;
