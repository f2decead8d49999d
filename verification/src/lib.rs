//! A Monte-Carlo path tracer over fixed-point arithmetic.
//!
//! The renderer traces rays through a scene of spheres, scatters them at
//! Lambertian, metallic and dielectric surfaces, and resolves escaped rays
//! against a vertical sky gradient. Every scalar is a fixed-point number
//! (`fixed::Fx`), so each stage carries an exact integer-level contract.
pub mod camera;
pub mod fixed;
pub mod hittable;
pub mod material;
pub mod ray;
pub mod render;
pub mod rng;
pub mod sphere;
pub mod vec3;
