//! A CPU ray-tracing engine in exact fixed-point arithmetic.
//!
//! Every scalar is an `i64` count of micro-units (see [`fx`]), so the whole
//! intersection, shading and composition pipeline is integer computation
//! with stated, machine-checked contracts: transform algebra and cofactor
//! inversion, ray-solid intersection for five canonical solids, the
//! intersection-list and hit-selection protocol, pattern evaluation, the
//! refractive-index container stack and the depth-bounded recursive color
//! computation with reflection, refraction and Schlick blending.
pub mod fx;
pub mod tuples;
pub mod matrices;
pub mod ray;
pub mod lights;
pub mod patterns;
pub mod materials;
pub mod shape;
pub mod intersections;
pub mod render;
pub mod world;
pub mod utils;
pub mod environment;
pub mod projectile;

pub use fx::EPSILON;
pub use fx::SCALE;
pub use tuples::Tuples;
pub use matrices::Matrix;
pub use ray::Ray;
pub use lights::PointLight;
pub use patterns::Pattern;
pub use materials::Material;
pub use shape::Shape;
pub use intersections::Intersection;
pub use intersections::IntersectionList;
pub use intersections::Computations;
pub use world::World;
pub use environment::Environment;
pub use projectile::Projectile;
