//! Decision core of a small ray tracer: the order in which pixels are
//! produced, which surface a ray meets first, how a sphere intersection picks
//! its root, how each material chooses what to do with a ray, when a light
//! path stops bouncing, and the bytes of the plain-text pixel file.
pub mod scan;
pub mod sphere;
pub mod material;
pub mod ppm;
pub mod trace;
pub mod world;
