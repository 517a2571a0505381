//! The discrete core of a small sphere ray tracer: colours and materials,
//! the rule that picks which root of the ray-sphere quadratic is the hit,
//! the hard-shadow rule, and the rule for which object shows at a pixel.
//!
//! Everything here works on integers and booleans. The real-valued geometry
//! (vectors, roots, cosines) is computed by the caller, who hands this crate
//! the comparisons and rounded products that the rules are stated over.

pub mod color;
pub mod intersection;
pub mod material;
pub mod paint;
pub mod shadow;

pub use color::Color;
pub use intersection::{select_root, Root};
pub use material::Material;
pub use paint::last_hit;
pub use shadow::shadowed;
