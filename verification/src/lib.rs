//! A rotating wireframe lattice, the "waffle", drawn as coloured characters.
//!
//! The crate holds the geometry and the rasteriser: the lattice of points,
//! the rotation applied to it each frame, the projection onto a grid of
//! character cells with a nearest-point rule, the colour policies and the
//! motion profiles.
//!
//! All arithmetic is fixed-point, in millionths, and every function is
//! verified against a contract. The library holds no floating-point number
//! and evaluates no sine, cosine or arc tangent: where it needs one, it
//! asks a function that its caller supplies. It does no input or output
//! either. A frame is a value; drawing it is the caller's part.

pub mod animation;
pub mod benchmark;
pub mod color;
pub mod fixed;
pub mod renderer;
pub mod terminal;
pub mod text;
pub mod waffle;

// Re-export common types for easier access
pub use animation::Animation;
pub use renderer::{ColorMode, Renderer};
pub use terminal::Terminal;
pub use waffle::{Size, Waffle};
