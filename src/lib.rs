//! Procedural polygon-row renderer: the mesh generator, exact HSL colours, the
//! renderer's state machine and a batch of indexed 2D shapes, each with a
//! verified contract. The host side (GPU calls, clocks, float conversion)
//! lives outside this crate.

pub mod canvas2d;
pub mod color;
pub mod geometry;
pub mod options;
pub mod renderer;

pub use options::ShapeType;
