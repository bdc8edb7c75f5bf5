//! A cube font for printable ASCII, the layout that places its cells in space, and the
//! integer side of the demos built on it: a character cycler and pie slice meshes.

pub mod chart;
pub mod cycler;
pub mod font;
pub mod geometry;
pub mod glyph_table;
pub mod layout;

pub use font::{CubePos, Glyph, TinyFont};
pub use geometry::{Axis, IVec3, Orientation, Scale3};
pub use layout::{CubeSize, Placement, PlannedCell, TinyText};
