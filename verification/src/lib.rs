//! Spatial layout and mesh-generation core of a 2D tile-world editor.
//!
//! A dense grid of optional occupants (`layout`) is mutated by editor tools
//! (`tools`), and every rebuild walks the grid to synthesize a flat vertex
//! buffer per occupant kind (`zone`, `cell`). All vertex attributes produced
//! here are exact small integers (positions are multiples of the cell render
//! size, UVs are 0 or 1, colors are 8-bit channels, border masks are 0..=15);
//! the rendering front end converts them to the graphics device's float
//! format at the upload boundary.

pub mod layout;
pub mod cell;
pub mod grid;
pub mod tools;
pub mod zone;
