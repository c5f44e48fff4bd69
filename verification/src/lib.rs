//! Renders a 3D mesh as a character-grid image.
//!
//! The crate owns the render context: output-grid sizing, the per-frame
//! buffer lifecycle, the auto-fit camera transform that maps model-space
//! geometry onto screen cells, and the serialization of a finished frame
//! into plain text, a styled terminal stream, or markup. Scalars are held
//! in 16.16 fixed point so every computation is exact and verified; the
//! mesh loader, the rasterizer and the terminal itself live outside.

pub mod context;
pub mod mat4;
pub mod output;

