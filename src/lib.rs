//! A small framebuffer renderer: a grid of 4-byte pixels filled with a
//! procedural gradient once per frame, a mapping from centre-origin, y-up
//! scene coordinates to top-left-origin buffer cells, and a pacer that caps
//! rendering to a minimum interval between frames however often redraws are
//! requested.
use vstd::prelude::*;

pub mod buffer;
pub mod camera;
pub mod mapper;
pub mod pacing;
pub mod render;

verus! {

} // verus!
