use vstd::prelude::*;

verus! {

/// A position in the three-dimensional scene.
#[derive(Clone, Copy, Debug, PartialEq, Eq, Structural)]
pub struct TPosition {
    pub x: i32,
    pub y: i32,
    pub z: i32,
}

/// Scene camera data. It is carried alongside the renderer but nothing reads it yet.
#[derive(Clone, Copy, Debug, PartialEq, Eq, Structural)]
pub struct Camera {
    pub position: TPosition,
    pub perspective: TPosition,
}

impl Camera {
    /// A camera at `position`. The perspective starts out equal to the
    /// position; the second argument is accepted and not read.
    pub fn new(position: [i32; 3], _perspective: [i32; 3]) -> (r: Camera)
        ensures
            r.position == (TPosition { x: position@[0], y: position@[1], z: position@[2] }),
            r.perspective == r.position,
    {
        Camera {
            position: TPosition { x: position[0], y: position[1], z: position[2] },
            perspective: TPosition { x: position[0], y: position[1], z: position[2] },
        }
    }
}

} // verus!
