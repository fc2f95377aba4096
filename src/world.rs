use vstd::prelude::*;

verus! {

/// Width and height of the world that the simulation starts with.
pub const WORLD_SIDE: u32 = 640;

/// The bounds of the plane: positions are kept in `[0, width] x [0, height]`.
#[derive(Clone, Copy, Debug, PartialEq, Eq, Structural)]
pub struct World {
    width: u32,
    height: u32,
}

impl World {
    pub closed spec fn width_of(self) -> nat {
        self.width as nat
    }

    pub closed spec fn height_of(self) -> nat {
        self.height as nat
    }

    pub fn new(width: u32, height: u32) -> (r: World)
        ensures
            r.width_of() == width,
            r.height_of() == height,
    {
        World { width, height }
    }

    /// The square world of side `WORLD_SIDE`.
    pub fn standard() -> (r: World)
        ensures
            r.width_of() == WORLD_SIDE,
            r.height_of() == WORLD_SIDE,
    {
        World { width: WORLD_SIDE, height: WORLD_SIDE }
    }

    pub fn width(&self) -> (r: u32)
        ensures
            r == self.width_of(),
    {
        self.width
    }

    pub fn height(&self) -> (r: u32)
        ensures
            r == self.height_of(),
    {
        self.height
    }
}

} // verus!
