use vstd::prelude::*;

verus! {

/// One line-list vertex: a position and a colour.
///
/// Positions are integer lattice coordinates; the geometry in this crate
/// lies on an integer lattice, and the host scales positions to world units
/// when it uploads them.  Colour channels are given in hundredths of full
/// intensity (0 = black, 100 = full), so every colour this crate uses is
/// exact.
#[derive(Clone, Copy, Debug, PartialEq, Eq)]
pub struct Vertex {
    pub pos: (i64, i64, i64),
    pub color: (u8, u8, u8),
}

impl Vertex {
    pub fn new(pos: (i64, i64, i64), color: (u8, u8, u8)) -> (v: Vertex)
        ensures
            v == (Vertex { pos, color }),
    {
        Vertex { pos, color }
    }
}

} // verus!
