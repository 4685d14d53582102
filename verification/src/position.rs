use vstd::prelude::*;

verus! {

/// A pair of zero-based coordinates. Used both for the cursor (x = column,
/// y = row) and for the viewport size (x = width, y = height).
#[derive(Debug, Clone, Copy, PartialEq, Eq, Structural)]
pub struct Position {
    pub x: usize,
    pub y: usize,
}

impl Position {
    pub fn new() -> (p: Position)
        ensures
            p.x == 0,
            p.y == 0,
    {
        Position { x: 0, y: 0 }
    }

    pub fn set_pos(&mut self, x: usize, y: usize)
        ensures
            final(self).x == x,
            final(self).y == y,
    {
        self.x = x;
        self.y = y;
    }
}

} // verus!
