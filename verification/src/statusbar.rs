//! The status bar's fixed data: the mode caption and the terminal size it
//! was built for. Painting belongs to the renderer outside the core.

use vstd::prelude::*;

verus! {

pub struct Statusbar {
    mode: Vec<char>,
    terminal_height: usize,
    terminal_width: usize,
}

impl Statusbar {
    /// The mode caption.
    pub closed spec fn mode_view(self) -> Seq<char> {
        self.mode@
    }

    pub closed spec fn height(self) -> usize {
        self.terminal_height
    }

    pub closed spec fn width(self) -> usize {
        self.terminal_width
    }

    pub fn new(mode: Vec<char>, terminal_height: usize, terminal_width: usize) -> (s: Statusbar)
        ensures
            s.mode_view() == mode@,
            s.height() == terminal_height,
            s.width() == terminal_width,
    {
        Statusbar { mode, terminal_height, terminal_width }
    }
}

} // verus!
