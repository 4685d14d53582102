//! A small front-popping character stack.

use vstd::prelude::*;

verus! {

/// A stack of characters, front at index 0.
pub struct Stack {
    pub list: Vec<char>,
}

impl Stack {
    pub fn is_empty(&self) -> (r: bool)
        ensures
            r == (self.list@.len() == 0),
    {
        self.list.len() == 0
    }

    /// Discards the front character and returns the one after it, or
    /// `'\0'` when the stack is empty. A stack of exactly one character
    /// has no such second character, so that case is excluded.
    pub fn pop(&mut self) -> (c: char)
        requires
            old(self).list@.len() != 1,
        ensures
            old(self).list@.len() == 0 ==> c == '\0' && final(self).list == old(self).list,
            old(self).list@.len() >= 2 ==> c == old(self).list@[1] && final(self).list@ == old(
                self,
            ).list@.skip(2),
    {
        if self.list.len() == 0 {
            '\0'
        } else {
            self.list.remove(0);
            let c = self.list.remove(0);
            proof {
                assert(self.list@ =~= old(self).list@.skip(2));
            }
            c
        }
    }
}

} // verus!
