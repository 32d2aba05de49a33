//! Cyclic assignment of console colors to supervised processes.
//!
//! Policy: the i-th process that receives a color gets the i-th entry of a
//! fixed five-color palette, counting cyclically in launch order. A process
//! keeps its color from launch to exit; nothing ever reassigns it.

use vstd::prelude::*;

verus! {

/// One of the five palette hues a process prefix can be painted with.
#[derive(Clone, Copy, Debug, PartialEq, Eq, Structural)]
pub enum ConsoleColor {
    Green,
    Red,
    Cyan,
    Magenta,
    Yellow,
}

/// The fixed palette, in the order the cyclic assigner walks it.
pub open spec fn palette() -> Seq<ConsoleColor> {
    seq![
        ConsoleColor::Green,
        ConsoleColor::Red,
        ConsoleColor::Cyan,
        ConsoleColor::Magenta,
        ConsoleColor::Yellow,
    ]
}

/// Hands out palette entries cyclically, one per launched process.
pub struct ColorAssigner {
    next: usize,
}

impl ColorAssigner {
    /// Index into the palette that the next assignment will use.
    pub closed spec fn next_index(&self) -> nat {
        self.next as nat
    }

    /// The assigner only ever points at a real palette entry.
    pub open spec fn wf(&self) -> bool {
        self.next_index() < 5
    }

    /// A fresh assigner starts at the first palette entry.
    pub fn new() -> (r: ColorAssigner)
        ensures
            r.wf(),
            r.next_index() == 0,
    {
        ColorAssigner { next: 0 }
    }

    /// Hand out the current palette entry and advance cyclically.
    pub fn assign(&mut self) -> (c: ConsoleColor)
        requires
            old(self).wf(),
        ensures
            final(self).wf(),
            c == palette()[old(self).next_index() as int],
            final(self).next_index() == (old(self).next_index() + 1) % 5,
    {
        let c = match self.next {
            0 => ConsoleColor::Green,
            1 => ConsoleColor::Red,
            2 => ConsoleColor::Cyan,
            3 => ConsoleColor::Magenta,
            _ => ConsoleColor::Yellow,
        };
        self.next = (self.next + 1) % 5;
        c
    }
}

} // verus!
