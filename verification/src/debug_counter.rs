//! A cyclic counter pair for colorized trace output.
//!
//! The counter hands out ANSI color codes and tag characters in a fixed
//! rotation; the sink that prints them is injected by the surrounding
//! application, keeping this type free of process-global state and I/O.

use vstd::prelude::*;

verus! {

/// The ANSI color code at position `i` of the rotation.
pub open spec fn spec_color_code(i: int) -> u8 {
    if i == 0 {
        31
    } else if i == 1 {
        32
    } else if i == 2 {
        33
    } else if i == 3 {
        35
    } else if i == 4 {
        34
    } else if i == 5 {
        36
    } else if i == 6 {
        91
    } else if i == 7 {
        92
    } else if i == 8 {
        93
    } else if i == 9 {
        94
    } else if i == 10 {
        95
    } else {
        96
    }
}

/// The tag byte at position `i` of the rotation: the digits, then the
/// lowercase letters, then the uppercase letters.
pub open spec fn spec_tag_code(i: int) -> u8 {
    if i < 10 {
        (48 + i) as u8
    } else if i < 36 {
        (97 + (i - 10)) as u8
    } else {
        (65 + (i - 36)) as u8
    }
}

/// A pair of cyclic counters: one over twelve ANSI colors, one over the
/// sixty-two alphanumeric tag characters.
pub struct DebugCounter {
    color_count: u8,
    char_count: usize,
}

impl View for DebugCounter {
    type V = (int, int);

    closed spec fn view(&self) -> (int, int) {
        (self.color_count as int, self.char_count as int)
    }
}

impl DebugCounter {
    /// Both counters are inside their rotations.
    pub open spec fn wf(self) -> bool {
        0 <= self@.0 < 12 && 0 <= self@.1 < 62
    }

    /// A counter at the start of both rotations.
    pub fn new() -> (r: Self)
        ensures
            r@ == (0int, 0int),
            r.wf(),
    {
        DebugCounter { color_count: 0, char_count: 0 }
    }

    /// Returns both counters to the start of their rotations.
    pub fn reset(&mut self)
        ensures
            final(self)@ == (0int, 0int),
            final(self).wf(),
    {
        self.color_count = 0;
        self.char_count = 0;
    }

    /// The current ANSI color code; the color counter advances one step
    /// around its rotation.
    pub fn color(&mut self) -> (r: u8)
        requires
            old(self).wf(),
        ensures
            r == spec_color_code(old(self)@.0),
            final(self)@ == ((old(self)@.0 + 1) % 12, old(self)@.1),
            final(self).wf(),
    {
        let code: u8 = match self.color_count {
            0 => 31,
            1 => 32,
            2 => 33,
            3 => 35,
            4 => 34,
            5 => 36,
            6 => 91,
            7 => 92,
            8 => 93,
            9 => 94,
            10 => 95,
            _ => 96,
        };
        self.color_count = (self.color_count + 1) % 12;
        code
    }

    /// The current tag character; the tag counter advances one step around
    /// its rotation.
    pub fn char(&mut self) -> (r: char)
        requires
            old(self).wf(),
        ensures
            r == spec_tag_code(old(self)@.1) as char,
            final(self)@ == (old(self)@.0, (old(self)@.1 + 1) % 62),
            final(self).wf(),
    {
        let i = self.char_count;
        let code: u8 = if i < 10 {
            48 + (i as u8)
        } else if i < 36 {
            97 + (i as u8 - 10)
        } else {
            65 + (i as u8 - 36)
        };
        self.char_count = (self.char_count + 1) % 62;
        code as char
    }
}

} // verus!
