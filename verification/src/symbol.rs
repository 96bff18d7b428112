//! The closed set of symbols a keypad scan can report: the sixteen keys of
//! the 4x4 matrix, or `NoKey` when no column reads high during a whole scan.

use vstd::prelude::*;

verus! {

/// One keypad symbol, or `NoKey` for a scan cycle in which nothing was
/// pressed. Returned by value so a scan is a pure function of sampled bits.
#[derive(Clone, Copy, Debug, PartialEq, Eq, Structural)]
pub enum Symbol {
    Digit0,
    Digit1,
    Digit2,
    Digit3,
    Digit4,
    Digit5,
    Digit6,
    Digit7,
    Digit8,
    Digit9,
    KeyA,
    KeyB,
    KeyC,
    KeyD,
    Star,
    Hash,
    NoKey,
}

impl Symbol {
    /// A code symbol is one that may become part of a code: a digit or one
    /// of the letters, never `*`, `#` or the absence of a key.
    pub open spec fn is_code(self) -> bool {
        !(self == Symbol::Star || self == Symbol::Hash || self == Symbol::NoKey)
    }

    /// The character this symbol is displayed as; `NoKey` has no glyph and
    /// maps to a blank.
    pub open spec fn char_of(self) -> char {
        match self {
            Symbol::Digit0 => '0',
            Symbol::Digit1 => '1',
            Symbol::Digit2 => '2',
            Symbol::Digit3 => '3',
            Symbol::Digit4 => '4',
            Symbol::Digit5 => '5',
            Symbol::Digit6 => '6',
            Symbol::Digit7 => '7',
            Symbol::Digit8 => '8',
            Symbol::Digit9 => '9',
            Symbol::KeyA => 'A',
            Symbol::KeyB => 'B',
            Symbol::KeyC => 'C',
            Symbol::KeyD => 'D',
            Symbol::Star => '*',
            Symbol::Hash => '#',
            Symbol::NoKey => ' ',
        }
    }

    /// Runtime test for [`Symbol::is_code`].
    pub fn is_code_symbol(&self) -> (r: bool)
        ensures
            r == self.is_code(),
    {
        !(*self == Symbol::Star || *self == Symbol::Hash || *self == Symbol::NoKey)
    }

    /// The one-character text of this symbol, as shown on the display.
    pub fn glyph(&self) -> (r: &'static str)
        ensures
            r@ == seq![self.char_of()],
    {
        match self {
            Symbol::Digit0 => {
                proof {
                    reveal_strlit("0");
                    assert("0"@ =~= seq!['0']);
                }
                "0"
            },
            Symbol::Digit1 => {
                proof {
                    reveal_strlit("1");
                    assert("1"@ =~= seq!['1']);
                }
                "1"
            },
            Symbol::Digit2 => {
                proof {
                    reveal_strlit("2");
                    assert("2"@ =~= seq!['2']);
                }
                "2"
            },
            Symbol::Digit3 => {
                proof {
                    reveal_strlit("3");
                    assert("3"@ =~= seq!['3']);
                }
                "3"
            },
            Symbol::Digit4 => {
                proof {
                    reveal_strlit("4");
                    assert("4"@ =~= seq!['4']);
                }
                "4"
            },
            Symbol::Digit5 => {
                proof {
                    reveal_strlit("5");
                    assert("5"@ =~= seq!['5']);
                }
                "5"
            },
            Symbol::Digit6 => {
                proof {
                    reveal_strlit("6");
                    assert("6"@ =~= seq!['6']);
                }
                "6"
            },
            Symbol::Digit7 => {
                proof {
                    reveal_strlit("7");
                    assert("7"@ =~= seq!['7']);
                }
                "7"
            },
            Symbol::Digit8 => {
                proof {
                    reveal_strlit("8");
                    assert("8"@ =~= seq!['8']);
                }
                "8"
            },
            Symbol::Digit9 => {
                proof {
                    reveal_strlit("9");
                    assert("9"@ =~= seq!['9']);
                }
                "9"
            },
            Symbol::KeyA => {
                proof {
                    reveal_strlit("A");
                    assert("A"@ =~= seq!['A']);
                }
                "A"
            },
            Symbol::KeyB => {
                proof {
                    reveal_strlit("B");
                    assert("B"@ =~= seq!['B']);
                }
                "B"
            },
            Symbol::KeyC => {
                proof {
                    reveal_strlit("C");
                    assert("C"@ =~= seq!['C']);
                }
                "C"
            },
            Symbol::KeyD => {
                proof {
                    reveal_strlit("D");
                    assert("D"@ =~= seq!['D']);
                }
                "D"
            },
            Symbol::Star => {
                proof {
                    reveal_strlit("*");
                    assert("*"@ =~= seq!['*']);
                }
                "*"
            },
            Symbol::Hash => {
                proof {
                    reveal_strlit("#");
                    assert("#"@ =~= seq!['#']);
                }
                "#"
            },
            Symbol::NoKey => {
                proof {
                    reveal_strlit(" ");
                    assert(" "@ =~= seq![' ']);
                }
                " "
            },
        }
    }
}

} // verus!
