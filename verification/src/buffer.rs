//! Fixed-capacity, append-only code buffer. A buffer holds at most eight
//! symbols; appends beyond that are silently dropped, and the only other
//! mutation is an explicit reset to empty.

use vstd::prelude::*;

use crate::symbol::Symbol;

verus! {

/// Most symbols a code buffer can hold.
pub const CODE_CAPACITY: usize = 8;

/// Classification of a code length: a code must hold at least four symbols
/// to be submitted, and the buffer never grows past eight. Lengths above
/// eight are unreachable in a committed buffer but the classification is
/// total so transient states can be named.
#[derive(Clone, Copy, Debug, PartialEq, Eq, Structural)]
pub enum CodeValidity {
    TooShort,
    Proper,
    TooLong,
}

/// How a code of the given length is classified.
pub open spec fn code_validity(len: nat) -> CodeValidity {
    if len < 4 {
        CodeValidity::TooShort
    } else if len <= 8 {
        CodeValidity::Proper
    } else {
        CodeValidity::TooLong
    }
}

/// What an append leaves in a buffer: the symbol goes at the end unless the
/// buffer is already at capacity, in which case nothing changes.
pub open spec fn appended(s: Seq<Symbol>, sym: Symbol) -> Seq<Symbol> {
    if s.len() < 8 {
        s.push(sym)
    } else {
        s
    }
}

/// The text a sequence of symbols is displayed as, one glyph per symbol.
pub open spec fn text_of(s: Seq<Symbol>) -> Seq<char>
    decreases s.len(),
{
    if s.len() == 0 {
        Seq::empty()
    } else {
        text_of(s.drop_last()).push(s.last().char_of())
    }
}

/// An in-progress or committed code: an ordered sequence of symbols with
/// capacity [`CODE_CAPACITY`], backed by owned storage that is created once
/// and reused through [`CodeBuffer::reset`].
pub struct CodeBuffer {
    symbols: Vec<Symbol>,
}

impl View for CodeBuffer {
    type V = Seq<Symbol>;

    closed spec fn view(&self) -> Seq<Symbol> {
        self.symbols@
    }
}

impl CodeBuffer {
    /// The capacity bound every operation preserves.
    pub open spec fn wf(&self) -> bool {
        self@.len() <= 8
    }

    /// An empty buffer.
    pub fn new() -> (r: CodeBuffer)
        ensures
            r@ == Seq::<Symbol>::empty(),
            r.wf(),
    {
        CodeBuffer { symbols: Vec::new() }
    }

    /// How many symbols the buffer currently holds.
    pub fn len(&self) -> (n: usize)
        ensures
            n == self@.len(),
    {
        self.symbols.len()
    }

    /// Appends one symbol; a full buffer is left unchanged, never an error.
    pub fn append(&mut self, sym: Symbol)
        requires
            old(self).wf(),
        ensures
            final(self)@ == appended(old(self)@, sym),
            final(self).wf(),
    {
        if self.symbols.len() < CODE_CAPACITY {
            self.symbols.push(sym);
        }
    }

    /// Empties the buffer; the storage itself is kept for reuse.
    pub fn reset(&mut self)
        ensures
            final(self)@ == Seq::<Symbol>::empty(),
            final(self).wf(),
    {
        self.symbols.clear();
    }

    /// Classification of the current length.
    pub fn validity(&self) -> (v: CodeValidity)
        ensures
            v == code_validity(self@.len()),
    {
        let n = self.symbols.len();
        if n < 4 {
            CodeValidity::TooShort
        } else if n <= CODE_CAPACITY {
            CodeValidity::Proper
        } else {
            CodeValidity::TooLong
        }
    }

    /// Length-then-elementwise comparison of two buffers.
    pub fn equals(&self, other: &CodeBuffer) -> (r: bool)
        ensures
            r == (self@ == other@),
    {
        if self.symbols.len() != other.symbols.len() {
            return false;
        }
        let mut i: usize = 0;
        while i < self.symbols.len()
            invariant
                self@.len() == other@.len(),
                i <= self@.len(),
                forall|j: int| 0 <= j < i ==> self@[j] == other@[j],
            decreases self@.len() - i,
        {
            if self.symbols[i] != other.symbols[i] {
                return false;
            }
            i = i + 1;
        }
        proof {
            assert(self@ =~= other@);
        }
        true
    }

    /// Makes this buffer hold the same symbols as `other`.
    pub fn copy_from(&mut self, other: &CodeBuffer)
        ensures
            final(self)@ == other@,
    {
        self.symbols.clear();
        let mut i: usize = 0;
        while i < other.symbols.len()
            invariant
                i <= other@.len(),
                self@ == other@.take(i as int),
            decreases other@.len() - i,
        {
            self.symbols.push(other.symbols[i]);
            proof {
                assert(other@.take(i as int).push(other@[i as int]) =~= other@.take(
                    i as int + 1,
                ));
            }
            i = i + 1;
        }
        proof {
            assert(other@.take(other@.len() as int) =~= other@);
        }
    }

    /// The buffer's content as display text, one character per symbol.
    pub fn as_text(&self) -> (r: String)
        ensures
            r@ == text_of(self@),
    {
        let mut out = String::new();
        proof {
            assert(self@.take(0) =~= Seq::<Symbol>::empty());
        }
        let mut i: usize = 0;
        while i < self.symbols.len()
            invariant
                i <= self@.len(),
                out@ == text_of(self@.take(i as int)),
            decreases self@.len() - i,
        {
            let g = self.symbols[i].glyph();
            out.append(g);
            proof {
                let pre = self@.take(i as int);
                let post = self@.take(i as int + 1);
                assert(post.drop_last() =~= pre);
                assert(text_of(pre).push(self@[i as int].char_of()) =~= text_of(pre) + seq![
                    self@[i as int].char_of(),
                ]);
            }
            i = i + 1;
        }
        proof {
            assert(self@.take(self@.len() as int) =~= self@);
        }
        out
    }
}

} // verus!
