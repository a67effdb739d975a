//! The character cursor: an ordered sequence of characters that supports
//! peeking at the next pending character without consuming it, and consuming
//! it. The lexer borrows it for one scan and leaves it positioned exactly
//! after the last character it consumed.

use vstd::prelude::*;

verus! {

/// A peek/consume cursor over a fixed sequence of characters.
pub struct Cursor {
    chars: Vec<char>,
    pos: usize,
}

impl Cursor {
    /// The cursor never stands past the end of its characters.
    pub closed spec fn wf(&self) -> bool {
        self.pos <= self.chars@.len()
    }

    /// The characters not yet consumed, in order.
    pub closed spec fn remaining(&self) -> Seq<char> {
        self.chars@.skip(self.pos as int)
    }

    /// A fresh cursor standing before the first character.
    pub fn new(chars: Vec<char>) -> (c: Cursor)
        ensures
            c.wf(),
            c.remaining() == chars@,
    {
        let c = Cursor { chars, pos: 0 };
        proof {
            assert(c.remaining() =~= c.chars@);
        }
        c
    }

    /// The next pending character, not consumed; `None` when the input is
    /// exhausted.
    pub fn peek(&self) -> (r: Option<char>)
        requires
            self.wf(),
        ensures
            match r {
                Some(c) => self.remaining().len() > 0 && c == self.remaining()[0],
                None => self.remaining().len() == 0,
            },
    {
        if self.pos < self.chars.len() {
            Some(self.chars[self.pos])
        } else {
            None
        }
    }

    /// Consume the next pending character.
    pub fn consume(&mut self)
        requires
            old(self).wf(),
            old(self).remaining().len() > 0,
        ensures
            final(self).wf(),
            final(self).remaining() == old(self).remaining().skip(1),
    {
        let n = self.chars.len();
        proof {
            assert(self.remaining().len() == self.chars@.len() - self.pos);
            assert(self.pos < n);
        }
        self.pos = self.pos + 1;
        proof {
            assert(self.remaining() =~= old(self).remaining().skip(1));
        }
    }

    /// How many characters are still pending.
    pub fn remaining_len(&self) -> (n: usize)
        requires
            self.wf(),
        ensures
            n == self.remaining().len(),
    {
        self.chars.len() - self.pos
    }
}

} // verus!
