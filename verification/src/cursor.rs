//! A mutable, forward-only cursor over a sequence of `u64` words.
//!
//! Decoding consumes words from the front of the remaining sequence; the
//! cursor records how far it has advanced and never moves backwards.

use vstd::prelude::*;

verus! {

/// A forward-only read cursor over an owned sequence of `u64` words.
pub struct WordCursor {
    words: Vec<u64>,
    pos: usize,
}

impl WordCursor {
    /// The cursor position never runs past the end of the word sequence.
    pub closed spec fn wf(&self) -> bool {
        self.pos <= self.words@.len()
    }

    /// The words not yet consumed, in order.
    pub closed spec fn remaining(&self) -> Seq<u64> {
        self.words@.skip(self.pos as int)
    }

    /// How many words have been consumed so far.
    pub closed spec fn position(&self) -> int {
        self.pos as int
    }

    /// A fresh cursor positioned at the start of `words`.
    pub fn new(words: Vec<u64>) -> (r: Self)
        ensures
            r.wf(),
            r.remaining() == words@,
            r.position() == 0,
    {
        let r = WordCursor { words, pos: 0 };
        proof {
            assert(r.remaining() =~= r.words@);
        }
        r
    }

    /// Consumes and returns the next word.
    pub fn next(&mut self) -> (r: u64)
        requires
            old(self).wf(),
            old(self).remaining().len() > 0,
        ensures
            final(self).wf(),
            r == old(self).remaining()[0],
            final(self).remaining() == old(self).remaining().skip(1),
            final(self).position() == old(self).position() + 1,
    {
        let n: usize = self.words.len();
        let r = self.words[self.pos];
        self.pos = self.pos + 1;
        proof {
            assert(self.remaining() =~= old(self).remaining().skip(1));
        }
        r
    }

    /// Returns the next word without consuming it.
    pub fn peek(&self) -> (r: u64)
        requires
            self.wf(),
            self.remaining().len() > 0,
        ensures
            r == self.remaining()[0],
    {
        self.words[self.pos]
    }

    /// How many words are left to read.
    pub fn remaining_len(&self) -> (n: usize)
        requires
            self.wf(),
        ensures
            n == self.remaining().len(),
    {
        self.words.len() - self.pos
    }

    /// How many words have been consumed so far.
    pub fn consumed(&self) -> (n: usize)
        ensures
            n == self.position(),
    {
        self.pos
    }
}

} // verus!
