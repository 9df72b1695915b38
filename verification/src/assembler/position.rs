//! Line and column of a place in the source.

use vstd::prelude::*;

verus! {

/// A place in the source: a line, counted from 1, and a column in it.
///
/// A line break belongs to the line it opens, at column 0.
#[derive(Debug, Clone, Copy, PartialEq, Eq, Structural)]
pub struct Rpos {
    pub ln: usize,
    pub col: usize,
}

/// The place `p` moved over `ch`: to column 0 of the next line for a line
/// break, one column on for any other character, nowhere for none.
pub open spec fn advance_spec(p: Rpos, ch: Option<char>) -> Rpos {
    match ch {
        None => p,
        Some(c) => if c == '\n' {
            Rpos { ln: (p.ln + 1) as usize, col: 0 }
        } else {
            Rpos { ln: p.ln, col: (p.col + 1) as usize }
        },
    }
}

/// The place of the character at index `k` of `src`, by the convention that
/// the first character stands at line 1, column 0. Past the last character
/// it is the place of the last one.
pub open spec fn rpos_at(src: Seq<char>, k: int) -> Rpos
    decreases k,
{
    if k <= 0 {
        Rpos { ln: 1, col: 0 }
    } else if k < src.len() {
        advance_spec(rpos_at(src, k - 1), Some(src[k]))
    } else {
        rpos_at(src, k - 1)
    }
}

/// A place never runs ahead of the characters passed.
pub proof fn lemma_rpos_bounded(src: Seq<char>, k: int)
    requires
        0 <= k,
        src.len() <= usize::MAX,
    ensures
        rpos_at(src, k).ln <= k + 1,
        rpos_at(src, k).ln <= src.len() + 1,
        rpos_at(src, k).ln <= src.len() || src.len() == 0,
        rpos_at(src, k).col <= k,
        rpos_at(src, k).col < src.len() || src.len() == 0,
    decreases k,
{
    if k > 0 {
        lemma_rpos_bounded(src, k - 1);
    }
}

impl Rpos {
    /// The place of the first character: line 1, column 0.
    pub fn new() -> (p: Rpos)
        ensures
            p == (Rpos { ln: 1, col: 0 }),
    {
        Rpos { ln: 1, col: 0 }
    }

    /// Moves over `ch`.
    pub fn advance(&mut self, ch: Option<char>)
        requires
            ch == Some('\n') ==> old(self).ln < usize::MAX,
            ch is Some && ch != Some('\n') ==> old(self).col < usize::MAX,
        ensures
            *final(self) == advance_spec(*old(self), ch),
    {
        if let Some(c) = ch {
            if c == '\n' {
                self.ln += 1;
                self.col = 0;
            } else {
                self.col += 1;
            }
        }
    }
}

} // verus!
