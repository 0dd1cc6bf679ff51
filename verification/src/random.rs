//! The randomness capability handed to the combat resolver and the attribute
//! randomizer.  Battles and stat rolls take it explicitly, so a scripted
//! source makes them reproducible while the system source gives real play
//! its uniform draws.

use vstd::prelude::*;

verus! {

/// Relies on rand::random_range: a uniform draw from the non-empty range
/// `0..bound` lies strictly below `bound`.
#[verifier::external_body]
fn system_draw_below(bound: u64) -> (r: u64)
    requires
        1 <= bound,
    ensures
        r < bound,
{
    rand::random_range(0..bound)
}

/// A source of uniform draws: the process-wide generator, or a scripted
/// cycle of draws for reproducible battles.
pub enum RandomSource {
    System,
    Scripted { draws: Vec<u64>, next: usize },
}

impl RandomSource {
    /// What one draw does: the system source stays the system source and
    /// promises nothing of its value beyond the range; a scripted source
    /// yields its next entry reduced into range and advances around its cycle.
    pub open spec fn drew(pre: RandomSource, bound: u64, r: u64, post: RandomSource) -> bool {
        match pre {
            RandomSource::System => post is System,
            RandomSource::Scripted { draws, next } => {
                if draws@.len() == 0 {
                    r == 0 && post == pre
                } else {
                    let i = (next as int) % (draws@.len() as int);
                    &&& r == draws@[i] % bound
                    &&& post matches RandomSource::Scripted { draws: d, next: n }
                        && d@ == draws@
                        && n as int == (i + 1) % (draws@.len() as int)
                }
            },
        }
    }

    /// Draw a value in `0..bound`.  A scripted source takes the next entry
    /// of its cycle, reduced into range; an empty script always yields zero.
    pub fn next_below(&mut self, bound: u64) -> (r: u64)
        requires
            1 <= bound,
        ensures
            r < bound,
            Self::drew(*old(self), bound, r, *final(self)),
    {
        match self {
            RandomSource::System => system_draw_below(bound),
            RandomSource::Scripted { draws, next } => {
                if draws.len() == 0 {
                    0
                } else {
                    let i: usize = *next % draws.len();
                    let v: u64 = draws[i];
                    *next = (i + 1) % draws.len();
                    v % bound
                }
            },
        }
    }

    /// Draw a value in `lo..hi`.
    pub fn draw_range(&mut self, lo: u64, hi: u64) -> (r: u64)
        requires
            lo < hi,
        ensures
            lo <= r < hi,
            Self::drew(*old(self), (hi - lo) as u64, (r - lo) as u64, *final(self)),
    {
        lo + self.next_below(hi - lo)
    }
}

} // verus!
