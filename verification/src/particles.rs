//! Structure-of-arrays particle storage: four parallel columns of one
//! length, positions `x`/`y` and force accumulators `fx`/`fy`. Index `i`
//! names particle `i` in all four columns; particles are never inserted or
//! removed once the set is built.

use vstd::prelude::*;

verus! {

/// A fixed-size particle set. The well-formedness invariant is that all four
/// columns share one length.
pub struct ParticleSet {
    pub x: Vec<i64>,
    pub y: Vec<i64>,
    pub fx: Vec<i64>,
    pub fy: Vec<i64>,
}

/// A column of `n` zeros.
fn zero_column(n: usize) -> (v: Vec<i64>)
    ensures
        v@.len() == n,
        forall|i: int| 0 <= i < n ==> v@[i] == 0i64,
{
    let mut v: Vec<i64> = Vec::new();
    let mut k: usize = 0;
    while k < n
        invariant
            k <= n,
            v@.len() == k,
            forall|i: int| 0 <= i < k ==> v@[i] == 0i64,
        decreases n - k,
    {
        v.push(0);
        k = k + 1;
    }
    v
}

impl ParticleSet {
    /// All four columns share one length.
    pub open spec fn wf(self) -> bool {
        self.y@.len() == self.x@.len() && self.fx@.len() == self.x@.len() && self.fy@.len()
            == self.x@.len()
    }

    /// The number of particles in the set.
    pub open spec fn len(self) -> nat {
        self.x@.len()
    }

    /// A set of `n` particles, every position and every accumulator zero.
    pub fn new(n: usize) -> (s: ParticleSet)
        ensures
            s.wf(),
            s.len() == n,
            forall|i: int| 0 <= i < n ==> s.x@[i] == 0i64 && s.y@[i] == 0i64,
            forall|i: int| 0 <= i < n ==> s.fx@[i] == 0i64 && s.fy@[i] == 0i64,
    {
        ParticleSet {
            x: zero_column(n),
            y: zero_column(n),
            fx: zero_column(n),
            fy: zero_column(n),
        }
    }

    /// Clear both force accumulators of every particle; positions are left
    /// untouched. A driver that wants per-step forces calls this once per
    /// time step before accumulating.
    pub fn reset_forces(&mut self)
        requires
            old(self).wf(),
        ensures
            final(self).wf(),
            final(self).len() == old(self).len(),
            final(self).x == old(self).x,
            final(self).y == old(self).y,
            forall|i: int| 0 <= i < old(self).len() ==> final(self).fx@[i] == 0i64
                && final(self).fy@[i] == 0i64,
    {
        let n: usize = self.x.len();
        self.fx = zero_column(n);
        self.fy = zero_column(n);
    }
}

} // verus!
