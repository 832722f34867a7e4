//! The mathematical model of the kernel: what one source particle contributes
//! to one destination accumulator, and what a whole source set contributes.

use vstd::prelude::*;
use crate::STIFFNESS;

verus! {

/// The force one source coordinate `q` contributes to a destination at
/// coordinate `p`: a linear repulsion, with no normalization and no cutoff.
pub open spec fn force_term(p: int, q: int) -> int {
    STIFFNESS * (p - q)
}

/// The total force a whole source set contributes to a destination at
/// coordinate `p`: the sum of `force_term(p, src[j])` over every source
/// index `j`.
pub open spec fn accum(p: int, src: Seq<i64>) -> int
    decreases src.len(),
{
    if src.len() == 0 {
        0
    } else {
        accum(p, src.drop_last()) + force_term(p, src.last() as int)
    }
}

/// The running sum for one destination accumulator stays inside `i64` at
/// every step: starting from `f0`, after folding in any prefix of the source
/// set the value is still representable. This is exactly what the machine
/// forces on a kernel that adds the source terms one at a time.
pub open spec fn fits(f0: int, p: int, src: Seq<i64>) -> bool {
    forall|k: int| 0 <= k <= src.len() ==> i64::MIN <= f0 + #[trigger] accum(p, src.take(k)) <= i64::MAX
}

/// `fits` holds row by row: destination `i` starts from accumulator `fs[i]`
/// at position `ps[i]`.
pub open spec fn rows_fit(fs: Seq<i64>, ps: Seq<i64>, src: Seq<i64>) -> bool {
    forall|i: int| 0 <= i < fs.len() ==> fits(fs[i] as int, ps[i] as int, src)
}

/// Folding in one more source term extends the prefix sum by that term.
pub proof fn lemma_accum_take_step(p: int, src: Seq<i64>, k: int)
    requires
        0 <= k < src.len(),
    ensures
        accum(p, src.take(k + 1)) == accum(p, src.take(k)) + force_term(p, src[k] as int),
{
    assert(src.take(k + 1).drop_last() =~= src.take(k));
    assert(src.take(k + 1).last() == src[k]);
}

/// The prefix sum over the whole source set is the total sum.
pub proof fn lemma_accum_take_all(p: int, src: Seq<i64>)
    ensures
        accum(p, src.take(src.len() as int)) == accum(p, src),
{
    assert(src.take(src.len() as int) =~= src);
}

/// The largest magnitude among the entries of a column; `0` for an empty
/// column.
pub open spec fn max_abs(s: Seq<i64>) -> int
    decreases s.len(),
{
    if s.len() == 0 {
        0
    } else {
        vstd::math::max(max_abs(s.drop_last()), vstd::math::abs(s.last() as int) as int)
    }
}

/// `max_abs` is a bound: it is non-negative and no entry lies outside
/// `[-max_abs, max_abs]`.
pub proof fn lemma_max_abs_bounds(s: Seq<i64>)
    ensures
        max_abs(s) >= 0,
        forall|j: int| 0 <= j < s.len() ==> -max_abs(s) <= #[trigger] s[j] <= max_abs(s),
    decreases s.len(),
{
    if s.len() > 0 {
        lemma_max_abs_bounds(s.drop_last());
        assert forall|j: int| 0 <= j < s.len() implies -max_abs(s) <= #[trigger] s[j] <= max_abs(
            s,
        ) by {
            if j < s.len() - 1 {
                assert(s.drop_last()[j] == s[j]);
            }
        }
    }
}

/// The total contribution is bounded by the worst case term by term: with
/// every coordinate in `[-b, b]`, each source term is at most
/// `STIFFNESS * 2 * b` in magnitude, and there are `src.len()` of them.
pub proof fn lemma_accum_abs_bound(p: int, src: Seq<i64>, b: int)
    requires
        b >= 0,
        -b <= p <= b,
        forall|j: int| 0 <= j < src.len() ==> -b <= #[trigger] src[j] <= b,
    ensures
        -(src.len() * STIFFNESS * 2 * b) <= accum(p, src) <= src.len() * STIFFNESS * 2 * b,
    decreases src.len(),
{
    if src.len() > 0 {
        lemma_accum_abs_bound(p, src.drop_last(), b);
        assert(-b <= src.last() <= b);
        assert(-(STIFFNESS * 2 * b) <= force_term(p, src.last() as int) <= STIFFNESS * 2 * b);
        assert((src.len() - 1) * STIFFNESS * 2 * b + STIFFNESS * 2 * b == src.len() * STIFFNESS
            * 2 * b) by (nonlinear_arith);
    }
}

/// A caller-friendly way to discharge `fits`: if every coordinate lies in
/// `[-b, b]` and the starting accumulator leaves room for the worst-case
/// total contribution, then every running sum stays inside `i64`.
pub proof fn lemma_fits_from_bounds(f0: int, p: int, src: Seq<i64>, b: int)
    requires
        b >= 0,
        -b <= p <= b,
        forall|j: int| 0 <= j < src.len() ==> -b <= #[trigger] src[j] <= b,
        i64::MIN <= f0 - src.len() * STIFFNESS * 2 * b,
        f0 + src.len() * STIFFNESS * 2 * b <= i64::MAX,
    ensures
        fits(f0, p, src),
{
    assert forall|k: int| 0 <= k <= src.len() implies i64::MIN <= f0 + #[trigger] accum(
        p,
        src.take(k),
    ) <= i64::MAX by {
        assert(forall|j: int| 0 <= j < src.take(k).len() ==> -b <= #[trigger] src.take(k)[j]
            <= b);
        lemma_accum_abs_bound(p, src.take(k), b);
        assert(k * STIFFNESS * 2 * b <= src.len() * STIFFNESS * 2 * b) by (nonlinear_arith)
            requires 0 <= k <= src.len() && b >= 0;
    }
}

} // verus!
