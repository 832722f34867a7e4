//! Properties of the kernel that relate whole calls to one another, proved
//! once over the model that every kernel realization's contract speaks of.

use vstd::prelude::*;
use crate::STIFFNESS;
use crate::model::{accum, force_term};

verus! {

/// Any two realizations of the kernel agree exactly: two output columns that
/// both satisfy the kernel's row formula for the same positions, starting
/// accumulators and source set are one and the same sequence. This is why the
/// choice of execution strategy — sequential, chunked, or parallel — cannot
/// be observed in the result.
pub proof fn lemma_strategies_agree(
    xs: Seq<i64>,
    f0: Seq<i64>,
    src: Seq<i64>,
    a: Seq<i64>,
    b: Seq<i64>,
)
    requires
        xs.len() == f0.len(),
        a.len() == f0.len(),
        b.len() == f0.len(),
        forall|i: int| 0 <= i < f0.len() ==> (#[trigger] a[i]) as int == f0[i] + accum(
            xs[i] as int,
            src,
        ),
        forall|i: int| 0 <= i < f0.len() ==> (#[trigger] b[i]) as int == f0[i] + accum(
            xs[i] as int,
            src,
        ),
    ensures
        a == b,
{
    assert(a =~= b);
}

/// With no source particles a kernel call adds nothing: an output column
/// that satisfies the kernel's row formula for an empty source set is the
/// starting column itself, whatever the destination count.
pub proof fn lemma_zero_source_no_op(xs: Seq<i64>, f0: Seq<i64>, src: Seq<i64>, out: Seq<i64>)
    requires
        src.len() == 0,
        xs.len() == f0.len(),
        out.len() == f0.len(),
        forall|i: int| 0 <= i < f0.len() ==> (#[trigger] out[i]) as int == f0[i] + accum(
            xs[i] as int,
            src,
        ),
    ensures
        out == f0,
{
    assert(out =~= f0);
}

/// When destination and source are the same set, the pair of a particle with
/// itself contributes exactly zero: dropping the self term from the source
/// set does not change the sum.
pub proof fn lemma_self_pair_contributes_zero(p: int, src: Seq<i64>, j: int)
    requires
        0 <= j < src.len(),
        src[j] as int == p,
    ensures
        accum(p, src) == accum(p, src.remove(j)),
    decreases src.len(),
{
    if j == src.len() - 1 {
        assert(src.remove(j) =~= src.drop_last());
        assert(force_term(p, p) == 0);
    } else {
        lemma_self_pair_contributes_zero(p, src.drop_last(), j);
        assert(src.remove(j).drop_last() =~= src.drop_last().remove(j));
        assert(src.remove(j).last() == src.last());
    }
}

/// For a single source particle the kernel's contribution has a closed form:
/// exactly the stiffness constant times the coordinate-wise displacement.
pub proof fn lemma_single_source(p: int, q: i64)
    ensures
        accum(p, seq![q]) == STIFFNESS * (p - q as int),
{
    assert(seq![q].drop_last() =~= Seq::<i64>::empty());
    assert(accum(p, Seq::<i64>::empty()) == 0);
    assert(seq![q].last() == q);
}

/// Accumulators are never reset by the kernel itself: a second identical
/// call adds the same total again, so after two calls every accumulator
/// stands at its start plus twice the one-call contribution.
pub proof fn lemma_repeated_accumulation(
    xs: Seq<i64>,
    f0: Seq<i64>,
    src: Seq<i64>,
    once: Seq<i64>,
    twice: Seq<i64>,
)
    requires
        xs.len() == f0.len(),
        once.len() == f0.len(),
        twice.len() == f0.len(),
        forall|i: int| 0 <= i < f0.len() ==> (#[trigger] once[i]) as int == f0[i] + accum(
            xs[i] as int,
            src,
        ),
        forall|i: int| 0 <= i < f0.len() ==> (#[trigger] twice[i]) as int == once[i] + accum(
            xs[i] as int,
            src,
        ),
    ensures
        forall|i: int| 0 <= i < f0.len() ==> (#[trigger] twice[i]) as int == f0[i] + 2 * accum(
            xs[i] as int,
            src,
        ),
{
}

} // verus!
