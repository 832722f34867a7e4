//! The force-accumulation kernel: for every destination particle, fold the
//! force contributed by every source particle into its accumulators.

use vstd::prelude::*;
use rayon::iter::{
    IndexedParallelIterator, IntoParallelRefIterator, IntoParallelRefMutIterator,
    ParallelIterator,
};
use crate::STIFFNESS;
use crate::model::{
    accum, fits, lemma_accum_take_all, lemma_accum_take_step, lemma_fits_from_bounds,
    lemma_max_abs_bounds, max_abs, rows_fit,
};

verus! {

/// Fold the whole source column `src` into one accumulator that starts at
/// `f0`, for a destination at coordinate `p`: the sequential inner loop of
/// the kernel, one source term at a time.
fn row_accumulate(f0: i64, p: i64, src: &Vec<i64>) -> (r: i64)
    requires
        fits(f0 as int, p as int, src@),
    ensures
        r as int == f0 + accum(p as int, src@),
{
    let n: usize = src.len();
    let mut f: i64 = f0;
    let mut j: usize = 0;
    while j < n
        invariant
            j <= n,
            n == src@.len(),
            fits(f0 as int, p as int, src@),
            f as int == f0 + accum(p as int, src@.take(j as int)),
        decreases n - j,
    {
        let q: i64 = src[j];
        let wide: i128 = (f as i128) + (STIFFNESS as i128) * ((p as i128) - (q as i128));
        proof {
            lemma_accum_take_step(p as int, src@, j as int);
            assert(wide == f0 + accum(p as int, src@.take(j as int + 1)));
            assert(i64::MIN <= f0 + accum(p as int, src@.take(j as int + 1)) <= i64::MAX);
        }
        f = wide as i64;
        j = j + 1;
    }
    proof {
        lemma_accum_take_all(p as int, src@);
    }
    f
}

/// The unit of work for one destination particle: fold the whole source set
/// into its two accumulators. Each parallel worker runs exactly this for each
/// destination index it owns; no other worker touches these accumulators.
fn row_update(fx: &mut i64, fy: &mut i64, x: i64, y: i64, s_x: &Vec<i64>, s_y: &Vec<i64>)
    requires
        fits(*old(fx) as int, x as int, s_x@),
        fits(*old(fy) as int, y as int, s_y@),
    ensures
        *final(fx) as int == *old(fx) + accum(x as int, s_x@),
        *final(fy) as int == *old(fy) + accum(y as int, s_y@),
{
    *fx = row_accumulate(*fx, x, s_x);
    *fy = row_accumulate(*fy, y, s_y);
}

/// The sequential kernel: for every destination index `i` and every source
/// index `j`, add `STIFFNESS * (dest - src)` coordinate-wise to destination
/// `i`'s accumulators. Destinations are visited in index order; each row is
/// independent of every other row.
pub fn contact_force(
    d_x: &Vec<i64>,
    d_y: &Vec<i64>,
    d_fx: &mut Vec<i64>,
    d_fy: &mut Vec<i64>,
    s_x: &Vec<i64>,
    s_y: &Vec<i64>,
)
    requires
        d_y@.len() == d_x@.len(),
        old(d_fx)@.len() == d_x@.len(),
        old(d_fy)@.len() == d_x@.len(),
        s_y@.len() == s_x@.len(),
        rows_fit(old(d_fx)@, d_x@, s_x@),
        rows_fit(old(d_fy)@, d_y@, s_y@),
    ensures
        final(d_fx)@.len() == old(d_fx)@.len(),
        final(d_fy)@.len() == old(d_fy)@.len(),
        forall|i: int| 0 <= i < d_x@.len() ==>
            final(d_fx)@[i] as int == old(d_fx)@[i] + accum(d_x@[i] as int, s_x@),
        forall|i: int| 0 <= i < d_x@.len() ==>
            final(d_fy)@[i] as int == old(d_fy)@[i] + accum(d_y@[i] as int, s_y@),
{
    let n: usize = d_x.len();
    let mut i: usize = 0;
    while i < n
        invariant
            i <= n,
            n == d_x@.len(),
            d_y@.len() == n,
            d_fx@.len() == n,
            d_fy@.len() == n,
            old(d_fx)@.len() == n,
            old(d_fy)@.len() == n,
            rows_fit(old(d_fx)@, d_x@, s_x@),
            rows_fit(old(d_fy)@, d_y@, s_y@),
            forall|r: int| 0 <= r < i ==>
                d_fx@[r] as int == old(d_fx)@[r] + accum(d_x@[r] as int, s_x@),
            forall|r: int| 0 <= r < i ==>
                d_fy@[r] as int == old(d_fy)@[r] + accum(d_y@[r] as int, s_y@),
            forall|r: int| i <= r < n ==> d_fx@[r] == old(d_fx)@[r],
            forall|r: int| i <= r < n ==> d_fy@[r] == old(d_fy)@[r],
        decreases n - i,
    {
        let nfx: i64 = row_accumulate(d_fx[i], d_x[i], s_x);
        d_fx.set(i, nfx);
        let nfy: i64 = row_accumulate(d_fy[i], d_y[i], s_y);
        d_fy.set(i, nfy);
        i = i + 1;
    }
}

/// The kernel with its partition made explicit: the destination range is
/// split into consecutive chunks of at most `chunk` indices and each chunk is
/// processed on its own, touching no accumulator outside the chunk. The
/// contract is identical to `contact_force` whatever `chunk` is: the result
/// does not depend on how the destination range is partitioned.
pub fn contact_force_chunked(
    d_x: &Vec<i64>,
    d_y: &Vec<i64>,
    d_fx: &mut Vec<i64>,
    d_fy: &mut Vec<i64>,
    s_x: &Vec<i64>,
    s_y: &Vec<i64>,
    chunk: usize,
)
    requires
        chunk >= 1,
        d_y@.len() == d_x@.len(),
        old(d_fx)@.len() == d_x@.len(),
        old(d_fy)@.len() == d_x@.len(),
        s_y@.len() == s_x@.len(),
        rows_fit(old(d_fx)@, d_x@, s_x@),
        rows_fit(old(d_fy)@, d_y@, s_y@),
    ensures
        final(d_fx)@.len() == old(d_fx)@.len(),
        final(d_fy)@.len() == old(d_fy)@.len(),
        forall|i: int| 0 <= i < d_x@.len() ==>
            final(d_fx)@[i] as int == old(d_fx)@[i] + accum(d_x@[i] as int, s_x@),
        forall|i: int| 0 <= i < d_x@.len() ==>
            final(d_fy)@[i] as int == old(d_fy)@[i] + accum(d_y@[i] as int, s_y@),
{
    let n: usize = d_x.len();
    let mut start: usize = 0;
    while start < n
        invariant
            start <= n,
            n == d_x@.len(),
            d_y@.len() == n,
            d_fx@.len() == n,
            d_fy@.len() == n,
            old(d_fx)@.len() == n,
            old(d_fy)@.len() == n,
            rows_fit(old(d_fx)@, d_x@, s_x@),
            rows_fit(old(d_fy)@, d_y@, s_y@),
            forall|r: int| 0 <= r < start ==>
                d_fx@[r] as int == old(d_fx)@[r] + accum(d_x@[r] as int, s_x@),
            forall|r: int| 0 <= r < start ==>
                d_fy@[r] as int == old(d_fy)@[r] + accum(d_y@[r] as int, s_y@),
            forall|r: int| start <= r < n ==> d_fx@[r] == old(d_fx)@[r],
            forall|r: int| start <= r < n ==> d_fy@[r] == old(d_fy)@[r],
            chunk >= 1,
        decreases n - start,
    {
        let stop: usize = if n - start < chunk {
            n
        } else {
            start + chunk
        };
        let mut i: usize = start;
        while i < stop
            invariant
                start <= i <= stop <= n,
                n == d_x@.len(),
                d_y@.len() == n,
                d_fx@.len() == n,
                d_fy@.len() == n,
                old(d_fx)@.len() == n,
                old(d_fy)@.len() == n,
                rows_fit(old(d_fx)@, d_x@, s_x@),
                rows_fit(old(d_fy)@, d_y@, s_y@),
                forall|r: int| 0 <= r < i ==>
                    d_fx@[r] as int == old(d_fx)@[r] + accum(d_x@[r] as int, s_x@),
                forall|r: int| 0 <= r < i ==>
                    d_fy@[r] as int == old(d_fy)@[r] + accum(d_y@[r] as int, s_y@),
                forall|r: int| i <= r < n ==> d_fx@[r] == old(d_fx)@[r],
                forall|r: int| i <= r < n ==> d_fy@[r] == old(d_fy)@[r],
            decreases stop - i,
        {
            let nfx: i64 = row_accumulate(d_fx[i], d_x[i], s_x);
            d_fx.set(i, nfx);
            let nfy: i64 = row_accumulate(d_fy[i], d_y[i], s_y);
            d_fy.set(i, nfy);
            i = i + 1;
        }
        start = stop;
    }
}

/// Relies on rayon's zipped parallel iterators over slices: `zip` pairs the
/// elements of the four destination columns index by index, and `for_each`
/// applies the operation to every tuple exactly once, each mutable
/// accumulator pair handed to exactly one worker. The per-tuple operation is
/// the verified `row_update`, whose contract this one restates row by row.
#[verifier::external_body]
fn par_rows(
    d_x: &Vec<i64>,
    d_y: &Vec<i64>,
    d_fx: &mut Vec<i64>,
    d_fy: &mut Vec<i64>,
    s_x: &Vec<i64>,
    s_y: &Vec<i64>,
)
    requires
        d_y@.len() == d_x@.len(),
        old(d_fx)@.len() == d_x@.len(),
        old(d_fy)@.len() == d_x@.len(),
        s_y@.len() == s_x@.len(),
        rows_fit(old(d_fx)@, d_x@, s_x@),
        rows_fit(old(d_fy)@, d_y@, s_y@),
    ensures
        final(d_fx)@.len() == old(d_fx)@.len(),
        final(d_fy)@.len() == old(d_fy)@.len(),
        forall|i: int| 0 <= i < d_x@.len() ==>
            final(d_fx)@[i] as int == old(d_fx)@[i] + accum(d_x@[i] as int, s_x@),
        forall|i: int| 0 <= i < d_x@.len() ==>
            final(d_fy)@[i] as int == old(d_fy)@[i] + accum(d_y@[i] as int, s_y@),
{
    d_fx.par_iter_mut()
        .zip(d_fy.par_iter_mut().zip(d_x.par_iter().zip(d_y.par_iter())))
        .for_each(|(fxi, (fyi, (xi, yi)))| {
            row_update(fxi, fyi, *xi, *yi, s_x, s_y);
        });
}

/// The parallel kernel: the destination range is partitioned across rayon's
/// worker threads; each worker runs the sequential inner loop for the
/// destination indices it owns and writes no accumulator outside them. The
/// call returns only once every worker has finished, and the result is
/// exactly the sequential one.
pub fn contact_force_par(
    d_x: &Vec<i64>,
    d_y: &Vec<i64>,
    d_fx: &mut Vec<i64>,
    d_fy: &mut Vec<i64>,
    s_x: &Vec<i64>,
    s_y: &Vec<i64>,
)
    requires
        d_y@.len() == d_x@.len(),
        old(d_fx)@.len() == d_x@.len(),
        old(d_fy)@.len() == d_x@.len(),
        s_y@.len() == s_x@.len(),
        rows_fit(old(d_fx)@, d_x@, s_x@),
        rows_fit(old(d_fy)@, d_y@, s_y@),
    ensures
        final(d_fx)@.len() == old(d_fx)@.len(),
        final(d_fy)@.len() == old(d_fy)@.len(),
        forall|i: int| 0 <= i < d_x@.len() ==>
            final(d_fx)@[i] as int == old(d_fx)@[i] + accum(d_x@[i] as int, s_x@),
        forall|i: int| 0 <= i < d_x@.len() ==>
            final(d_fy)@[i] as int == old(d_fy)@[i] + accum(d_y@[i] as int, s_y@),
{
    par_rows(d_x, d_y, d_fx, d_fy, s_x, s_y);
}

/// A precondition violation detected at the call boundary: the parallel
/// sequences handed to the kernel do not have the lengths they must have.
#[derive(Clone, Copy, Debug, PartialEq, Eq)]
pub enum KernelError {
    /// The destination position and force sequences do not all share one
    /// length.
    DestLenMismatch,
    /// The two source position sequences differ in length.
    SrcLenMismatch,
    /// Reported only by `accumulate_contact_forces_checked`: the inputs are
    /// outside the conservative bounds under which that entry point can rule
    /// out accumulator overflow, so nothing was accumulated.
    WouldOverflow,
}

/// Whether the four destination columns share one length.
pub open spec fn dest_lens_ok(d_x: Seq<i64>, d_y: Seq<i64>, d_fx: Seq<i64>, d_fy: Seq<i64>) -> bool {
    d_y.len() == d_x.len() && d_fx.len() == d_x.len() && d_fy.len() == d_x.len()
}

/// The production entry point of the kernel: checks the length invariants of
/// both particle sets, rejects a mismatch before touching any accumulator,
/// and otherwise runs the parallel kernel to completion.
pub fn accumulate_contact_forces(
    d_x: &Vec<i64>,
    d_y: &Vec<i64>,
    d_fx: &mut Vec<i64>,
    d_fy: &mut Vec<i64>,
    s_x: &Vec<i64>,
    s_y: &Vec<i64>,
) -> (r: Result<(), KernelError>)
    requires
        dest_lens_ok(d_x@, d_y@, old(d_fx)@, old(d_fy)@) && s_y@.len() == s_x@.len() ==>
            rows_fit(old(d_fx)@, d_x@, s_x@) && rows_fit(old(d_fy)@, d_y@, s_y@),
    ensures
        r is Ok <==> (dest_lens_ok(d_x@, d_y@, old(d_fx)@, old(d_fy)@) && s_y@.len()
            == s_x@.len()),
        !dest_lens_ok(d_x@, d_y@, old(d_fx)@, old(d_fy)@) ==> r == Err::<(),
            KernelError>(KernelError::DestLenMismatch),
        dest_lens_ok(d_x@, d_y@, old(d_fx)@, old(d_fy)@) && s_y@.len() != s_x@.len() ==> r
            == Err::<(), KernelError>(KernelError::SrcLenMismatch),
        r is Err ==> final(d_fx)@ == old(d_fx)@ && final(d_fy)@ == old(d_fy)@,
        final(d_fx)@.len() == old(d_fx)@.len(),
        final(d_fy)@.len() == old(d_fy)@.len(),
        r is Ok ==> forall|i: int| 0 <= i < d_x@.len() ==>
            final(d_fx)@[i] as int == old(d_fx)@[i] + accum(d_x@[i] as int, s_x@),
        r is Ok ==> forall|i: int| 0 <= i < d_x@.len() ==>
            final(d_fy)@[i] as int == old(d_fy)@[i] + accum(d_y@[i] as int, s_y@),
{
    if !(d_y.len() == d_x.len() && d_fx.len() == d_x.len() && d_fy.len() == d_x.len()) {
        return Err(KernelError::DestLenMismatch);
    }
    if s_y.len() != s_x.len() {
        return Err(KernelError::SrcLenMismatch);
    }
    contact_force_par(d_x, d_y, d_fx, d_fy, s_x, s_y);
    Ok(())
}

/// The largest source-set size `accumulate_contact_forces_checked` accepts.
pub const SRC_LEN_CAP: usize = 1048576;

/// The largest coordinate magnitude `accumulate_contact_forces_checked`
/// accepts.
pub const COORD_CAP: i64 = 1073741824;

/// The largest coordinate magnitude anywhere in the two particle sets.
pub open spec fn coord_bound(d_x: Seq<i64>, d_y: Seq<i64>, s_x: Seq<i64>, s_y: Seq<i64>) -> int {
    vstd::math::max(
        vstd::math::max(max_abs(d_x), max_abs(d_y)),
        vstd::math::max(max_abs(s_x), max_abs(s_y)),
    )
}

/// The conservative domain of `accumulate_contact_forces_checked`: the
/// source set and the coordinates are small enough to reason about, and
/// every accumulator has headroom for the worst-case total contribution of
/// one call. Within this domain no running sum can leave `i64`.
pub open spec fn within_checked_bounds(
    d_x: Seq<i64>,
    d_y: Seq<i64>,
    d_fx: Seq<i64>,
    d_fy: Seq<i64>,
    s_x: Seq<i64>,
    s_y: Seq<i64>,
) -> bool {
    let b = coord_bound(d_x, d_y, s_x, s_y);
    &&& s_x.len() <= SRC_LEN_CAP
    &&& b <= COORD_CAP
    &&& forall|i: int| 0 <= i < d_fx.len() ==> i64::MIN <= #[trigger] d_fx[i] - s_x.len()
        * STIFFNESS * 2 * b && d_fx[i] + s_x.len() * STIFFNESS * 2 * b <= i64::MAX
    &&& forall|i: int| 0 <= i < d_fy.len() ==> i64::MIN <= #[trigger] d_fy[i] - s_x.len()
        * STIFFNESS * 2 * b && d_fy[i] + s_x.len() * STIFFNESS * 2 * b <= i64::MAX
}

/// The largest magnitude among the entries of one column, computed as `i128`
/// so that even `i64::MIN` has a magnitude.
fn max_abs_column(v: &Vec<i64>) -> (m: i128)
    ensures
        m == max_abs(v@),
{
    let n: usize = v.len();
    let mut m: i128 = 0;
    let mut j: usize = 0;
    proof {
        assert(v@.take(0) =~= Seq::<i64>::empty());
    }
    while j < n
        invariant
            j <= n,
            n == v@.len(),
            m == max_abs(v@.take(j as int)),
        decreases n - j,
    {
        let a: i128 = v[j] as i128;
        let aa: i128 = if a < 0 {
            -a
        } else {
            a
        };
        if aa > m {
            m = aa;
        }
        proof {
            assert(v@.take(j as int + 1).drop_last() =~= v@.take(j as int));
            assert(v@.take(j as int + 1).last() == v@[j as int]);
        }
        j = j + 1;
    }
    proof {
        assert(v@.take(n as int) =~= v@);
    }
    m
}

/// A kernel entry with no obligation on the caller at all: the length
/// invariants and a conservative overflow bound are both checked at run
/// time, and the parallel kernel runs only when the whole call provably
/// stays inside `i64`. On any rejection the accumulators are untouched.
#[verifier::loop_isolation(false)]
pub fn accumulate_contact_forces_checked(
    d_x: &Vec<i64>,
    d_y: &Vec<i64>,
    d_fx: &mut Vec<i64>,
    d_fy: &mut Vec<i64>,
    s_x: &Vec<i64>,
    s_y: &Vec<i64>,
) -> (r: Result<(), KernelError>)
    ensures
        r is Ok <==> (dest_lens_ok(d_x@, d_y@, old(d_fx)@, old(d_fy)@) && s_y@.len()
            == s_x@.len() && within_checked_bounds(
            d_x@,
            d_y@,
            old(d_fx)@,
            old(d_fy)@,
            s_x@,
            s_y@,
        )),
        !dest_lens_ok(d_x@, d_y@, old(d_fx)@, old(d_fy)@) ==> r == Err::<(),
            KernelError>(KernelError::DestLenMismatch),
        dest_lens_ok(d_x@, d_y@, old(d_fx)@, old(d_fy)@) && s_y@.len() != s_x@.len() ==> r
            == Err::<(), KernelError>(KernelError::SrcLenMismatch),
        dest_lens_ok(d_x@, d_y@, old(d_fx)@, old(d_fy)@) && s_y@.len() == s_x@.len()
            && !within_checked_bounds(d_x@, d_y@, old(d_fx)@, old(d_fy)@, s_x@, s_y@) ==> r
            == Err::<(), KernelError>(KernelError::WouldOverflow),
        r is Err ==> final(d_fx)@ == old(d_fx)@ && final(d_fy)@ == old(d_fy)@,
        final(d_fx)@.len() == old(d_fx)@.len(),
        final(d_fy)@.len() == old(d_fy)@.len(),
        r is Ok ==> forall|i: int| 0 <= i < d_x@.len() ==>
            final(d_fx)@[i] as int == old(d_fx)@[i] + accum(d_x@[i] as int, s_x@),
        r is Ok ==> forall|i: int| 0 <= i < d_x@.len() ==>
            final(d_fy)@[i] as int == old(d_fy)@[i] + accum(d_y@[i] as int, s_y@),
{
    if !(d_y.len() == d_x.len() && d_fx.len() == d_x.len() && d_fy.len() == d_x.len()) {
        return Err(KernelError::DestLenMismatch);
    }
    if s_y.len() != s_x.len() {
        return Err(KernelError::SrcLenMismatch);
    }
    if s_x.len() > SRC_LEN_CAP {
        return Err(KernelError::WouldOverflow);
    }
    let b_dx: i128 = max_abs_column(d_x);
    let b_dy: i128 = max_abs_column(d_y);
    let b_sx: i128 = max_abs_column(s_x);
    let b_sy: i128 = max_abs_column(s_y);
    let b_d: i128 = if b_dx >= b_dy {
        b_dx
    } else {
        b_dy
    };
    let b_s: i128 = if b_sx >= b_sy {
        b_sx
    } else {
        b_sy
    };
    let b: i128 = if b_d >= b_s {
        b_d
    } else {
        b_s
    };
    proof {
        assert(b == coord_bound(d_x@, d_y@, s_x@, s_y@));
    }
    if b > COORD_CAP as i128 {
        return Err(KernelError::WouldOverflow);
    }
    proof {
        lemma_max_abs_bounds(s_x@);
        assert((s_x@.len() * STIFFNESS) * 2 * b <= ((SRC_LEN_CAP as int) * STIFFNESS) * 2 * (
        COORD_CAP as int)) by (nonlinear_arith)
            requires
                0 <= s_x@.len() <= SRC_LEN_CAP as int,
                0 <= b <= COORD_CAP as int,
                STIFFNESS == 100000,
        ;
    }
    let lim: i128 = (s_x.len() as i128) * (STIFFNESS as i128) * 2 * b;
    let d: usize = d_fx.len();
    let mut i: usize = 0;
    while i < d
        invariant
            i <= d,
            forall|r: int| 0 <= r < i ==> i64::MIN <= #[trigger] d_fx@[r] - lim && d_fx@[r]
                + lim <= i64::MAX,
            forall|r: int| 0 <= r < i ==> i64::MIN <= #[trigger] d_fy@[r] - lim && d_fy@[r]
                + lim <= i64::MAX,
        decreases d - i,
    {
        let fx_i: i128 = d_fx[i] as i128;
        let fy_i: i128 = d_fy[i] as i128;
        if fx_i - lim < i64::MIN as i128 || fx_i + lim > i64::MAX as i128 {
            return Err(KernelError::WouldOverflow);
        }
        if fy_i - lim < i64::MIN as i128 || fy_i + lim > i64::MAX as i128 {
            return Err(KernelError::WouldOverflow);
        }
        i = i + 1;
    }
    proof {
        let bb = coord_bound(d_x@, d_y@, s_x@, s_y@);
        lemma_max_abs_bounds(d_x@);
        lemma_max_abs_bounds(d_y@);
        lemma_max_abs_bounds(s_x@);
        lemma_max_abs_bounds(s_y@);
        assert forall|r: int| 0 <= r < d_x@.len() implies fits(
            d_fx@[r] as int,
            d_x@[r] as int,
            s_x@,
        ) by {
            lemma_fits_from_bounds(d_fx@[r] as int, d_x@[r] as int, s_x@, bb);
        }
        assert forall|r: int| 0 <= r < d_y@.len() implies fits(
            d_fy@[r] as int,
            d_y@[r] as int,
            s_y@,
        ) by {
            lemma_fits_from_bounds(d_fy@[r] as int, d_y@[r] as int, s_y@, bb);
        }
    }
    contact_force_par(d_x, d_y, d_fx, d_fy, s_x, s_y);
    Ok(())
}

} // verus!
