use contact_forces::kernel::{
    accumulate_contact_forces, accumulate_contact_forces_checked, contact_force,
    contact_force_chunked, contact_force_par, KernelError, COORD_CAP,
};

const K: i64 = 100000;

/// Reference computation, written independently of the library: the expected
/// accumulator columns after one kernel call.
fn expected(
    d_x: &[i64],
    d_y: &[i64],
    d_fx: &[i64],
    d_fy: &[i64],
    s_x: &[i64],
    s_y: &[i64],
) -> (Vec<i64>, Vec<i64>) {
    let mut fx = d_fx.to_vec();
    let mut fy = d_fy.to_vec();
    for i in 0..d_x.len() {
        for j in 0..s_x.len() {
            fx[i] += K * (d_x[i] - s_x[j]);
            fy[i] += K * (d_y[i] - s_y[j]);
        }
    }
    (fx, fy)
}

/// A deterministic, varied particle layout of n particles.
fn layout(n: usize, seed: i64) -> (Vec<i64>, Vec<i64>) {
    let mut x = Vec::with_capacity(n);
    let mut y = Vec::with_capacity(n);
    for i in 0..n as i64 {
        x.push((i * 37 + seed * 11) % 1000 - 500);
        y.push((i * 101 + seed * 7) % 800 - 400);
    }
    (x, y)
}

#[test]
fn single_source_exact_force() {
    // One destination at (1, 0), one source at (0, 0): the added force is
    // exactly (K * 1, K * 0) = (100000, 0).
    let d_x = vec![1];
    let d_y = vec![0];
    let mut d_fx = vec![0];
    let mut d_fy = vec![0];
    let s_x = vec![0];
    let s_y = vec![0];
    contact_force(&d_x, &d_y, &mut d_fx, &mut d_fy, &s_x, &s_y);
    assert_eq!(d_fx, vec![100000]);
    assert_eq!(d_fy, vec![0]);
}

#[test]
fn single_source_closed_form() {
    // For one source at (sx, sy), destination i gains exactly
    // (K * (x[i] - sx), K * (y[i] - sy)).
    let d_x = vec![5, -3, 0];
    let d_y = vec![2, 7, -9];
    let mut d_fx = vec![10, 20, 30];
    let mut d_fy = vec![-1, -2, -3];
    let s_x = vec![1];
    let s_y = vec![-4];
    contact_force(&d_x, &d_y, &mut d_fx, &mut d_fy, &s_x, &s_y);
    for i in 0..3 {
        assert_eq!(d_fx[i], [10, 20, 30][i] + K * (d_x[i] - 1));
        assert_eq!(d_fy[i], [-1, -2, -3][i] + K * (d_y[i] + 4));
    }
}

#[test]
fn zero_source_no_op() {
    let d_x = vec![1, 2, 3];
    let d_y = vec![4, 5, 6];
    let mut d_fx = vec![7, 8, 9];
    let mut d_fy = vec![-7, -8, -9];
    let s_x: Vec<i64> = vec![];
    let s_y: Vec<i64> = vec![];
    contact_force(&d_x, &d_y, &mut d_fx, &mut d_fy, &s_x, &s_y);
    assert_eq!(d_fx, vec![7, 8, 9]);
    assert_eq!(d_fy, vec![-7, -8, -9]);
    let r = accumulate_contact_forces(&d_x, &d_y, &mut d_fx, &mut d_fy, &s_x, &s_y);
    assert_eq!(r, Ok(()));
    assert_eq!(d_fx, vec![7, 8, 9]);
    assert_eq!(d_fy, vec![-7, -8, -9]);
}

#[test]
fn zero_destination_no_op() {
    let d_x: Vec<i64> = vec![];
    let d_y: Vec<i64> = vec![];
    let mut d_fx: Vec<i64> = vec![];
    let mut d_fy: Vec<i64> = vec![];
    let s_x = vec![1, 2];
    let s_y = vec![3, 4];
    let r = accumulate_contact_forces(&d_x, &d_y, &mut d_fx, &mut d_fy, &s_x, &s_y);
    assert_eq!(r, Ok(()));
    assert!(d_fx.is_empty());
    assert!(d_fy.is_empty());
    contact_force_par(&d_x, &d_y, &mut d_fx, &mut d_fy, &s_x, &s_y);
    assert!(d_fx.is_empty());
    assert!(d_fy.is_empty());
}

#[test]
fn self_pair_contributes_zero() {
    // Destination and source are the same set: particle i's pair with itself
    // adds nothing, so the result equals the sum over the other particles.
    let x = vec![0, 3];
    let y = vec![0, 4];
    let mut fx = vec![0, 0];
    let mut fy = vec![0, 0];
    contact_force(&x, &y, &mut fx, &mut fy, &x, &y);
    // Particle 0: only the cross pair with particle 1 contributes.
    assert_eq!(fx[0], K * (0 - 3));
    assert_eq!(fy[0], K * (0 - 4));
    // Particle 1: only the cross pair with particle 0 contributes.
    assert_eq!(fx[1], K * (3 - 0));
    assert_eq!(fy[1], K * (4 - 0));
}

#[test]
fn accumulation_doubles() {
    // Two calls without a reset leave each accumulator at twice the one-call
    // contribution.
    let (d_x, d_y) = layout(13, 1);
    let (s_x, s_y) = layout(9, 2);
    let mut d_fx = vec![0; 13];
    let mut d_fy = vec![0; 13];
    contact_force(&d_x, &d_y, &mut d_fx, &mut d_fy, &s_x, &s_y);
    let once_fx = d_fx.clone();
    let once_fy = d_fy.clone();
    contact_force(&d_x, &d_y, &mut d_fx, &mut d_fy, &s_x, &s_y);
    for i in 0..13 {
        assert_eq!(d_fx[i], 2 * once_fx[i]);
        assert_eq!(d_fy[i], 2 * once_fy[i]);
    }
}

#[test]
fn equivalence_seq_par_small() {
    for (n, m) in [(0usize, 0usize), (0, 5), (1, 1), (1, 7), (17, 3)] {
        let (d_x, d_y) = layout(n, 3);
        let (s_x, s_y) = layout(m, 4);
        let mut fx_a = vec![1; n];
        let mut fy_a = vec![-1; n];
        let mut fx_b = fx_a.clone();
        let mut fy_b = fy_a.clone();
        contact_force(&d_x, &d_y, &mut fx_a, &mut fy_a, &s_x, &s_y);
        contact_force_par(&d_x, &d_y, &mut fx_b, &mut fy_b, &s_x, &s_y);
        assert_eq!(fx_a, fx_b);
        assert_eq!(fy_a, fy_b);
        let (e_fx, e_fy) = expected(&d_x, &d_y, &vec![1; n], &vec![-1; n], &s_x, &s_y);
        assert_eq!(fx_a, e_fx);
        assert_eq!(fy_a, e_fy);
    }
}

#[test]
fn equivalence_seq_par_large_self_interaction() {
    // A large set interacting with itself, as the driver uses the kernel.
    let n = 4000;
    let (x, y) = layout(n, 5);
    let mut fx_seq = vec![0; n];
    let mut fy_seq = vec![0; n];
    let mut fx_par = vec![0; n];
    let mut fy_par = vec![0; n];
    contact_force(&x, &y, &mut fx_seq, &mut fy_seq, &x, &y);
    contact_force_par(&x, &y, &mut fx_par, &mut fy_par, &x, &y);
    assert_eq!(fx_seq, fx_par);
    assert_eq!(fy_seq, fy_par);
}

#[test]
fn partition_independence_chunks() {
    let (d_x, d_y) = layout(100, 6);
    let (s_x, s_y) = layout(33, 7);
    let mut fx_ref = vec![0; 100];
    let mut fy_ref = vec![0; 100];
    contact_force(&d_x, &d_y, &mut fx_ref, &mut fy_ref, &s_x, &s_y);
    for chunk in [1usize, 2, 8, 64, 1000] {
        let mut fx = vec![0; 100];
        let mut fy = vec![0; 100];
        contact_force_chunked(&d_x, &d_y, &mut fx, &mut fy, &s_x, &s_y, chunk);
        assert_eq!(fx, fx_ref);
        assert_eq!(fy, fy_ref);
    }
}

#[test]
fn partition_independence_threads() {
    let (d_x, d_y) = layout(250, 8);
    let (s_x, s_y) = layout(77, 9);
    let mut fx_ref = vec![0; 250];
    let mut fy_ref = vec![0; 250];
    contact_force(&d_x, &d_y, &mut fx_ref, &mut fy_ref, &s_x, &s_y);
    for threads in [1usize, 2, 8, 64] {
        let pool = rayon::ThreadPoolBuilder::new().num_threads(threads).build().unwrap();
        let mut fx = vec![0; 250];
        let mut fy = vec![0; 250];
        pool.install(|| {
            contact_force_par(&d_x, &d_y, &mut fx, &mut fy, &s_x, &s_y);
        });
        assert_eq!(fx, fx_ref);
        assert_eq!(fy, fy_ref);
    }
}

#[test]
fn dest_len_mismatch_error() {
    let d_x = vec![1, 2];
    let d_y = vec![3];
    let mut d_fx = vec![0, 0];
    let mut d_fy = vec![0, 0];
    let s_x = vec![5];
    let s_y = vec![6];
    let r = accumulate_contact_forces(&d_x, &d_y, &mut d_fx, &mut d_fy, &s_x, &s_y);
    assert_eq!(r, Err(KernelError::DestLenMismatch));
    assert_eq!(d_fx, vec![0, 0]);
    assert_eq!(d_fy, vec![0, 0]);
}

#[test]
fn dest_force_len_mismatch_error() {
    let d_x = vec![1, 2];
    let d_y = vec![3, 4];
    let mut d_fx = vec![0];
    let mut d_fy = vec![0, 0];
    let s_x = vec![5];
    let s_y = vec![6];
    let r = accumulate_contact_forces(&d_x, &d_y, &mut d_fx, &mut d_fy, &s_x, &s_y);
    assert_eq!(r, Err(KernelError::DestLenMismatch));
    assert_eq!(d_fx, vec![0]);
}

#[test]
fn src_len_mismatch_error() {
    let d_x = vec![1];
    let d_y = vec![2];
    let mut d_fx = vec![9];
    let mut d_fy = vec![9];
    let s_x = vec![5, 6];
    let s_y = vec![7];
    let r = accumulate_contact_forces(&d_x, &d_y, &mut d_fx, &mut d_fy, &s_x, &s_y);
    assert_eq!(r, Err(KernelError::SrcLenMismatch));
    assert_eq!(d_fx, vec![9]);
    assert_eq!(d_fy, vec![9]);
}

#[test]
fn checked_entry_accepts_and_matches_sequential() {
    let (d_x, d_y) = layout(30, 12);
    let (s_x, s_y) = layout(19, 13);
    let mut fx_a = vec![5; 30];
    let mut fy_a = vec![-5; 30];
    let mut fx_b = fx_a.clone();
    let mut fy_b = fy_a.clone();
    contact_force(&d_x, &d_y, &mut fx_a, &mut fy_a, &s_x, &s_y);
    let r = accumulate_contact_forces_checked(&d_x, &d_y, &mut fx_b, &mut fy_b, &s_x, &s_y);
    assert_eq!(r, Ok(()));
    assert_eq!(fx_a, fx_b);
    assert_eq!(fy_a, fy_b);
}

#[test]
fn checked_entry_rejects_accumulator_without_headroom() {
    let d_x = vec![1];
    let d_y = vec![1];
    let mut d_fx = vec![i64::MAX];
    let mut d_fy = vec![0];
    let s_x = vec![0];
    let s_y = vec![0];
    let r = accumulate_contact_forces_checked(&d_x, &d_y, &mut d_fx, &mut d_fy, &s_x, &s_y);
    assert_eq!(r, Err(KernelError::WouldOverflow));
    assert_eq!(d_fx, vec![i64::MAX]);
    assert_eq!(d_fy, vec![0]);
}

#[test]
fn checked_entry_rejects_huge_coordinates() {
    let d_x = vec![COORD_CAP + 1];
    let d_y = vec![0];
    let mut d_fx = vec![0];
    let mut d_fy = vec![0];
    let s_x = vec![0];
    let s_y = vec![0];
    let r = accumulate_contact_forces_checked(&d_x, &d_y, &mut d_fx, &mut d_fy, &s_x, &s_y);
    assert_eq!(r, Err(KernelError::WouldOverflow));
    assert_eq!(d_fx, vec![0]);
}

#[test]
fn checked_entry_reports_length_mismatch() {
    let d_x = vec![1, 2];
    let d_y = vec![3];
    let mut d_fx = vec![0, 0];
    let mut d_fy = vec![0, 0];
    let s_x = vec![0, 1];
    let s_y = vec![0];
    let r = accumulate_contact_forces_checked(&d_x, &d_y, &mut d_fx, &mut d_fy, &s_x, &s_y);
    assert_eq!(r, Err(KernelError::DestLenMismatch));
    let d_y = vec![3, 4];
    let r = accumulate_contact_forces_checked(&d_x, &d_y, &mut d_fx, &mut d_fy, &s_x, &s_y);
    assert_eq!(r, Err(KernelError::SrcLenMismatch));
    assert_eq!(d_fx, vec![0, 0]);
}

#[test]
fn checked_entry_matches_sequential() {
    let (d_x, d_y) = layout(40, 10);
    let (s_x, s_y) = layout(21, 11);
    let mut fx_a = vec![3; 40];
    let mut fy_a = vec![-3; 40];
    let mut fx_b = fx_a.clone();
    let mut fy_b = fy_a.clone();
    contact_force(&d_x, &d_y, &mut fx_a, &mut fy_a, &s_x, &s_y);
    let r = accumulate_contact_forces(&d_x, &d_y, &mut fx_b, &mut fy_b, &s_x, &s_y);
    assert_eq!(r, Ok(()));
    assert_eq!(fx_a, fx_b);
    assert_eq!(fy_a, fy_b);
}
