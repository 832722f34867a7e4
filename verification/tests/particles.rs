use contact_forces::kernel::contact_force_par;
use contact_forces::particles::ParticleSet;
use contact_forces::STIFFNESS;

#[test]
fn new_set_is_zeroed() {
    let s = ParticleSet::new(5);
    assert_eq!(s.x, vec![0; 5]);
    assert_eq!(s.y, vec![0; 5]);
    assert_eq!(s.fx, vec![0; 5]);
    assert_eq!(s.fy, vec![0; 5]);
}

#[test]
fn new_empty_set() {
    let s = ParticleSet::new(0);
    assert!(s.x.is_empty());
    assert!(s.fy.is_empty());
}

#[test]
fn reset_forces_clears_accumulators_only() {
    let mut s = ParticleSet::new(3);
    s.x = vec![1, 2, 3];
    s.y = vec![4, 5, 6];
    s.fx = vec![7, 8, 9];
    s.fy = vec![-7, -8, -9];
    s.reset_forces();
    assert_eq!(s.x, vec![1, 2, 3]);
    assert_eq!(s.y, vec![4, 5, 6]);
    assert_eq!(s.fx, vec![0, 0, 0]);
    assert_eq!(s.fy, vec![0, 0, 0]);
}

#[test]
fn self_interaction_on_a_set() {
    // The driver pattern: one set is both destination and source.
    let mut s = ParticleSet::new(2);
    s.x = vec![0, 1];
    s.y = vec![0, -1];
    contact_force_par(&s.x, &s.y, &mut s.fx, &mut s.fy, &s.x, &s.y);
    assert_eq!(s.fx, vec![-STIFFNESS, STIFFNESS]);
    assert_eq!(s.fy, vec![STIFFNESS, -STIFFNESS]);
}

#[test]
fn reset_between_steps_keeps_forces_per_step() {
    // With a reset before each accumulation, two steps on frozen positions
    // see the same per-step force.
    let mut s = ParticleSet::new(2);
    s.x = vec![0, 2];
    s.y = vec![0, 0];
    contact_force_par(&s.x, &s.y, &mut s.fx, &mut s.fy, &s.x, &s.y);
    let step1 = s.fx.clone();
    s.reset_forces();
    contact_force_par(&s.x, &s.y, &mut s.fx, &mut s.fy, &s.x, &s.y);
    assert_eq!(s.fx, step1);
}
