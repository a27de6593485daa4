use gaz::motion::{move_all, move_particle};
use gaz::particle::Particle;

#[test]
fn wall_reflection_single_axis() {
    // Container 800x400 units, particle at (399, 0) with velocity
    // (50, 0) units/s, one tick of 1.0 s.
    let mut p = Particle { px: 399_000, py: 0, vx: 50_000, vy: 0 };
    let hits = move_particle(&mut p, 1000, 800_000, 400_000);
    assert_eq!(p.px, 449_000);
    assert_eq!(p.py, 0);
    assert_eq!(p.vx, -50_000);
    assert_eq!(p.vy, 0);
    assert_eq!(hits, 1);
}

#[test]
fn end_to_end_two_ticks() {
    let mut p = Particle { px: 399_000, py: 0, vx: 50_000, vy: 0 };
    let first = move_particle(&mut p, 1000, 800_000, 400_000);
    assert_eq!(first, 1);
    // Second tick with the reflected velocity moves back inside.
    let second = move_particle(&mut p, 1000, 800_000, 400_000);
    assert_eq!(p.px, 399_000);
    assert_eq!(p.vx, -50_000);
    assert_eq!(second, 0);
}

#[test]
fn both_axes_overshoot_counts_two_hits() {
    let mut p = Particle { px: 399_000, py: 199_000, vx: 50_000, vy: 50_000 };
    let hits = move_particle(&mut p, 1000, 800_000, 400_000);
    assert_eq!(p.px, 449_000);
    assert_eq!(p.py, 249_000);
    assert_eq!(p.vx, -50_000);
    assert_eq!(p.vy, -50_000);
    assert_eq!(hits, 2);
}

#[test]
fn boundary_touch_is_not_a_hit() {
    // Ends exactly on the wall: strict comparison, no reflection.
    let mut p = Particle { px: 350_000, py: 0, vx: 50_000, vy: 0 };
    let hits = move_particle(&mut p, 1000, 800_000, 400_000);
    assert_eq!(p.px, 400_000);
    assert_eq!(p.vx, 50_000);
    assert_eq!(hits, 0);
}

#[test]
fn displacement_rounds_toward_zero() {
    // 1 milli-unit/s for 1 ms is below one milli-unit: no movement.
    let mut p = Particle { px: 10, py: -10, vx: 1, vy: -1 };
    let hits = move_particle(&mut p, 1, 800_000, 400_000);
    assert_eq!(p.px, 10);
    assert_eq!(p.py, -10);
    assert_eq!(hits, 0);
    // -1500 milli-units/s for 1 ms truncates to -1 milli-unit.
    let mut q = Particle { px: 0, py: 0, vx: -1500, vy: 1500 };
    move_particle(&mut q, 1, 800_000, 400_000);
    assert_eq!(q.px, -1);
    assert_eq!(q.py, 1);
}

#[test]
fn move_all_accumulates_hits() {
    let mut particles = vec![
        Particle { px: 399_000, py: 0, vx: 50_000, vy: 0 },
        Particle { px: 0, py: 0, vx: 1000, vy: 1000 },
        Particle { px: -399_000, py: 199_000, vx: -50_000, vy: 50_000 },
    ];
    let mut nb_hits: u64 = 5;
    move_all(&mut particles, 1000, 800_000, 400_000, &mut nb_hits);
    // One hit from the first particle, two from the third.
    assert_eq!(nb_hits, 5 + 3);
    assert_eq!(particles[0].vx, -50_000);
    assert_eq!(particles[1].vx, 1000);
    assert_eq!(particles[2].vx, 50_000);
    assert_eq!(particles[2].vy, -50_000);
}

#[test]
fn move_all_on_empty_store_is_a_noop() {
    let mut particles: Vec<Particle> = Vec::new();
    let mut nb_hits: u64 = 3;
    move_all(&mut particles, 1000, 800_000, 400_000, &mut nb_hits);
    assert_eq!(nb_hits, 3);
    assert!(particles.is_empty());
}
