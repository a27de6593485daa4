use gaz::collision::{check_collision, collide_all};
use gaz::particle::Particle;

#[test]
fn collision_scenario_antisymmetric() {
    // Particles at (0,0) and (3,0) with D = 5.0, velocities (10,0)
    // and (-10,0): the negate-swap degenerates to no visible change.
    let mut particles = vec![
        Particle { px: 0, py: 0, vx: 10_000, vy: 0 },
        Particle { px: 3_000, py: 0, vx: -10_000, vy: 0 },
    ];
    collide_all(&mut particles, 5_000);
    assert_eq!(particles[0].vx, 10_000);
    assert_eq!(particles[0].vy, 0);
    assert_eq!(particles[1].vx, -10_000);
    assert_eq!(particles[1].vy, 0);
}

#[test]
fn pairwise_swap_uses_pre_resolution_values() {
    let mut particles = vec![
        Particle { px: 0, py: 0, vx: 1_000, vy: 2_000 },
        Particle { px: 3_000, py: 0, vx: -4_000, vy: 5_000 },
    ];
    collide_all(&mut particles, 5_000);
    assert_eq!((particles[0].vx, particles[0].vy), (4_000, -5_000));
    assert_eq!((particles[1].vx, particles[1].vy), (-1_000, -2_000));
    // Positions are never corrected.
    assert_eq!((particles[0].px, particles[0].py), (0, 0));
    assert_eq!((particles[1].px, particles[1].py), (3_000, 0));
}

#[test]
fn no_op_at_or_beyond_threshold() {
    // Distance exactly D: not strictly closer, so no exchange.
    let mut particles = vec![
        Particle { px: 0, py: 0, vx: 7, vy: 8 },
        Particle { px: 5_000, py: 0, vx: 9, vy: 10 },
    ];
    collide_all(&mut particles, 5_000);
    assert_eq!((particles[0].vx, particles[0].vy), (7, 8));
    assert_eq!((particles[1].vx, particles[1].vy), (9, 10));
}

#[test]
fn distance_uses_both_axes() {
    let a = Particle { px: 0, py: 0, vx: 0, vy: 0 };
    let b = Particle { px: 3_000, py: 4_000, vx: 0, vy: 0 };
    // Euclidean distance is exactly 5000.
    assert!(!check_collision(&a, &b, 5_000));
    assert!(check_collision(&a, &b, 5_001));
}

#[test]
fn pairs_resolve_in_order_with_current_velocities() {
    // Three mutually close particles: pairs (0,1), (0,2), (1,2) in
    // that order, each exchange using the velocities current at the
    // time the pair is visited.
    let mut particles = vec![
        Particle { px: 0, py: 0, vx: 1, vy: 0 },
        Particle { px: 1_000, py: 0, vx: 2, vy: 0 },
        Particle { px: 2_000, py: 0, vx: 3, vy: 0 },
    ];
    collide_all(&mut particles, 5_000);
    assert_eq!(particles[0].vx, -3);
    assert_eq!(particles[1].vx, -2);
    assert_eq!(particles[2].vx, 1);
}

#[test]
fn resolver_on_empty_and_single_store() {
    let mut empty: Vec<Particle> = Vec::new();
    collide_all(&mut empty, 5_000);
    assert!(empty.is_empty());

    let mut one = vec![Particle { px: 0, py: 0, vx: 4, vy: 5 }];
    collide_all(&mut one, 5_000);
    assert_eq!((one[0].vx, one[0].vy), (4, 5));
}

#[test]
fn zero_distance_never_collides() {
    let mut particles = vec![
        Particle { px: 0, py: 0, vx: 1, vy: 1 },
        Particle { px: 0, py: 0, vx: 2, vy: 2 },
    ];
    collide_all(&mut particles, 0);
    assert_eq!((particles[0].vx, particles[1].vx), (1, 2));
}
