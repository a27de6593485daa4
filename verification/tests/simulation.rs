use gaz::boundary::WindowSize;
use gaz::config::Configuration;
use gaz::particle::Particle;
use gaz::sim::{spawn_molecules, Simulation};
use gaz::stats::{compute_metric, stats_step, Stats};
use gaz::timer::Timer;

#[test]
fn default_configuration() {
    let c = Configuration::default();
    assert_eq!(c.num_molecules, 1000);
    assert_eq!(c.collision_detection_distance, 5_000);
    let w = WindowSize::default();
    assert_eq!(w.x, 800_000);
    assert_eq!(w.y, 400_000);
}

#[test]
fn timer_accumulates_and_fires_once() {
    let mut t = Timer::new(10);
    assert_eq!(t.tick(4), None);
    assert_eq!(t.tick(4), None);
    // Crossing the interval fires with the whole accumulated span.
    assert_eq!(t.tick(4), Some(12));
    assert_eq!(t.elapsed_ms, 0);
    assert_eq!(t.tick(9), None);
}

#[test]
fn stats_report_resets_counter() {
    let mut timer = Timer::new(1000);
    let mut stats = Stats { nb_hits: 7 };
    let window = WindowSize { x: 800_000, y: 400_000 };
    let report = stats_step(&mut timer, &mut stats, &window, 1000);
    assert_eq!(report, Some(7u128 * 800_000 * 400_000));
    assert_eq!(stats.nb_hits, 0);
}

#[test]
fn stats_waits_for_its_interval() {
    let mut timer = Timer::new(1000);
    let mut stats = Stats { nb_hits: 42 };
    let window = WindowSize { x: 800_000, y: 400_000 };
    assert_eq!(stats_step(&mut timer, &mut stats, &window, 400), None);
    assert_eq!(stats.nb_hits, 42);
    assert_eq!(stats_step(&mut timer, &mut stats, &window, 600), Some(42u128 * 800_000 * 400_000));
    assert_eq!(stats.nb_hits, 0);
}

#[test]
fn metric_is_hits_times_area() {
    assert_eq!(compute_metric(3, 800_000, 400_000), 960_000_000_000u128);
    assert_eq!(compute_metric(0, 800_000, 400_000), 0);
}

#[test]
fn spawned_molecules_lie_inside_the_container() {
    let window = WindowSize::default();
    let particles = spawn_molecules(50, &window);
    assert_eq!(particles.len(), 50);
    for p in particles.iter() {
        assert!(-400_000 <= p.px && p.px <= 400_000);
        assert!(-200_000 <= p.py && p.py <= 200_000);
        assert!(0 <= p.vx && p.vx < 200_000);
        assert!(0 <= p.vy && p.vy < 200_000);
    }
}

#[test]
fn new_simulation_starts_clean() {
    let sim = Simulation::new(Configuration::default(), WindowSize::default());
    assert_eq!(sim.particles().len(), 1000);
    assert_eq!(sim.nb_hits(), 0);
    assert_eq!(sim.move_timer.interval_ms, 10);
    assert_eq!(sim.stats_timer.interval_ms, 1000);
}

fn small_sim(particles: Vec<Particle>) -> Simulation {
    Simulation {
        particles,
        window: WindowSize { x: 800_000, y: 400_000 },
        stats: Stats { nb_hits: 0 },
        config: Configuration { num_molecules: 0, collision_detection_distance: 5_000 },
        move_timer: Timer::new(10),
        stats_timer: Timer::new(1000),
    }
}

#[test]
fn update_moves_only_when_the_move_timer_fires() {
    let mut sim = small_sim(vec![Particle { px: 0, py: 0, vx: 100_000, vy: 0 }]);
    // 5 ms: the 10 ms move timer does not fire.
    assert_eq!(sim.update(5), None);
    assert_eq!(sim.particles()[0].px, 0);
    // 5 more ms: it fires, with 10 ms accumulated; 100 units/s for
    // 0.01 s is one unit.
    assert_eq!(sim.update(5), None);
    assert_eq!(sim.particles()[0].px, 1_000);
}

#[test]
fn update_reports_and_resets_on_the_stats_interval() {
    let mut sim = small_sim(vec![Particle { px: 399_500, py: 0, vx: 100_000, vy: 0 }]);
    // 10 ms tick: the particle crosses the wall (399.5 + 1 > 400).
    assert_eq!(sim.update(10), None);
    assert_eq!(sim.nb_hits(), 1);
    assert_eq!(sim.particles()[0].vx, -100_000);
    // Drive the stats timer across its interval: one report of
    // hits * area, then the counter is reset.
    let report = sim.update(990);
    assert_eq!(report, Some(1u128 * 800_000 * 400_000));
    assert_eq!(sim.nb_hits(), 0);
}

#[test]
fn update_resolves_collisions_every_frame() {
    // The resolver is not gated by the move timer: even a 0 ms frame
    // runs it.
    let mut sim = small_sim(vec![
        Particle { px: 0, py: 0, vx: 1_000, vy: 2_000 },
        Particle { px: 3_000, py: 0, vx: -4_000, vy: 5_000 },
    ]);
    sim.update(0);
    assert_eq!((sim.particles()[0].vx, sim.particles()[0].vy), (4_000, -5_000));
    assert_eq!((sim.particles()[1].vx, sim.particles()[1].vy), (-1_000, -2_000));
}

#[test]
fn resize_clamps_positions_and_is_idempotent() {
    let mut sim = small_sim(vec![
        Particle { px: 399_000, py: -150_000, vx: 7, vy: 8 },
        Particle { px: -10_000, py: 0, vx: 9, vy: 10 },
    ]);
    sim.on_resize(400_000, 200_000);
    assert_eq!((sim.particles()[0].px, sim.particles()[0].py), (200_000, -100_000));
    // Velocities are untouched and no hit is recorded.
    assert_eq!((sim.particles()[0].vx, sim.particles()[0].vy), (7, 8));
    assert_eq!(sim.nb_hits(), 0);
    // A position already inside is a no-op.
    assert_eq!((sim.particles()[1].px, sim.particles()[1].py), (-10_000, 0));
    // Clamping twice yields what clamping once did.
    sim.on_resize(400_000, 200_000);
    assert_eq!((sim.particles()[0].px, sim.particles()[0].py), (200_000, -100_000));
    assert_eq!((sim.particles()[1].px, sim.particles()[1].py), (-10_000, 0));
}
