use vstd::prelude::*;
use crate::boundary::{clamp_particle, clamped_seq, half_extent, half_of, clamp_i64, WindowSize};
use crate::collision::{collide_all, resolve_all};
use crate::config::{
    Configuration, MAX_FRAME_MILLIS, MAX_INITIAL_SPEED, MOVE_INTERVAL_MILLIS, STATS_INTERVAL_MILLIS,
};
use crate::motion::{move_all, moved_seq, sat_add, total_hits};
use crate::particle::{wf_seq, Particle};
use crate::random::{gen_range_i64, thread_rng_handle};
use crate::stats::{stats_metric, stats_step, Stats};
use crate::timer::Timer;

verus! {

/// The whole simulation: the particle store, the container, the hit
/// counter, the run parameters and the two repeating timers. All of
/// it is owned here and mutated only by the steps below.
pub struct Simulation {
    pub particles: Vec<Particle>,
    pub window: WindowSize,
    pub stats: Stats,
    pub config: Configuration,
    pub move_timer: Timer,
    pub stats_timer: Timer,
}

impl Simulation {
    /// Every component within its bounds.
    pub open spec fn wf(self) -> bool {
        &&& self.window.wf()
        &&& wf_seq(self.particles@)
        &&& self.move_timer.wf()
        &&& self.stats_timer.wf()
        &&& self.config.wf()
    }

    /// The particle store after the motion phase of one frame of `dt`
    /// milliseconds: advanced by the accumulated time when the move
    /// timer fires, untouched otherwise.
    pub open spec fn particles_after_move(self, dt: int) -> Seq<Particle> {
        if self.move_timer.fires(dt) {
            moved_seq(
                self.particles@,
                self.move_timer.accumulated(dt),
                self.window.x as int,
                self.window.y as int,
            )
        } else {
            self.particles@
        }
    }

    /// The hit counter after the motion phase of one frame.
    pub open spec fn hits_after_move(self, dt: int) -> int {
        if self.move_timer.fires(dt) {
            sat_add(
                self.stats.nb_hits as int,
                total_hits(
                    self.particles@,
                    self.move_timer.accumulated(dt),
                    self.window.x as int,
                    self.window.y as int,
                ),
            )
        } else {
            self.stats.nb_hits as int
        }
    }

    /// The particle store after one whole frame: the motion phase,
    /// then a full pass of the collision resolver.
    pub open spec fn particles_after_frame(self, dt: int) -> Seq<Particle> {
        resolve_all(self.particles_after_move(dt), self.config.collision_detection_distance as int)
    }

    /// The report one frame emits: the stats metric over the hit
    /// counter as the stats timer finds it, when that timer fires.
    pub open spec fn report_of_frame(self, dt: int) -> Option<u128> {
        if self.stats_timer.fires(dt) {
            Some(stats_metric(self.hits_after_move(dt), self.window.x as int, self.window.y as int) as u128)
        } else {
            None
        }
    }

    /// The hit counter after one whole frame: reset when the stats
    /// timer fired, otherwise what the motion phase left.
    pub open spec fn hits_after_frame(self, dt: int) -> int {
        if self.stats_timer.fires(dt) {
            0
        } else {
            self.hits_after_move(dt)
        }
    }

    /// A fresh simulation: `config.num_molecules` particles placed
    /// uniformly inside the container with velocity components drawn
    /// from `[0, MAX_INITIAL_SPEED)`, the hit counter at zero, and
    /// both timers freshly started.
    pub fn new(config: Configuration, window: WindowSize) -> (sim: Simulation)
        requires
            window.wf(),
            config.wf(),
        ensures
            sim.wf(),
            sim.config == config,
            sim.window == window,
            sim.stats.nb_hits == 0,
            sim.move_timer == (Timer { interval_ms: MOVE_INTERVAL_MILLIS, elapsed_ms: 0 }),
            sim.stats_timer == (Timer { interval_ms: STATS_INTERVAL_MILLIS, elapsed_ms: 0 }),
            sim.particles@.len() == config.num_molecules,
            forall|i: int| 0 <= i < sim.particles@.len() ==> {
                let p = #[trigger] sim.particles@[i];
                &&& -half_of(window.x as int) <= p.px <= half_of(window.x as int)
                &&& -half_of(window.y as int) <= p.py <= half_of(window.y as int)
                &&& 0 <= p.vx < MAX_INITIAL_SPEED
                &&& 0 <= p.vy < MAX_INITIAL_SPEED
            },
    {
        let particles = spawn_molecules(config.num_molecules, &window);
        Simulation {
            particles,
            window,
            stats: Stats { nb_hits: 0 },
            config,
            move_timer: Timer::new(MOVE_INTERVAL_MILLIS),
            stats_timer: Timer::new(STATS_INTERVAL_MILLIS),
        }
    }

    /// One frame of the update cycle, in the fixed order: motion
    /// integrator (when its timer fires, over the time it
    /// accumulated), then the collision resolver, then the stats
    /// aggregator. Returns the stats report when one fires.
    pub fn update(&mut self, dt: u64) -> (report: Option<u128>)
        requires
            old(self).wf(),
            dt <= MAX_FRAME_MILLIS,
        ensures
            final(self).wf(),
            final(self).window == old(self).window,
            final(self).config == old(self).config,
            final(self).particles@ == old(self).particles_after_frame(dt as int),
            final(self).stats.nb_hits == old(self).hits_after_frame(dt as int),
            report == old(self).report_of_frame(dt as int),
            final(self).move_timer == old(self).move_timer.after_tick(dt as int),
            final(self).stats_timer == old(self).stats_timer.after_tick(dt as int),
    {
        match self.move_timer.tick(dt) {
            Some(acc) => {
                move_all(&mut self.particles, acc, self.window.x, self.window.y, &mut self.stats.nb_hits);
            },
            None => {},
        }
        collide_all(&mut self.particles, self.config.collision_detection_distance);
        stats_step(&mut self.stats_timer, &mut self.stats, &self.window, dt)
    }

    /// A resize reported by the presentation layer: the latest
    /// dimensions replace the stored ones, and every particle position
    /// is clamped (not reflected) into the new half-extents; no
    /// velocity changes and no hit is recorded.
    pub fn on_resize(&mut self, width: u64, height: u64)
        requires
            old(self).wf(),
            (WindowSize { x: width, y: height }).wf(),
        ensures
            final(self).wf(),
            final(self).window == (WindowSize { x: width, y: height }),
            final(self).particles@ == clamped_seq(old(self).particles@, width as int, height as int),
            final(self).stats == old(self).stats,
            final(self).config == old(self).config,
            final(self).move_timer == old(self).move_timer,
            final(self).stats_timer == old(self).stats_timer,
    {
        self.window.x = width;
        self.window.y = height;
        let half_w = half_extent(width);
        let half_h = half_extent(height);
        let ghost s0 = self.particles@;
        let n = self.particles.len();
        let mut i: usize = 0;
        while i < n
            invariant
                i <= n,
                n == s0.len(),
                self.particles@.len() == n,
                half_w == half_of(width as int),
                half_h == half_of(height as int),
                0 <= half_w,
                0 <= half_h,
                self.window == (WindowSize { x: width, y: height }),
                self.stats == old(self).stats,
                self.config == old(self).config,
                self.move_timer == old(self).move_timer,
                self.stats_timer == old(self).stats_timer,
                (WindowSize { x: width, y: height }).wf(),
                old(self).config.wf(),
                wf_seq(self.particles@),
                forall|j: int| 0 <= j < i
                    ==> self.particles@[j] == clamp_particle(s0[j], width as int, height as int),
                forall|j: int| i <= j < n ==> self.particles@[j] == s0[j],
            decreases n - i,
        {
            let p = self.particles[i];
            let np = Particle {
                px: clamp_i64(p.px, -half_w, half_w),
                py: clamp_i64(p.py, -half_h, half_h),
                vx: p.vx,
                vy: p.vy,
            };
            self.particles[i] = np;
            i = i + 1;
        }
        proof {
            assert(self.particles@ =~= clamped_seq(s0, width as int, height as int));
        }
    }

    /// The current hit counter.
    pub fn nb_hits(&self) -> (h: u64)
        ensures
            h == self.stats.nb_hits,
    {
        self.stats.nb_hits
    }

    /// Read access to the particle store, for the presentation layer.
    pub fn particles(&self) -> (r: &Vec<Particle>)
        ensures
            r@ == self.particles@,
    {
        &self.particles
    }
}

/// The startup population: `n` particles placed uniformly inside the
/// container's half-extents, with velocity components drawn uniformly
/// from `[0, MAX_INITIAL_SPEED)`.
pub fn spawn_molecules(n: usize, window: &WindowSize) -> (particles: Vec<Particle>)
    requires
        window.wf(),
    ensures
        particles@.len() == n,
        wf_seq(particles@),
        forall|i: int| 0 <= i < particles@.len() ==> {
            let p = #[trigger] particles@[i];
            &&& -half_of(window.x as int) <= p.px <= half_of(window.x as int)
            &&& -half_of(window.y as int) <= p.py <= half_of(window.y as int)
            &&& 0 <= p.vx < MAX_INITIAL_SPEED
            &&& 0 <= p.vy < MAX_INITIAL_SPEED
        },
{
    let mut rng = thread_rng_handle();
    let half_w = half_extent(window.x);
    let half_h = half_extent(window.y);
    let mut particles: Vec<Particle> = Vec::new();
    let mut i: usize = 0;
    while i < n
        invariant
            i <= n,
            particles@.len() == i,
            half_w == half_of(window.x as int),
            half_h == half_of(window.y as int),
            0 <= half_w <= crate::config::MAX_POS,
            0 <= half_h <= crate::config::MAX_POS,
            wf_seq(particles@),
            forall|k: int| 0 <= k < particles@.len() ==> {
                let p = #[trigger] particles@[k];
                &&& -half_w <= p.px <= half_w
                &&& -half_h <= p.py <= half_h
                &&& 0 <= p.vx < MAX_INITIAL_SPEED
                &&& 0 <= p.vy < MAX_INITIAL_SPEED
            },
        decreases n - i,
    {
        let px = if half_w > 0 { gen_range_i64(&mut rng, -half_w, half_w) } else { 0 };
        let py = if half_h > 0 { gen_range_i64(&mut rng, -half_h, half_h) } else { 0 };
        let vx = gen_range_i64(&mut rng, 0, MAX_INITIAL_SPEED);
        let vy = gen_range_i64(&mut rng, 0, MAX_INITIAL_SPEED);
        particles.push(Particle { px, py, vx, vy });
        i = i + 1;
    }
    particles
}

} // verus!
