use vstd::prelude::*;
use crate::boundary::{clamp_i, clamp_i64, half_extent, half_of};
use crate::config::{
    MAX_DISPLACEMENT, MAX_EXTENT, MAX_POS, MAX_SPEED, MAX_TICK_MILLIS, MILLIS_PER_SECOND,
};
use crate::particle::{wf_seq, Particle};

verus! {

/// The displacement, in milli-units, that a velocity `v` (milli-units
/// per second) produces in `dt` milliseconds, rounded toward zero.
pub open spec fn displacement(v: int, dt: int) -> int {
    if v >= 0 {
        (v * dt) / (MILLIS_PER_SECOND as int)
    } else {
        -(((-v) * dt) / (MILLIS_PER_SECOND as int))
    }
}

/// A position saturated into the representable range, a defence
/// against runaway values.
pub open spec fn saturate_pos(v: int) -> int {
    clamp_i(v, -(MAX_POS as int), MAX_POS as int)
}

/// `displacement`, executably.
pub fn displacement_exec(v: i64, dt: u64) -> (d: i64)
    requires
        -MAX_SPEED <= v <= MAX_SPEED,
        dt <= MAX_TICK_MILLIS,
    ensures
        d == displacement(v as int, dt as int),
        -MAX_DISPLACEMENT <= d <= MAX_DISPLACEMENT,
{
    if v >= 0 {
        proof {
            assert(v * dt <= MAX_SPEED * MAX_TICK_MILLIS) by (nonlinear_arith)
                requires 0 <= v <= MAX_SPEED, 0 <= dt <= MAX_TICK_MILLIS;
            assert((v * dt) / (MILLIS_PER_SECOND as int) <= MAX_DISPLACEMENT
                && 0 <= (v * dt) / (MILLIS_PER_SECOND as int)) by (nonlinear_arith)
                requires 0 <= v * dt <= MAX_SPEED * MAX_TICK_MILLIS;
        }
        let prod: u64 = (v as u64) * dt;
        (prod / MILLIS_PER_SECOND) as i64
    } else {
        let nv: i64 = -v;
        proof {
            assert(nv * dt <= MAX_SPEED * MAX_TICK_MILLIS) by (nonlinear_arith)
                requires 0 <= nv <= MAX_SPEED, 0 <= dt <= MAX_TICK_MILLIS;
            assert((nv * dt) / (MILLIS_PER_SECOND as int) <= MAX_DISPLACEMENT
                && 0 <= (nv * dt) / (MILLIS_PER_SECOND as int)) by (nonlinear_arith)
                requires 0 <= nv * dt <= MAX_SPEED * MAX_TICK_MILLIS;
        }
        let prod: u64 = (nv as u64) * dt;
        -((prod / MILLIS_PER_SECOND) as i64)
    }
}

/// The x position of a particle after one integration tick of `dt`
/// milliseconds.
pub open spec fn integrated_x(p: Particle, dt: int) -> int {
    saturate_pos(p.px + displacement(p.vx as int, dt))
}

/// The y position of a particle after one integration tick.
pub open spec fn integrated_y(p: Particle, dt: int) -> int {
    saturate_pos(p.py + displacement(p.vy as int, dt))
}

/// Whether `|v| > bound`: a position strictly beyond a wall. A
/// particle exactly at the boundary is not reflected.
pub open spec fn beyond(v: int, bound: int) -> bool {
    v > bound || v < -bound
}

/// One particle after a single integration tick: the position advances
/// by velocity times `dt`, then each velocity component whose new
/// position lies strictly outside the corresponding half-extent is
/// negated.
pub open spec fn moved_particle(p: Particle, dt: int, width: int, height: int) -> Particle {
    let nx = integrated_x(p, dt);
    let ny = integrated_y(p, dt);
    Particle {
        px: nx as i64,
        py: ny as i64,
        vx: if beyond(nx, half_of(width)) { (-(p.vx as int)) as i64 } else { p.vx },
        vy: if beyond(ny, half_of(height)) { (-(p.vy as int)) as i64 } else { p.vy },
    }
}

/// How many wall hits one integration tick of a particle records: one
/// per axis whose new position lies strictly beyond the wall, so a
/// particle that overshoots both axes counts twice.
pub open spec fn hit_count(p: Particle, dt: int, width: int, height: int) -> int {
    (if beyond(integrated_x(p, dt), half_of(width)) { 1int } else { 0int })
        + (if beyond(integrated_y(p, dt), half_of(height)) { 1int } else { 0int })
}

/// Advance one particle by `dt` milliseconds against the container
/// walls, returning how many wall hits were recorded (0, 1 or 2).
pub fn move_particle(p: &mut Particle, dt: u64, width: u64, height: u64) -> (hits: u64)
    requires
        old(p).wf(),
        dt <= MAX_TICK_MILLIS,
        width <= MAX_EXTENT,
        height <= MAX_EXTENT,
    ensures
        final(p).wf(),
        *final(p) == moved_particle(*old(p), dt as int, width as int, height as int),
        hits == hit_count(*old(p), dt as int, width as int, height as int),
        hits <= 2,
{
    let dx = displacement_exec(p.vx, dt);
    let dy = displacement_exec(p.vy, dt);
    let nx = clamp_i64(p.px + dx, -MAX_POS, MAX_POS);
    let ny = clamp_i64(p.py + dy, -MAX_POS, MAX_POS);
    let half_w = half_extent(width);
    let half_h = half_extent(height);
    let mut hits: u64 = 0;
    p.px = nx;
    p.py = ny;
    if ny > half_h || ny < -half_h {
        p.vy = -p.vy;
        hits = hits + 1;
    }
    if nx > half_w || nx < -half_w {
        p.vx = -p.vx;
        hits = hits + 1;
    }
    hits
}

/// The whole store after one integration tick.
pub open spec fn moved_seq(s: Seq<Particle>, dt: int, width: int, height: int) -> Seq<Particle> {
    s.map_values(|p: Particle| moved_particle(p, dt, width, height))
}

/// The wall hits the first `n` particles of the store record in one
/// integration tick.
pub open spec fn total_hits_upto(
    s: Seq<Particle>,
    dt: int,
    width: int,
    height: int,
    n: int,
) -> int
    decreases n,
{
    if n <= 0 {
        0
    } else {
        total_hits_upto(s, dt, width, height, n - 1) + hit_count(s[n - 1], dt, width, height)
    }
}

/// The wall hits the whole store records in one integration tick.
pub open spec fn total_hits(s: Seq<Particle>, dt: int, width: int, height: int) -> int {
    total_hits_upto(s, dt, width, height, s.len() as int)
}

/// Addition on the hit counter, saturating at `u64::MAX`.
pub open spec fn sat_add(a: int, b: int) -> int {
    if a + b > u64::MAX {
        u64::MAX as int
    } else {
        a + b
    }
}

/// Add to the hit counter, saturating at `u64::MAX`.
pub fn sat_add_u64(a: u64, b: u64) -> (r: u64)
    ensures
        r == sat_add(a as int, b as int),
{
    if b > u64::MAX - a {
        u64::MAX
    } else {
        a + b
    }
}

/// Wall reflection correctness: when a particle's position lies
/// strictly beyond a wall after integration, exactly that velocity
/// component flips sign and exactly one hit is recorded for that
/// axis; a particle that overshoots both axes records two hits; a
/// particle inside (or exactly at) the walls keeps its velocity and
/// records none.
pub proof fn lemma_wall_reflection(p: Particle, dt: int, width: int, height: int)
    requires
        p.wf(),
    ensures
        beyond(integrated_x(p, dt), half_of(width))
            ==> moved_particle(p, dt, width, height).vx == -p.vx,
        !beyond(integrated_x(p, dt), half_of(width))
            ==> moved_particle(p, dt, width, height).vx == p.vx,
        beyond(integrated_y(p, dt), half_of(height))
            ==> moved_particle(p, dt, width, height).vy == -p.vy,
        !beyond(integrated_y(p, dt), half_of(height))
            ==> moved_particle(p, dt, width, height).vy == p.vy,
        beyond(integrated_x(p, dt), half_of(width)) && beyond(integrated_y(p, dt), half_of(height))
            ==> hit_count(p, dt, width, height) == 2,
        beyond(integrated_x(p, dt), half_of(width)) != beyond(integrated_y(p, dt), half_of(height))
            ==> hit_count(p, dt, width, height) == 1,
        !beyond(integrated_x(p, dt), half_of(width)) && !beyond(integrated_y(p, dt), half_of(height))
            ==> hit_count(p, dt, width, height) == 0,
{
}

/// Adding the hits of a tick to the counter is exact addition as long
/// as the counter has room: saturation touches nothing below
/// `u64::MAX`.
pub proof fn lemma_sat_add_exact(a: int, b: int)
    requires
        a + b <= u64::MAX,
    ensures
        sat_add(a, b) == a + b,
{
}

/// One firing of the motion integrator: every particle advances by
/// `dt` milliseconds and the wall hits of the tick are added to the
/// hit counter (saturating).
pub fn move_all(
    particles: &mut Vec<Particle>,
    dt: u64,
    width: u64,
    height: u64,
    nb_hits: &mut u64,
)
    requires
        wf_seq(old(particles)@),
        dt <= MAX_TICK_MILLIS,
        width <= MAX_EXTENT,
        height <= MAX_EXTENT,
    ensures
        final(particles)@ == moved_seq(old(particles)@, dt as int, width as int, height as int),
        wf_seq(final(particles)@),
        *final(nb_hits)
            == sat_add(*old(nb_hits) as int, total_hits(old(particles)@, dt as int, width as int, height as int)),
{
    let ghost s0 = particles@;
    let ghost h0 = *nb_hits;
    let n = particles.len();
    let mut i: usize = 0;
    while i < n
        invariant
            i <= n,
            n == s0.len(),
            particles@.len() == n,
            wf_seq(s0),
            wf_seq(particles@),
            dt <= MAX_TICK_MILLIS,
            width <= MAX_EXTENT,
            height <= MAX_EXTENT,
            forall|j: int| 0 <= j < i
                ==> particles@[j] == moved_particle(s0[j], dt as int, width as int, height as int),
            forall|j: int| i <= j < n ==> particles@[j] == s0[j],
            *nb_hits == sat_add(h0 as int, total_hits_upto(s0, dt as int, width as int, height as int, i as int)),
        decreases n - i,
    {
        let mut p = particles[i];
        let hits = move_particle(&mut p, dt, width, height);
        particles[i] = p;
        *nb_hits = sat_add_u64(*nb_hits, hits);
        proof {
            assert(total_hits_upto(s0, dt as int, width as int, height as int, i + 1)
                == total_hits_upto(s0, dt as int, width as int, height as int, i as int)
                    + hit_count(s0[i as int], dt as int, width as int, height as int));
        }
        i = i + 1;
    }
    proof {
        assert(particles@ =~= moved_seq(s0, dt as int, width as int, height as int));
    }
}

} // verus!
